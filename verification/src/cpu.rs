//! Virtual processors: registers, running, and why a run ended.

use crate::arch::{Registers, SpecialRegisters};
use crate::run::{IoDirection, ReasonCode, ReasonIo, ReasonMmio, RUN_SIZE};
use crate::util::bytes::{le_u32, le_u64, read_u32};
use crate::util::fd::{Argument, Fd, Reply, Request};
use crate::util::map::{Access, Builder, Mapping, Protection};
use crate::{Error, Reason, VirtualCpu, VirtualMachine};
use vstd::prelude::*;
use vstd::slice::slice_subrange;

verus! {

/// The request that runs a processor until it stops.
pub const KVM_RUN: u64 = 44672;

/// The request that reads the general registers.
pub const KVM_GET_REGS: u64 = 2156965505;

/// The request that writes the general registers.
pub const KVM_SET_REGS: u64 = 1083223682;

/// The request that reads the special registers.
pub const KVM_GET_SREGS: u64 = 2167975555;

/// The request that writes the special registers.
pub const KVM_SET_SREGS: u64 = 1094233732;

/// Why a processor stopped, with the place of the data in its run page.
#[derive(Debug, Clone, Copy, PartialEq, Eq, Structural)]
pub enum Exit {
    /// The guest halted.
    Halt,
    /// The guest reads `len` bytes from a port; they are taken from the page
    /// at `start`.
    In { port: u16, start: usize, len: usize },
    /// The guest wrote `len` bytes to a port; they are in the page at `start`.
    Out { port: u16, start: usize, len: usize },
    /// The guest accessed `len` bytes of device memory at `addr`; they are in
    /// the page's buffer for such data.
    Mmio { addr: u64, len: usize, read: bool },
}

impl Exit {
    /// What a run page says.
    ///
    /// A page shorter than the header says nothing. Of the exit reasons, halt,
    /// port access and memory-mapped access are interpreted, every other is
    /// unsupported. The data of a port access lies behind the header and
    /// inside the page; the data of a memory-mapped access fits its buffer.
    pub open spec fn spec_decode(page: Seq<u8>) -> Result<Exit, Error> {
        if page.len() < RUN_SIZE {
            Err(Error::InvalidData)
        } else if le_u32(page, 8) == 5 {
            Ok(Exit::Halt)
        } else if le_u32(page, 8) == 2 {
            match ReasonIo::spec_decode(page) {
                Err(e) => Err(e),
                Ok(io) => if io.data_offset < RUN_SIZE || io.data_offset + io.size * io.count
                    > page.len() {
                    Err(Error::InvalidData)
                } else {
                    Ok(
                        match io.direction {
                            IoDirection::In => Exit::In {
                                port: io.port,
                                start: io.data_offset as usize,
                                len: (io.size * io.count) as usize,
                            },
                            IoDirection::Out => Exit::Out {
                                port: io.port,
                                start: io.data_offset as usize,
                                len: (io.size * io.count) as usize,
                            },
                        },
                    )
                },
            }
        } else if le_u32(page, 8) == 6 {
            if le_u32(page, 48) > 8 {
                Err(Error::InvalidData)
            } else {
                Ok(
                    Exit::Mmio {
                        addr: le_u64(page, 32),
                        len: le_u32(page, 48) as usize,
                        read: page[52] == 0,
                    },
                )
            }
        } else {
            Err(Error::UnsupportedExit(le_u32(page, 8)))
        }
    }

    /// Reads from a run page why the processor stopped.
    pub fn decode(page: &[u8]) -> (r: Result<Exit, Error>)
        ensures
            r == Self::spec_decode(page@),
    {
        if page.len() < RUN_SIZE {
            return Err(Error::InvalidData);
        }
        let code = read_u32(page, crate::run::EXIT_REASON_AT);
        match ReasonCode::from_code(code) {
            Some(ReasonCode::Hlt) => Ok(Exit::Halt),
            Some(ReasonCode::Io) => {
                let io = ReasonIo::decode(page)?;
                let len = io.len();
                let total = page.len() as u64;
                if io.data_offset < RUN_SIZE as u64 || io.data_offset > total || len > total
                    - io.data_offset {
                    return Err(Error::InvalidData);
                }
                let start = io.data_offset as usize;
                let len = len as usize;
                match io.direction {
                    IoDirection::In => Ok(Exit::In { port: io.port, start, len }),
                    IoDirection::Out => Ok(Exit::Out { port: io.port, start, len }),
                }
            },
            Some(ReasonCode::Mmio) => {
                let mmio = ReasonMmio::decode(page)?;
                if mmio.len > 8 {
                    Err(Error::InvalidData)
                } else {
                    Ok(
                        Exit::Mmio {
                            addr: mmio.phys_addr,
                            len: mmio.len as usize,
                            read: mmio.is_write == 0,
                        },
                    )
                }
            },
            _ => Err(Error::UnsupportedExit(code)),
        }
    }
}

/// The window of `len` bytes at `start`, for writing: what the caller writes
/// through it is what the page holds there afterwards.
fn window<'a>(page: &'a mut [u8], start: usize, len: usize) -> (r: &'a mut [u8])
    requires
        start + len <= old(page)@.len(),
    ensures
        r@ == old(page)@.subrange(start as int, start + len),
        final(page)@ == old(page)@.subrange(0, start as int) + final(r)@ + old(page)@.subrange(
            start + len,
            old(page)@.len() as int,
        ),
{
    let (_, tail) = page.split_at_mut(start);
    let (data, _) = tail.split_at_mut(len);
    data
}

impl<'a> Reason<'a> {
    /// Whether this is the exit `exit` with its data taken from `page`.
    pub open spec fn shows(&self, exit: Exit, page: Seq<u8>) -> bool {
        match exit {
            Exit::Halt => self is Halt,
            Exit::In { port, start, len } => {
                &&& self matches Reason::Io(crate::ReasonIo::In { port: p, data })
                &&& p == port
                &&& data@ == page.subrange(start as int, start + len)
            },
            Exit::Out { port, start, len } => {
                &&& self matches Reason::Io(crate::ReasonIo::Out { port: p, data })
                &&& p == port
                &&& data@ == page.subrange(start as int, start + len)
            },
            Exit::Mmio { addr, len, read } => {
                &&& self matches Reason::Mmio { addr: a, data, read: r }
                &&& a == addr
                &&& r == read
                &&& data@ == page.subrange(40, 40 + len)
            },
        }
    }

    /// Borrows from `page` what the exit `exit` speaks of.
    pub fn view_of(exit: Exit, page: &'a mut [u8]) -> (r: Reason<'a>)
        requires
            Exit::spec_decode(old(page)@) == Ok::<Exit, Error>(exit),
        ensures
            r.shows(exit, old(page)@),
            match r {
                Reason::Io(crate::ReasonIo::In { port, data }) => exit matches Exit::In {
                    start,
                    len,
                    ..
                } && final(page)@ == old(page)@.subrange(0, start as int) + final(data)@ + old(
                    page,
                )@.subrange(start + len, old(page)@.len() as int),
                _ => final(page)@ == old(page)@,
            },
    {
        match exit {
            Exit::Halt => Reason::Halt,
            Exit::In { port, start, len } => {
                let data = window(page, start, len);
                Reason::Io(crate::ReasonIo::In { port, data })
            },
            Exit::Out { port, start, len } => {
                let shared: &'a [u8] = page;
                proof {
                    vstd::slice::axiom_spec_len(shared);
                }
                let data = slice_subrange(shared, start, start + len);
                Reason::Io(crate::ReasonIo::Out { port, data })
            },
            Exit::Mmio { addr, len, read } => {
                let shared: &'a [u8] = page;
                let data = slice_subrange(shared, ReasonMmio::DATA_AT, ReasonMmio::DATA_AT + len);
                Reason::Mmio { addr, data, read }
            },
        }
    }
}

impl VirtualCpu {
    /// The processor's descriptor.
    pub closed spec fn spec_fd(&self) -> Fd {
        self.fd
    }

    /// The mapping of the processor's run page.
    pub closed spec fn spec_mapping(&self) -> Mapping {
        self.run
    }

    /// The processor's descriptor.
    pub fn fd(&self) -> (r: &Fd)
        ensures
            *r == self.spec_fd(),
    {
        &self.fd
    }

    /// The mapping of the processor's run page.
    pub fn run_page(&self) -> (r: &Mapping)
        ensures
            *r == self.spec_mapping(),
    {
        &self.run
    }

    /// How the run page of a processor of `vm` is to be mapped: shared, for
    /// reading and writing, from the start of the processor's descriptor
    /// `fd`, the header and then as many bytes as are left of the size that
    /// the machine names. A size smaller than the header is invalid data.
    pub fn mapping(vm: &VirtualMachine, fd: &Fd) -> (r: Result<Builder, Error>)
        ensures
            vm.vcpu_mmap_size() < RUN_SIZE ==> r == Err::<Builder, Error>(Error::InvalidData),
            vm.vcpu_mmap_size() >= RUN_SIZE ==> {
                &&& r is Ok
                &&& r->Ok_0.header == RUN_SIZE
                &&& r->Ok_0.extra == vm.vcpu_mmap_size() - RUN_SIZE
                &&& r->Ok_0.addr == 0
                &&& r->Ok_0.access == Access::Shared
                &&& r->Ok_0.prot.bits() == 3
                &&& r->Ok_0.flags.bits() == 0
                &&& r->Ok_0.fd == fd.0
                &&& r->Ok_0.offset == 0
            },
    {
        let size = vm.run_page_size();
        if size < RUN_SIZE {
            return Err(Error::InvalidData);
        }
        let prot = Protection::read().union(Protection::write());
        assert(1i32 | 2i32 == 3i32) by (bit_vector);
        Ok(
            Mapping::build(Access::Shared, RUN_SIZE).protection(prot).extra(size - RUN_SIZE).file(
                fd,
                0,
            ),
        )
    }

    /// The processor of `vm` behind the descriptor `fd`, with `run` as the
    /// mapping of its run page. A mapping that does not have the size that
    /// the machine names, or whose header is not that of a run page, is
    /// invalid input.
    pub fn new(vm: &VirtualMachine, fd: Fd, run: Mapping) -> (r: Result<Self, Error>)
        ensures
            run.length() == vm.vcpu_mmap_size() && run.header() == RUN_SIZE ==> {
                &&& r is Ok
                &&& r->Ok_0.spec_fd() == fd
                &&& r->Ok_0.spec_mapping() == run
            },
            !(run.length() == vm.vcpu_mmap_size() && run.header() == RUN_SIZE) ==> r is Err
                && r->Err_0 == Error::InvalidInput,
    {
        if run.length() != vm.run_page_size() || run.header() != RUN_SIZE {
            return Err(Error::InvalidInput);
        }
        Ok(VirtualCpu { fd, run })
    }

    /// The request that reads the general registers.
    pub fn registers_request(&self) -> (r: Request)
        ensures
            r.fd == self.spec_fd().0,
            r.code == KVM_GET_REGS,
            r.argument matches Argument::Buffer(bytes) && bytes@ == Registers::zero().spec_encode(),
    {
        self.fd.ioctl(KVM_GET_REGS, Argument::Buffer(Registers::default().encode()))
    }

    /// What reading registers ends with: the platform's error where the
    /// request failed, invalid data where the answer does not hold as many
    /// bytes as stand for the registers, else the registers they stand for.
    pub open spec fn registers_outcome(reply: Reply) -> Result<Registers, Error> {
        if reply.value < 0 {
            Err(Error::Os(reply.errno))
        } else {
            match Registers::spec_decode(reply.buffer@) {
                Some(regs) => Ok(regs),
                None => Err(Error::InvalidData),
            }
        }
    }

    /// The general registers, given the answer to
    /// [`registers_request`](Self::registers_request).
    pub fn registers(&self, reply: &Reply) -> (r: Result<Registers, Error>)
        ensures
            r == Self::registers_outcome(*reply),
    {
        reply.result()?;
        match Registers::decode(reply.buffer.as_slice()) {
            Some(regs) => Ok(regs),
            None => Err(Error::InvalidData),
        }
    }

    /// The request that writes the general registers, all of them.
    pub fn set_registers(&mut self, regs: Registers) -> (r: Request)
        ensures
            *final(self) == *old(self),
            r.fd == old(self).spec_fd().0,
            r.code == KVM_SET_REGS,
            r.argument matches Argument::Buffer(bytes) && bytes@ == regs.spec_encode(),
    {
        self.fd.ioctl(KVM_SET_REGS, Argument::Buffer(regs.encode()))
    }

    /// The request that reads the special registers.
    pub fn special_registers_request(&self) -> (r: Request)
        ensures
            r.fd == self.spec_fd().0,
            r.code == KVM_GET_SREGS,
            r.argument matches Argument::Buffer(bytes) && bytes@.len() == 312 && exists|
                zero: SpecialRegisters,
            |
                zero.is_zero() && bytes@ == zero.spec_encode(),
    {
        let zero = SpecialRegisters::default();
        let bytes = zero.encode();
        assert(zero.is_zero() && bytes@ == zero.spec_encode());
        self.fd.ioctl(KVM_GET_SREGS, Argument::Buffer(bytes))
    }

    /// The special registers, given the answer to
    /// [`special_registers_request`](Self::special_registers_request): the
    /// platform's error where the request failed, invalid data where the
    /// answer does not hold as many bytes as stand for them, else the
    /// registers they stand for.
    pub fn special_registers(&self, reply: &Reply) -> (r: Result<SpecialRegisters, Error>)
        ensures
            reply.value < 0 ==> r is Err && r->Err_0 == Error::Os(reply.errno),
            reply.value >= 0 && reply.buffer@.len() != 312 ==> r is Err && r->Err_0
                == Error::InvalidData,
            reply.value >= 0 && reply.buffer@.len() == 312 ==> r is Ok && r->Ok_0.decoded_from(
                reply.buffer@,
            ),
    {
        reply.result()?;
        match SpecialRegisters::decode(reply.buffer.as_slice()) {
            Some(regs) => Ok(regs),
            None => Err(Error::InvalidData),
        }
    }

    /// The request that writes the special registers, all of them.
    pub fn set_special_registers(&mut self, regs: SpecialRegisters) -> (r: Request)
        ensures
            *final(self) == *old(self),
            r.fd == old(self).spec_fd().0,
            r.code == KVM_SET_SREGS,
            r.argument matches Argument::Buffer(bytes) && bytes@ == regs.spec_encode(),
    {
        self.fd.ioctl(KVM_SET_SREGS, Argument::Buffer(regs.encode()))
    }

    /// Registers that were written are read back unchanged: where the answer
    /// to the reading request holds the bytes of the writing request, the
    /// registers read are the registers written, every one.
    pub proof fn lemma_registers_round_trip(regs: Registers, reply: Reply)
        requires
            reply.value >= 0,
            reply.buffer@ == regs.spec_encode(),
        ensures
            Self::registers_outcome(reply) == Ok::<Registers, Error>(regs),
    {
        regs.lemma_round_trip();
    }

    /// Special registers that were written are read back unchanged: where the
    /// answer to the reading request holds the bytes of the writing request,
    /// whatever is read from it is what was written, every field.
    pub proof fn lemma_special_registers_round_trip(
        regs: SpecialRegisters,
        read: SpecialRegisters,
        reply: Reply,
    )
        requires
            reply.buffer@ == regs.spec_encode(),
            read.decoded_from(reply.buffer@),
        ensures
            read == regs,
    {
        regs.lemma_round_trip(read);
    }

    /// The request that runs the processor until it stops.
    pub fn run_request(&self) -> (r: Request)
        ensures
            r == (Request { fd: self.spec_fd().0, code: KVM_RUN, argument: Argument::Value(0) }),
    {
        self.fd.ioctl(KVM_RUN, Argument::Value(0))
    }

    /// What a run ended with, given the answer to the run request and the
    /// bytes of the run page after it: the platform's error where the request
    /// failed, invalid input where `page` is not as long as the processor's
    /// run page, else what the page says.
    pub open spec fn run_outcome(&self, page: Seq<u8>, reply: Reply) -> Result<Exit, Error> {
        if reply.value < 0 {
            Err(Error::Os(reply.errno))
        } else if page.len() != self.spec_mapping().length() {
            Err(Error::InvalidInput)
        } else {
            Exit::spec_decode(page)
        }
    }

    /// Interprets the end of a run: `reply` is the answer to
    /// [`run_request`](Self::run_request), `page` the run page after it.
    ///
    /// The data of the reason returned is borrowed from `page`. Only for a
    /// read from a port can the caller change the page, and then only the
    /// bytes that the guest will read.
    pub fn run<'b>(&mut self, page: &'b mut [u8], reply: &Reply) -> (r: Result<Reason<'b>, Error>)
        ensures
            *final(self) == *old(self),
            match (r, old(self).run_outcome(old(page)@, *reply)) {
                (Ok(reason), Ok(exit)) => reason.shows(exit, old(page)@),
                (Err(e), Err(x)) => e == x,
                _ => false,
            },
            match r {
                Ok(Reason::Io(crate::ReasonIo::In { port, data })) => old(self).run_outcome(
                    old(page)@,
                    *reply,
                ) matches Ok(Exit::In { start, len, .. }) && final(page)@ == old(page)@.subrange(
                    0,
                    start as int,
                ) + final(data)@ + old(page)@.subrange(start + len, old(page)@.len() as int),
                _ => final(page)@ == old(page)@,
            },
    {
        if reply.value < 0 {
            return Err(Error::Os(reply.errno));
        }
        if page.len() != self.run.length() {
            return Err(Error::InvalidInput);
        }
        let exit = Exit::decode(page)?;
        Ok(Reason::view_of(exit, page))
    }
}

} // verus!
