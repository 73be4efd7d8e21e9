//! Virtual machines and the memory regions that are given to them.
//!
//! The regions of a machine are kept by address space, in the order in which
//! they were given. None is ever taken away, so a region's place in its
//! address space is its number for good.

use crate::util::bytes::{put_u32, put_u64};
use crate::util::fd::{Argument, Fd, Reply, Request};
use crate::util::map::Mapping;
use crate::{Error, Kvm, MemoryFlags, VirtualMachine};
use std::collections::HashMap;
use vstd::bytes::{spec_u32_to_le_bytes, spec_u64_to_le_bytes, u32_to_le_bytes};
use vstd::prelude::*;

verus! {

broadcast use vstd::std_specs::hash::group_hash_axioms;

/// The request that asks whether the hypervisor has an extension.
pub const KVM_CHECK_EXTENSION: u64 = 44547;

/// The extension "several address spaces"; the answer is their number.
pub const KVM_CAP_MULTI_ADDRESS_SPACE: u64 = 118;

/// The request that creates a virtual processor.
pub const KVM_CREATE_VCPU: u64 = 44609;

/// The request that gives a memory region to a virtual machine.
pub const KVM_SET_USER_MEMORY_REGION: u64 = 1075883590;

/// The most regions that one address space can number.
pub const SLOTS: usize = 0x10000;

/// The identity of the region with number `index` in address space `space`:
/// the address space in the bits from 16 up, the number in the bits below.
pub open spec fn slot_id(space: u16, index: int) -> u32 {
    ((space as u32) << 16) | (index as u32)
}

/// A slot's identity gives back the address space and the number it was made
/// of, and belongs to no other pair.
pub proof fn lemma_slot_id(space: u16, index: int)
    requires
        0 <= index < SLOTS,
    ensures
        slot_id(space, index) & 0xffff == index,
        slot_id(space, index) >> 16 == space,
{
    let s = space as u32;
    let i = index as u32;
    assert(((s << 16) | i) & 0xffff == i && ((s << 16) | i) >> 16 == s) by (bit_vector)
        requires
            s <= 0xffff,
            i <= 0xffff,
    ;
}

/// Within one address space a later region has the greater identity, and
/// regions of different address spaces never share one.
pub proof fn lemma_slot_id_order(space: u16, first: int, second: int, other: u16)
    requires
        0 <= first < second < SLOTS,
    ensures
        slot_id(space, first) < slot_id(space, second),
        other != space ==> slot_id(other, first) != slot_id(space, second) && slot_id(
            other,
            second,
        ) != slot_id(space, first),
{
    lemma_slot_id(space, first);
    lemma_slot_id(space, second);
    lemma_slot_id(other, first);
    lemma_slot_id(other, second);
    let s = space as u32;
    let i = first as u32;
    let j = second as u32;
    assert(((s << 16) | i) < ((s << 16) | j)) by (bit_vector)
        requires
            s <= 0xffff,
            i < j,
            j <= 0xffff,
    ;
}

/// What the hypervisor is told of one memory region.
#[derive(Debug, Clone, Copy, PartialEq, Eq, Structural)]
pub struct Region {
    /// The region's identity.
    pub slot: u32,
    /// How the hypervisor treats the region.
    pub flags: u32,
    /// Where the guest sees the region.
    pub guest_phys_addr: u64,
    /// The size of the region in bytes.
    pub memory_size: u64,
    /// Where this process sees the region.
    pub userspace_addr: u64,
}

impl Region {
    /// The number of bytes that stand for a region.
    pub const SIZE: usize = 32;

    /// The bytes that stand for the region: the fields in their order, lowest
    /// byte first.
    pub open spec fn spec_encode(&self) -> Seq<u8> {
        spec_u32_to_le_bytes(self.slot) + spec_u32_to_le_bytes(self.flags) + spec_u64_to_le_bytes(
            self.guest_phys_addr,
        ) + spec_u64_to_le_bytes(self.memory_size) + spec_u64_to_le_bytes(self.userspace_addr)
    }

    /// Writes the region as the hypervisor reads it.
    pub fn encode(&self) -> (r: Vec<u8>)
        ensures
            r@ == self.spec_encode(),
            r@.len() == 32,
    {
        let mut out = u32_to_le_bytes(self.slot);
        put_u32(&mut out, self.flags);
        put_u64(&mut out, self.guest_phys_addr);
        put_u64(&mut out, self.memory_size);
        put_u64(&mut out, self.userspace_addr);
        out
    }
}

impl VirtualMachine {
    /// The machine's descriptor.
    pub closed spec fn spec_fd(&self) -> Fd {
        self.fd
    }

    /// The number of address spaces the machine has.
    pub closed spec fn address_spaces(&self) -> u32 {
        self.multi_addr_space
    }

    /// The size of the run page of each of the machine's processors.
    pub closed spec fn vcpu_mmap_size(&self) -> usize {
        self.vcpu_mmap_size
    }

    /// The regions of one address space, in the order in which they were
    /// given to the machine.
    pub closed spec fn regions(&self, space: u16) -> Seq<Mapping> {
        if self.mem@.contains_key(space) {
            self.mem@[space]@
        } else {
            Seq::empty()
        }
    }

    /// What holds of every machine that was made by [`new`](Self::new) and
    /// changed by [`add_region`](Self::add_region) only: an address space that
    /// the machine does not have holds no region, and none holds more regions
    /// than it can number.
    pub open spec fn wf(&self) -> bool {
        forall|space: u16|
            {
                &&& #[trigger] self.regions(space).len() <= SLOTS
                &&& space >= self.address_spaces() ==> self.regions(space).len() == 0
            }
    }

    /// The request that asks the machine behind `fd` for the number of its
    /// address spaces.
    pub fn address_spaces_request(fd: &Fd) -> (r: Request)
        ensures
            r == (Request {
                fd: fd.0,
                code: KVM_CHECK_EXTENSION,
                argument: Argument::Value(KVM_CAP_MULTI_ADDRESS_SPACE),
            }),
    {
        fd.ioctl(KVM_CHECK_EXTENSION, Argument::Value(KVM_CAP_MULTI_ADDRESS_SPACE))
    }

    /// The machine behind `fd`, which the hypervisor `kvm` created, given the
    /// answers to [`address_spaces_request`](Self::address_spaces_request) and
    /// to the hypervisor's request for the size of a run page.
    ///
    /// The first of the two requests that failed gives the error. The new
    /// machine has no region in any address space.
    pub fn new(kvm: &Kvm, fd: Fd, limit: &Reply, size: &Reply) -> (r: Result<Self, Error>)
        ensures
            limit.value < 0 ==> r is Err && r->Err_0 == Error::Os(limit.errno),
            limit.value >= 0 && size.value < 0 ==> r is Err && r->Err_0 == Error::Os(size.errno),
            limit.value >= 0 && size.value >= 0 ==> {
                &&& r is Ok
                &&& r->Ok_0.spec_fd() == fd
                &&& r->Ok_0.address_spaces() == limit.value
                &&& r->Ok_0.vcpu_mmap_size() == size.value
                &&& r->Ok_0.wf()
                &&& forall|space: u16| r->Ok_0.regions(space) == Seq::<Mapping>::empty()
            },
    {
        let limit = limit.result()?;
        let size = size.result()?;
        Ok(
            VirtualMachine {
                fd,
                vcpu_mmap_size: size as usize,
                multi_addr_space: limit,
                mem: HashMap::new(),
            },
        )
    }

    /// The machine's descriptor.
    pub fn fd(&self) -> (r: &Fd)
        ensures
            *r == self.spec_fd(),
    {
        &self.fd
    }

    /// The number of address spaces the machine has.
    pub fn address_space_count(&self) -> (r: u32)
        ensures
            r == self.address_spaces(),
    {
        self.multi_addr_space
    }

    /// The size of the run page of each of the machine's processors.
    pub fn run_page_size(&self) -> (r: usize)
        ensures
            r == self.vcpu_mmap_size(),
    {
        self.vcpu_mmap_size
    }

    /// The number of regions in one address space.
    pub fn region_count(&self, space: u16) -> (r: usize)
        ensures
            r == self.regions(space).len(),
    {
        match self.mem.get(&space) {
            Some(maps) => maps.len(),
            None => 0,
        }
    }

    /// The region with the number `index` in one address space, if there is
    /// one.
    pub fn region_at(&self, space: u16, index: usize) -> (r: Option<&Mapping>)
        ensures
            index < self.regions(space).len() ==> r is Some && *r->Some_0 == self.regions(
                space,
            )[index as int],
            index >= self.regions(space).len() ==> r is None,
    {
        match self.mem.get(&space) {
            Some(maps) => if index < maps.len() {
                Some(&maps[index])
            } else {
                None
            },
            None => None,
        }
    }

    /// The request that creates a processor of this machine.
    pub fn create_vcpu_request(&self) -> (r: Request)
        ensures
            r == (Request {
                fd: self.spec_fd().0,
                code: KVM_CREATE_VCPU,
                argument: Argument::Value(0),
            }),
    {
        self.fd.ioctl(KVM_CREATE_VCPU, Argument::Value(0))
    }

    /// What the hypervisor is to be told of a region that is given to the
    /// machine, or why the region is refused.
    ///
    /// An address space that the machine does not have is invalid input, and
    /// so is one that already numbers all the regions it can. The region gets
    /// the next number of its address space; its size is the length of the
    /// whole mapping, and its address that at which the mapping starts.
    pub open spec fn region_outcome(
        &self,
        space: u16,
        flags: MemoryFlags,
        addr: u64,
        map: Mapping,
    ) -> Result<Region, Error> {
        if space >= self.address_spaces() || self.regions(space).len() >= SLOTS {
            Err(Error::InvalidInput)
        } else {
            Ok(
                Region {
                    slot: slot_id(space, self.regions(space).len() as int),
                    flags: flags.bits(),
                    guest_phys_addr: addr,
                    memory_size: map.length() as u64,
                    userspace_addr: map.addr() as u64,
                },
            )
        }
    }

    /// Computes what the hypervisor is to be told of a region.
    pub fn region(&self, space: u16, flags: MemoryFlags, addr: u64, map: &Mapping) -> (r: Result<
        Region,
        Error,
    >)
        ensures
            r == self.region_outcome(space, flags, addr, *map),
    {
        if space as u32 >= self.multi_addr_space {
            return Err(Error::InvalidInput);
        }
        let index = self.region_count(space);
        if index >= SLOTS {
            return Err(Error::InvalidInput);
        }
        Ok(
            Region {
                slot: ((space as u32) << 16) | (index as u32),
                flags: flags.bits(),
                guest_phys_addr: addr,
                memory_size: map.length() as u64,
                userspace_addr: map.addr() as u64,
            },
        )
    }

    /// The request that gives a region to the machine, or why the region is
    /// refused.
    pub fn region_request(
        &self,
        space: u16,
        flags: MemoryFlags,
        addr: u64,
        map: &Mapping,
    ) -> (r: Result<Request, Error>)
        ensures
            match self.region_outcome(space, flags, addr, *map) {
                Err(e) => r is Err && r->Err_0 == e,
                Ok(region) => {
                    &&& r is Ok
                    &&& r->Ok_0.fd == self.spec_fd().0
                    &&& r->Ok_0.code == KVM_SET_USER_MEMORY_REGION
                    &&& r->Ok_0.argument matches Argument::Buffer(bytes)
                    &&& bytes@ == region.spec_encode()
                },
            },
    {
        let region = self.region(space, flags, addr, map)?;
        Ok(self.fd.ioctl(KVM_SET_USER_MEMORY_REGION, Argument::Buffer(region.encode())))
    }

    /// Gives a region to the machine, given the answer to
    /// [`region_request`](Self::region_request) for the same arguments.
    ///
    /// A region that is refused, or that the hypervisor did not accept,
    /// leaves the machine as it was. Else the mapping becomes the last region
    /// of its address space, at its address and with its length, seen without
    /// a header, and the region's identity is returned.
    pub fn add_region(
        &mut self,
        space: u16,
        flags: MemoryFlags,
        addr: u64,
        map: Mapping,
        reply: &Reply,
    ) -> (r: Result<u32, Error>)
        ensures
            old(self).wf() ==> final(self).wf(),
            final(self).spec_fd() == old(self).spec_fd(),
            final(self).address_spaces() == old(self).address_spaces(),
            final(self).vcpu_mmap_size() == old(self).vcpu_mmap_size(),
            forall|other: u16|
                other != space ==> final(self).regions(other) == old(self).regions(other),
            match old(self).region_outcome(space, flags, addr, map) {
                Err(e) => r == Err::<u32, Error>(e) && final(self).regions(space) == old(
                    self,
                ).regions(space),
                Ok(region) => if reply.value < 0 {
                    &&& r == Err::<u32, Error>(Error::Os(reply.errno))
                    &&& final(self).regions(space) == old(self).regions(space)
                } else {
                    &&& r == Ok::<u32, Error>(region.slot)
                    &&& region.slot & 0xffff == old(self).regions(space).len()
                    &&& region.slot >> 16 == space
                    &&& final(self).regions(space) == old(self).regions(space).push(map.cast(0))
                    &&& final(self).regions(space).len() == old(self).regions(space).len() + 1
                    &&& final(self).regions(space).last().addr() == map.addr()
                    &&& final(self).regions(space).last().length() == map.length()
                    &&& final(self).regions(space).last().header() == 0
                },
            },
    {
        let region = self.region(space, flags, addr, &map)?;
        proof {
            lemma_slot_id(space, old(self).regions(space).len() as int);
            map.lemma_cast(0);
        }
        if reply.value < 0 {
            return Err(Error::Os(reply.errno));
        }
        let mut maps = match self.mem.remove(&space) {
            Some(maps) => maps,
            None => Vec::new(),
        };
        maps.push(map.cast(0));
        self.mem.insert(space, maps);
        assert(self.regions(space) =~= old(self).regions(space).push(map.cast(0)));
        proof {
            if old(self).wf() {
                assert forall|other: u16|
                    {
                        &&& #[trigger] self.regions(other).len() <= SLOTS
                        &&& other >= self.address_spaces() ==> self.regions(other).len() == 0
                    } by {
                    if other != space {
                        assert(self.regions(other) == old(self).regions(other));
                    }
                }
            }
        }
        Ok(region.slot)
    }
}

} // verus!
