//! Memory mappings: how one is asked for, and what the library keeps of it.

use crate::util::fd::Fd;
use crate::Error;
use vstd::prelude::*;

verus! {

/// Whether writes to a mapping are seen by others that map the same object.
#[derive(Debug, Clone, Copy, PartialEq, Eq, Structural)]
pub enum Access {
    Shared,
    Private,
}

/// The platform's bit for readable pages: `libc::PROT_READ`, which is 1 on
/// x86-64 Linux.
#[verifier::external_body]
fn prot_read() -> (r: i32)
    ensures
        r == 1,
{
    libc::PROT_READ
}

/// The platform's bit for writable pages: `libc::PROT_WRITE`, which is 2 on
/// x86-64 Linux.
#[verifier::external_body]
fn prot_write() -> (r: i32)
    ensures
        r == 2,
{
    libc::PROT_WRITE
}

/// The platform's bit for executable pages: `libc::PROT_EXEC`, which is 4 on
/// x86-64 Linux.
#[verifier::external_body]
fn prot_exec() -> (r: i32)
    ensures
        r == 4,
{
    libc::PROT_EXEC
}

/// The platform's bit for a mapping without a file: `libc::MAP_ANONYMOUS`,
/// which is 0x20 on x86-64 Linux.
#[verifier::external_body]
fn map_anonymous() -> (r: i32)
    ensures
        r == 0x20,
{
    libc::MAP_ANONYMOUS
}

/// The platform's value for a shared mapping: `libc::MAP_SHARED`, which is 1
/// on x86-64 Linux.
#[verifier::external_body]
fn map_shared() -> (r: i32)
    ensures
        r == 1,
{
    libc::MAP_SHARED
}

/// The platform's value for a private mapping: `libc::MAP_PRIVATE`, which is 2
/// on x86-64 Linux.
#[verifier::external_body]
fn map_private() -> (r: i32)
    ensures
        r == 2,
{
    libc::MAP_PRIVATE
}

impl Access {
    /// The platform's value for this kind of mapping.
    pub open spec fn spec_bits(self) -> i32 {
        match self {
            Access::Shared => 1,
            Access::Private => 2,
        }
    }

    /// The platform's value for this kind of mapping.
    #[verifier::when_used_as_spec(spec_bits)]
    pub fn bits(self) -> (r: i32)
        ensures
            r == self.spec_bits(),
    {
        match self {
            Access::Shared => map_shared(),
            Access::Private => map_private(),
        }
    }
}

/// What may be done with the pages of a mapping: a set of the three bits
/// read (1), write (2) and execute (4).
#[derive(Debug, Clone, Copy, PartialEq, Eq, Structural)]
pub struct Protection {
    bits: i32,
}

impl Protection {
    /// The set as a number.
    pub closed spec fn spec_bits(self) -> i32 {
        self.bits
    }

    /// The set as a number.
    #[verifier::when_used_as_spec(spec_bits)]
    pub fn bits(self) -> (r: i32)
        ensures
            r == self.spec_bits(),
    {
        self.bits
    }

    /// Nothing may be done.
    pub fn empty() -> (r: Self)
        ensures
            r.bits() == 0,
    {
        Protection { bits: 0 }
    }

    /// The pages may be read.
    pub fn read() -> (r: Self)
        ensures
            r.bits() == 1,
    {
        Protection { bits: prot_read() }
    }

    /// The pages may be written.
    pub fn write() -> (r: Self)
        ensures
            r.bits() == 2,
    {
        Protection { bits: prot_write() }
    }

    /// The pages may be executed.
    pub fn execute() -> (r: Self)
        ensures
            r.bits() == 4,
    {
        Protection { bits: prot_exec() }
    }

    /// Everything that either set allows.
    pub fn union(self, other: Self) -> (r: Self)
        ensures
            r.bits() == self.bits() | other.bits(),
    {
        Protection { bits: self.bits | other.bits }
    }

    /// Whether this set allows everything that `other` allows.
    pub fn contains(self, other: Self) -> (r: bool)
        ensures
            r == (self.bits() & other.bits() == other.bits()),
    {
        self.bits & other.bits == other.bits
    }
}

/// Further properties of a mapping: a set with the one bit anonymous (0x20).
#[derive(Debug, Clone, Copy, PartialEq, Eq, Structural)]
pub struct Flags {
    bits: i32,
}

impl Flags {
    /// The set as a number.
    pub closed spec fn spec_bits(self) -> i32 {
        self.bits
    }

    /// The set as a number.
    #[verifier::when_used_as_spec(spec_bits)]
    pub fn bits(self) -> (r: i32)
        ensures
            r == self.spec_bits(),
    {
        self.bits
    }

    /// No further property.
    pub fn empty() -> (r: Self)
        ensures
            r.bits() == 0,
    {
        Flags { bits: 0 }
    }

    /// The mapping is backed by no file.
    pub fn anonymous() -> (r: Self)
        ensures
            r.bits() == 0x20,
    {
        Flags { bits: map_anonymous() }
    }

    /// The properties of either set.
    pub fn union(self, other: Self) -> (r: Self)
        ensures
            r.bits() == self.bits() | other.bits(),
    {
        Flags { bits: self.bits | other.bits }
    }

    /// Whether this set has every property of `other`.
    pub fn contains(self, other: Self) -> (r: bool)
        ensures
            r == (self.bits() & other.bits() == other.bits()),
    {
        self.bits & other.bits == other.bits
    }
}

/// The arguments of one request for a mapping.
#[derive(Debug, Clone, Copy, PartialEq, Eq, Structural)]
pub struct Call {
    /// The address asked for, or 0 for any.
    pub addr: usize,
    /// The number of bytes to map.
    pub length: usize,
    /// The protection bits.
    pub prot: i32,
    /// The kind of mapping and its further properties, in one number.
    pub flags: i32,
    /// The descriptor that backs the mapping, or -1.
    pub fd: i32,
    /// Where in the descriptor's object the mapping starts.
    pub offset: i64,
}

/// Collects the properties of a mapping before it is asked for.
#[derive(Debug, Clone, Copy, PartialEq, Eq, Structural)]
pub struct Builder {
    pub header: usize,
    pub addr: usize,
    pub extra: usize,
    pub prot: Protection,
    pub access: Access,
    pub flags: Flags,
    pub fd: i32,
    pub offset: i64,
}

/// A mapped region: a header of fixed size, then a run of bytes.
#[derive(Debug, PartialEq, Eq, Structural)]
pub struct Mapping {
    addr: usize,
    length: usize,
    header: usize,
}

impl Mapping {
    /// The header fits in the mapping.
    #[verifier::type_invariant]
    spec fn header_fits(&self) -> bool {
        self.header <= self.length
    }

    /// The address the region is mapped at.
    pub closed spec fn spec_addr(&self) -> usize {
        self.addr
    }

    /// The number of bytes mapped, header included.
    pub closed spec fn spec_length(&self) -> usize {
        self.length
    }

    /// The size of the header.
    pub closed spec fn spec_header(&self) -> usize {
        self.header
    }

    /// The number of bytes behind the header.
    pub open spec fn spec_len(&self) -> usize {
        if self.spec_header() <= self.spec_length() {
            (self.spec_length() - self.spec_header()) as usize
        } else {
            0
        }
    }

    /// Starts the description of a mapping with a header of `header` bytes:
    /// no extra bytes, no protection, no flags, no file, any address.
    pub fn build(access: Access, header: usize) -> (r: Builder)
        ensures
            r == (Builder {
                header,
                addr: 0,
                extra: 0,
                prot: r.prot,
                access,
                flags: r.flags,
                fd: -1i32,
                offset: 0,
            }),
            r.prot.bits() == 0,
            r.flags.bits() == 0,
    {
        Builder {
            header,
            addr: 0,
            extra: 0,
            prot: Protection::empty(),
            access,
            flags: Flags::empty(),
            fd: -1,
            offset: 0,
        }
    }

    /// The address the region is mapped at.
    #[verifier::when_used_as_spec(spec_addr)]
    pub fn addr(&self) -> (r: usize)
        ensures
            r == self.spec_addr(),
    {
        self.addr
    }

    /// The number of bytes mapped, header included.
    #[verifier::when_used_as_spec(spec_length)]
    pub fn length(&self) -> (r: usize)
        ensures
            r == self.spec_length(),
    {
        self.length
    }

    /// The size of the header.
    #[verifier::when_used_as_spec(spec_header)]
    pub fn header(&self) -> (r: usize)
        ensures
            r == self.spec_header(),
    {
        self.header
    }

    /// The number of bytes behind the header.
    #[verifier::when_used_as_spec(spec_len)]
    pub fn len(&self) -> (r: usize)
        ensures
            r == self.spec_len(),
            r == self.length() - self.header(),
    {
        proof {
            use_type_invariant(self);
        }
        self.length - self.header
    }

    /// The same region seen with a header of another size.
    pub closed spec fn spec_cast(self, header: usize) -> Mapping {
        Mapping { addr: self.addr, length: self.length, header }
    }

    /// Seeing a region with another header changes the header and nothing
    /// else: the region stays at its address, with its length.
    pub proof fn lemma_cast(self, header: usize)
        ensures
            self.spec_cast(header).addr() == self.addr(),
            self.spec_cast(header).length() == self.length(),
            self.spec_cast(header).header() == header,
    {
    }

    /// The same region seen with a header of another size, which must fit in
    /// the region.
    #[verifier::when_used_as_spec(spec_cast)]
    pub fn cast(self, header: usize) -> (r: Mapping)
        requires
            header <= self.length(),
        ensures
            r == self.spec_cast(header),
            r.addr() == self.addr(),
            r.length() == self.length(),
            r.header() == header,
    {
        Mapping { addr: self.addr, length: self.length, header }
    }
}

impl Builder {
    /// Sets what may be done with the pages.
    pub fn protection(self, prot: Protection) -> (r: Self)
        ensures
            r == (Builder { prot, ..self }),
    {
        Builder { prot, ..self }
    }

    /// Sets the number of bytes behind the header.
    pub fn extra(self, extra: usize) -> (r: Self)
        ensures
            r == (Builder { extra, ..self }),
    {
        Builder { extra, ..self }
    }

    /// Sets the further properties.
    pub fn flags(self, flags: Flags) -> (r: Self)
        ensures
            r == (Builder { flags, ..self }),
    {
        Builder { flags, ..self }
    }

    /// Sets the address to ask for.
    pub fn address(self, addr: usize) -> (r: Self)
        ensures
            r == (Builder { addr, ..self }),
    {
        Builder { addr, ..self }
    }

    /// Sets the descriptor that backs the mapping, and where in it to start.
    pub fn file(self, fd: &Fd, offset: i64) -> (r: Self)
        ensures
            r == (Builder { fd: fd.0, offset, ..self }),
    {
        Builder { fd: fd.as_raw_fd(), offset, ..self }
    }

    /// The call that asks for the mapping described, if its length can be
    /// expressed: header and extra bytes together.
    pub open spec fn spec_call(&self) -> Option<Call> {
        if self.header + self.extra > usize::MAX {
            None
        } else {
            Some(
                Call {
                    addr: self.addr,
                    length: (self.header + self.extra) as usize,
                    prot: self.prot.bits(),
                    flags: self.access.bits() | self.flags.bits(),
                    fd: self.fd,
                    offset: self.offset,
                },
            )
        }
    }

    /// The call that asks for the mapping described.
    #[verifier::when_used_as_spec(spec_call)]
    pub fn call(&self) -> (r: Option<Call>)
        ensures
            r == self.spec_call(),
    {
        match self.header.checked_add(self.extra) {
            None => None,
            Some(length) => Some(
                Call {
                    addr: self.addr,
                    length,
                    prot: self.prot.bits(),
                    flags: self.access.bits() | self.flags.bits(),
                    fd: self.fd,
                    offset: self.offset,
                },
            ),
        }
    }

    /// Whether an address is none at which a mapping can lie: 0, and the
    /// value of all bits set, by which the platform reports its failure.
    pub open spec fn spec_failed(addr: usize) -> bool {
        addr == 0 || addr == usize::MAX
    }

    /// Whether an address is none at which a mapping can lie.
    #[verifier::when_used_as_spec(spec_failed)]
    pub fn failed(addr: usize) -> (r: bool)
        ensures
            r == Self::spec_failed(addr),
    {
        addr == 0 || addr == usize::MAX
    }

    /// Finishes the mapping with what the platform answered to `self.call()`:
    /// the address it returned, and its error code.
    ///
    /// A length that cannot be expressed is refused as invalid input whatever
    /// the answer. An address at which no mapping can lie is the platform's
    /// failure, with its error code. Any other address is where the mapping
    /// lies, with the length and the header that were asked for.
    pub fn done(self, addr: usize, errno: i32) -> (r: Result<Mapping, Error>)
        ensures
            self.call() is None ==> r == Err::<Mapping, Error>(Error::InvalidInput),
            self.call() is Some && Self::failed(addr) ==> r == Err::<Mapping, Error>(
                Error::Os(errno),
            ),
            self.call() is Some && !Self::failed(addr) ==> r is Ok && r->Ok_0.addr() == addr
                && r->Ok_0.length() == self.header + self.extra && r->Ok_0.header()
                == self.header,
    {
        match self.call() {
            None => Err(Error::InvalidInput),
            Some(call) => {
                if Self::failed(addr) {
                    Err(Error::Os(errno))
                } else {
                    Ok(Mapping { addr, length: call.length, header: self.header })
                }
            },
        }
    }
}

} // verus!
