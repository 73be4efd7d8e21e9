//! Control plane for a hardware-assisted hypervisor.
//!
//! The library decides what is asked of the kernel and what an answer means;
//! it never talks to the kernel itself. Every operation comes as a pair: a
//! function that builds a [`util::fd::Request`], and a function that takes the
//! kernel's [`util::fd::Reply`] and yields the next value or an error.

pub mod arch;
pub mod cpu;
pub mod kvm;
pub mod run;
pub mod sev;
pub mod vm;
pub mod util;

use crate::util::fd::Fd;
use crate::util::map::Mapping;
use std::collections::HashMap;
use vstd::prelude::*;

verus! {

/// The protocol version this library speaks.
pub const API_VERSION: u32 = 12;

/// Why an operation was refused or failed.
#[derive(Debug, Clone, Copy, PartialEq, Eq, Structural)]
pub enum Error {
    /// The hypervisor speaks another protocol version; the value is the one it reported.
    InvalidVersion(u32),
    /// An argument of the caller is outside what the virtual machine accepts.
    InvalidInput,
    /// The kernel refused a request; the value is the platform's error code.
    Os(i32),
    /// The run page names an exit reason that this library does not interpret.
    UnsupportedExit(u32),
    /// The run page names a port direction that is neither "in" nor "out".
    UnsupportedDirection(u8),
    /// The run page is shorter than its layout, or a range in it leaves the page.
    InvalidData,
}

/// The hypervisor: the descriptor of its device, once its protocol version
/// was found to be the one this library speaks.
pub struct Kvm(Fd);

/// One virtual machine: its descriptor, what it can do, and the memory
/// regions that were given to it, by address space.
pub struct VirtualMachine {
    fd: Fd,
    vcpu_mmap_size: usize,
    multi_addr_space: u32,
    mem: HashMap<u16, Vec<Mapping>>,
}

/// One virtual processor: its descriptor and the mapping of its run page.
pub struct VirtualCpu {
    fd: Fd,
    run: Mapping,
}

/// A port access that stopped the processor.
#[derive(Debug)]
#[allow(inconsistent_fields)]
pub enum ReasonIo<'a> {
    /// The guest reads from a port: the caller writes into `data` what the
    /// guest shall read.
    In { port: u16, data: &'a mut [u8] },
    /// The guest wrote to a port: `data` is what it wrote.
    Out { port: u16, data: &'a [u8] },
}

/// Why a processor stopped.
#[derive(Debug)]
pub enum Reason<'a> {
    /// The guest halted.
    Halt,
    /// The guest accessed a port.
    Io(ReasonIo<'a>),
    /// The guest accessed memory that is mapped to a device.
    Mmio { addr: u64, data: &'a [u8], read: bool },
}

/// How the hypervisor treats a memory region: a set of the two bits
/// "log dirty pages" (1) and "read only" (2).
#[derive(Debug, Clone, Copy, PartialEq, Eq, Structural)]
pub struct MemoryFlags {
    bits: u32,
}

impl MemoryFlags {
    /// The set as a number.
    pub closed spec fn spec_bits(self) -> u32 {
        self.bits
    }

    /// The set as a number.
    #[verifier::when_used_as_spec(spec_bits)]
    pub fn bits(self) -> (r: u32)
        ensures
            r == self.spec_bits(),
    {
        self.bits
    }

    /// The empty set.
    pub fn empty() -> (r: Self)
        ensures
            r.bits() == 0,
    {
        MemoryFlags { bits: 0 }
    }

    /// The hypervisor keeps track of the pages that the guest writes.
    pub fn log_dirty_pages() -> (r: Self)
        ensures
            r.bits() == 1,
    {
        MemoryFlags { bits: 1 }
    }

    /// The guest cannot write to the region.
    pub fn read_only() -> (r: Self)
        ensures
            r.bits() == 2,
    {
        MemoryFlags { bits: 2 }
    }

    /// The flags of either set.
    pub fn union(self, other: Self) -> (r: Self)
        ensures
            r.bits() == self.bits() | other.bits(),
    {
        MemoryFlags { bits: self.bits | other.bits }
    }

    /// Whether this set has every flag of `other`.
    pub fn contains(self, other: Self) -> (r: bool)
        ensures
            r == (self.bits() & other.bits() == other.bits()),
    {
        self.bits & other.bits == other.bits
    }
}

impl Default for MemoryFlags {
    /// The empty set.
    fn default() -> (r: Self)
        ensures
            r.bits() == 0,
    {
        MemoryFlags { bits: 0 }
    }
}

} // verus!
