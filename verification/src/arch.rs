//! Processor state, by architecture.

pub mod x86_64;

pub use x86_64::{
    CpuEvents, CpuException, CpuInterrupt, CpuNmi, CpuSmi, DebugExit, DescriptorTable, Registers,
    RunFlags, Segment, SpecialRegisters, SyncRegisters,
};
