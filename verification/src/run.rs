//! The run page: the memory a virtual processor shares with the hypervisor,
//! and what it says after the processor stopped.
//!
//! The page starts with a header of [`RUN_SIZE`] bytes at fixed places; what
//! follows is data that the header points into.

use crate::util::bytes::{le_u16, le_u32, le_u64, read_u16, read_u32, read_u64, read_u8};
use crate::arch::RunFlags;
use crate::Error;
use vstd::prelude::*;

verus! {

/// The size of the run page's header.
pub const RUN_SIZE: usize = 2352;

/// Where the header holds the request for an interrupt window.
pub const REQUEST_INTERRUPT_WINDOW_AT: usize = 0;

/// Where the header holds the request to leave at once.
pub const IMMEDIATE_EXIT_AT: usize = 1;

/// Where the header holds the exit reason.
pub const EXIT_REASON_AT: usize = 8;

/// Where the header says whether an interrupt can be injected.
pub const READY_FOR_INTERRUPT_INJECTION_AT: usize = 12;

/// Where the header holds the interrupt flag.
pub const IF_FLAG_AT: usize = 13;

/// Where the header holds the run flags.
pub const FLAGS_AT: usize = 14;

/// Where the header holds the task priority register.
pub const CR8_AT: usize = 16;

/// Where the header holds the interrupt controller's base.
pub const APIC_BASE_AT: usize = 24;

/// Where the payload of the exit reason starts.
pub const REASON_AT: usize = 32;

/// The size of the payload of the exit reason.
pub const REASON_SIZE: usize = 256;

/// Where the header holds the set of registers that are valid.
pub const VALID_REGS_AT: usize = 288;

/// Where the header holds the set of registers that were changed.
pub const DIRTY_REGS_AT: usize = 296;

/// Where the registers shared with the hypervisor start.
pub const SHARED_REGS_AT: usize = 304;

/// The capacity of the buffer that carries memory-mapped data.
pub const MMIO_CAPACITY: usize = 8;

/// The exit reasons that the hypervisor defines.
#[derive(Debug, Clone, Copy, PartialEq, Eq, Structural)]
pub enum ReasonCode {
    Unknown,
    Exception,
    Io,
    Hypercall,
    Debug,
    Hlt,
    Mmio,
    IrqWindowOpen,
    Shutdown,
    FailEntry,
    Intr,
    SetTpr,
    TprAccess,
    S390Sieic,
    S390Reset,
    Dcr,
    Nmi,
    InternalError,
    Osi,
    PaprHcall,
    S390Ucontrol,
    Watchdog,
    S390Tsch,
    Epr,
    SystemEvent,
    S390Stsi,
    IoapicEoi,
    HyperV,
}

impl ReasonCode {
    /// The number that stands for this reason in the run page.
    pub open spec fn spec_code(self) -> u32 {
        match self {
            ReasonCode::Unknown => 0,
            ReasonCode::Exception => 1,
            ReasonCode::Io => 2,
            ReasonCode::Hypercall => 3,
            ReasonCode::Debug => 4,
            ReasonCode::Hlt => 5,
            ReasonCode::Mmio => 6,
            ReasonCode::IrqWindowOpen => 7,
            ReasonCode::Shutdown => 8,
            ReasonCode::FailEntry => 9,
            ReasonCode::Intr => 10,
            ReasonCode::SetTpr => 11,
            ReasonCode::TprAccess => 12,
            ReasonCode::S390Sieic => 13,
            ReasonCode::S390Reset => 14,
            ReasonCode::Dcr => 15,
            ReasonCode::Nmi => 16,
            ReasonCode::InternalError => 17,
            ReasonCode::Osi => 18,
            ReasonCode::PaprHcall => 19,
            ReasonCode::S390Ucontrol => 20,
            ReasonCode::Watchdog => 21,
            ReasonCode::S390Tsch => 22,
            ReasonCode::Epr => 23,
            ReasonCode::SystemEvent => 24,
            ReasonCode::S390Stsi => 25,
            ReasonCode::IoapicEoi => 26,
            ReasonCode::HyperV => 27,
        }
    }

    /// The number that stands for this reason in the run page.
    #[verifier::when_used_as_spec(spec_code)]
    pub fn code(self) -> (r: u32)
        ensures
            r == self.spec_code(),
    {
        match self {
            ReasonCode::Unknown => 0,
            ReasonCode::Exception => 1,
            ReasonCode::Io => 2,
            ReasonCode::Hypercall => 3,
            ReasonCode::Debug => 4,
            ReasonCode::Hlt => 5,
            ReasonCode::Mmio => 6,
            ReasonCode::IrqWindowOpen => 7,
            ReasonCode::Shutdown => 8,
            ReasonCode::FailEntry => 9,
            ReasonCode::Intr => 10,
            ReasonCode::SetTpr => 11,
            ReasonCode::TprAccess => 12,
            ReasonCode::S390Sieic => 13,
            ReasonCode::S390Reset => 14,
            ReasonCode::Dcr => 15,
            ReasonCode::Nmi => 16,
            ReasonCode::InternalError => 17,
            ReasonCode::Osi => 18,
            ReasonCode::PaprHcall => 19,
            ReasonCode::S390Ucontrol => 20,
            ReasonCode::Watchdog => 21,
            ReasonCode::S390Tsch => 22,
            ReasonCode::Epr => 23,
            ReasonCode::SystemEvent => 24,
            ReasonCode::S390Stsi => 25,
            ReasonCode::IoapicEoi => 26,
            ReasonCode::HyperV => 27,
        }
    }

    /// The reason that a number stands for: the one with that code, if there
    /// is one.
    pub fn from_code(code: u32) -> (r: Option<ReasonCode>)
        ensures
            code > 27 <==> r is None,
            r is Some ==> r->Some_0.code() == code,
    {
        match code {
            0 => Some(ReasonCode::Unknown),
            1 => Some(ReasonCode::Exception),
            2 => Some(ReasonCode::Io),
            3 => Some(ReasonCode::Hypercall),
            4 => Some(ReasonCode::Debug),
            5 => Some(ReasonCode::Hlt),
            6 => Some(ReasonCode::Mmio),
            7 => Some(ReasonCode::IrqWindowOpen),
            8 => Some(ReasonCode::Shutdown),
            9 => Some(ReasonCode::FailEntry),
            10 => Some(ReasonCode::Intr),
            11 => Some(ReasonCode::SetTpr),
            12 => Some(ReasonCode::TprAccess),
            13 => Some(ReasonCode::S390Sieic),
            14 => Some(ReasonCode::S390Reset),
            15 => Some(ReasonCode::Dcr),
            16 => Some(ReasonCode::Nmi),
            17 => Some(ReasonCode::InternalError),
            18 => Some(ReasonCode::Osi),
            19 => Some(ReasonCode::PaprHcall),
            20 => Some(ReasonCode::S390Ucontrol),
            21 => Some(ReasonCode::Watchdog),
            22 => Some(ReasonCode::S390Tsch),
            23 => Some(ReasonCode::Epr),
            24 => Some(ReasonCode::SystemEvent),
            25 => Some(ReasonCode::S390Stsi),
            26 => Some(ReasonCode::IoapicEoi),
            27 => Some(ReasonCode::HyperV),
            _ => None,
        }
    }
}

/// Which way a port access moves data.
#[derive(Debug, Clone, Copy, PartialEq, Eq, Structural)]
pub enum IoDirection {
    /// The guest reads from the port.
    In,
    /// The guest writes to the port.
    Out,
}

impl IoDirection {
    /// The number that stands for this direction in the run page.
    pub open spec fn spec_code(self) -> u8 {
        match self {
            IoDirection::In => 0,
            IoDirection::Out => 1,
        }
    }

    /// The number that stands for this direction in the run page.
    #[verifier::when_used_as_spec(spec_code)]
    pub fn code(self) -> (r: u8)
        ensures
            r == self.spec_code(),
    {
        match self {
            IoDirection::In => 0,
            IoDirection::Out => 1,
        }
    }

    /// The direction that a number stands for, if it stands for one.
    pub fn from_code(code: u8) -> (r: Option<IoDirection>)
        ensures
            code > 1 <==> r is None,
            r is Some ==> r->Some_0.code() == code,
    {
        match code {
            0 => Some(IoDirection::In),
            1 => Some(IoDirection::Out),
            _ => None,
        }
    }
}

/// The payload of a port access.
#[derive(Debug, Clone, Copy, PartialEq, Eq, Structural)]
pub struct ReasonIo {
    pub direction: IoDirection,
    /// The size of one operand, in bytes.
    pub size: u8,
    pub port: u16,
    /// How many operands the access moves.
    pub count: u32,
    /// Where in the run page the operands are, counted from its start.
    pub data_offset: u64,
}

impl ReasonIo {
    /// Where the payload holds the direction.
    pub const DIRECTION_AT: usize = 32;

    /// Where the payload holds the operand size.
    pub const SIZE_AT: usize = 33;

    /// Where the payload holds the port.
    pub const PORT_AT: usize = 34;

    /// Where the payload holds the operand count.
    pub const COUNT_AT: usize = 36;

    /// Where the payload holds the place of the data.
    pub const DATA_OFFSET_AT: usize = 40;

    /// The payload of a port access in a run page: the page must hold a whole
    /// header, and the direction must be one of the two that exist.
    pub open spec fn spec_decode(page: Seq<u8>) -> Result<ReasonIo, Error> {
        if page.len() < RUN_SIZE {
            Err(Error::InvalidData)
        } else if page[32] > 1 {
            Err(Error::UnsupportedDirection(page[32]))
        } else {
            Ok(
                ReasonIo {
                    direction: if page[32] == 0 {
                        IoDirection::In
                    } else {
                        IoDirection::Out
                    },
                    size: page[33],
                    port: le_u16(page, 34),
                    count: le_u32(page, 36),
                    data_offset: le_u64(page, 40),
                },
            )
        }
    }

    /// Reads the payload of a port access from a run page.
    pub fn decode(page: &[u8]) -> (r: Result<ReasonIo, Error>)
        ensures
            r == Self::spec_decode(page@),
    {
        if page.len() < RUN_SIZE {
            return Err(Error::InvalidData);
        }
        let code = read_u8(page, Self::DIRECTION_AT);
        match IoDirection::from_code(code) {
            None => Err(Error::UnsupportedDirection(code)),
            Some(direction) => Ok(
                ReasonIo {
                    direction,
                    size: read_u8(page, Self::SIZE_AT),
                    port: read_u16(page, Self::PORT_AT),
                    count: read_u32(page, Self::COUNT_AT),
                    data_offset: read_u64(page, Self::DATA_OFFSET_AT),
                },
            ),
        }
    }

    /// The number of bytes the access moves.
    pub open spec fn spec_len(&self) -> u64 {
        (self.size * self.count) as u64
    }

    /// The number of bytes the access moves.
    #[verifier::when_used_as_spec(spec_len)]
    pub fn len(&self) -> (r: u64)
        ensures
            r == self.spec_len(),
            r == self.size * self.count,
    {
        assert(self.size * self.count <= 255 * 0xffff_ffff) by (nonlinear_arith)
            requires
                self.size <= 255,
                self.count <= 0xffff_ffff,
        ;
        (self.size as u64) * (self.count as u64)
    }
}

/// The payload of a memory-mapped access.
#[derive(Debug, Clone, Copy, PartialEq, Eq)]
pub struct ReasonMmio {
    pub phys_addr: u64,
    pub data: [u8; 8],
    /// How many bytes of `data` count.
    pub len: u32,
    /// 0 where the guest reads.
    pub is_write: u8,
}

impl ReasonMmio {
    /// Where the payload holds the physical address.
    pub const PHYS_ADDR_AT: usize = 32;

    /// Where the payload holds the data.
    pub const DATA_AT: usize = 40;

    /// Where the payload holds the number of bytes that count.
    pub const LEN_AT: usize = 48;

    /// Where the payload holds the direction.
    pub const IS_WRITE_AT: usize = 52;

    /// Whether this is the payload that `page` holds.
    pub open spec fn decoded_from(&self, page: Seq<u8>) -> bool {
        &&& self.phys_addr == le_u64(page, 32)
        &&& self.data@ == page.subrange(40, 48)
        &&& self.len == le_u32(page, 48)
        &&& self.is_write == page[52]
    }

    /// Reads the payload of a memory-mapped access from a run page, which
    /// must hold a whole header.
    pub fn decode(page: &[u8]) -> (r: Result<ReasonMmio, Error>)
        ensures
            page@.len() < RUN_SIZE ==> r == Err::<ReasonMmio, Error>(Error::InvalidData),
            page@.len() >= RUN_SIZE ==> r is Ok && r->Ok_0.decoded_from(page@),
    {
        if page.len() < RUN_SIZE {
            return Err(Error::InvalidData);
        }
        let data: [u8; 8] = [
            page[40],
            page[41],
            page[42],
            page[43],
            page[44],
            page[45],
            page[46],
            page[47],
        ];
        assert(data@ =~= page@.subrange(40, 48));
        Ok(
            ReasonMmio {
                phys_addr: read_u64(page, Self::PHYS_ADDR_AT),
                data,
                len: read_u32(page, Self::LEN_AT),
                is_write: read_u8(page, Self::IS_WRITE_AT),
            },
        )
    }
}

/// The fixed fields at the start of the run page.
#[derive(Debug, Clone, Copy, PartialEq, Eq, Structural)]
pub struct Run {
    /// Asked of the hypervisor: stop when an interrupt can be injected.
    pub request_interrupt_window: bool,
    /// Asked of the hypervisor: stop at once.
    pub immediate_exit: bool,
    /// Why the processor stopped.
    pub exit_reason: ReasonCode,
    pub ready_for_interrupt_injection: bool,
    pub if_flag: u8,
    pub flags: RunFlags,
    pub cr8: u64,
    pub apic_base: u64,
    /// The shared registers that are valid.
    pub valid_regs: u64,
    /// The shared registers that were changed.
    pub dirty_regs: u64,
}

impl Run {
    /// Whether these are the fixed fields of `page`.
    pub open spec fn decoded_from(&self, page: Seq<u8>) -> bool {
        &&& self.request_interrupt_window == (page[0] != 0)
        &&& self.immediate_exit == (page[1] != 0)
        &&& self.exit_reason.code() == le_u32(page, 8)
        &&& self.ready_for_interrupt_injection == (page[12] != 0)
        &&& self.if_flag == page[13]
        &&& self.flags.bits() == le_u16(page, 14)
        &&& self.cr8 == le_u64(page, 16)
        &&& self.apic_base == le_u64(page, 24)
        &&& self.valid_regs == le_u64(page, 288)
        &&& self.dirty_regs == le_u64(page, 296)
    }

    /// Reads the fixed fields of a run page: invalid data where the page is
    /// shorter than the header, an unsupported exit where the exit reason is
    /// none that the hypervisor defines.
    pub fn decode(page: &[u8]) -> (r: Result<Run, Error>)
        ensures
            page@.len() < RUN_SIZE ==> r == Err::<Run, Error>(Error::InvalidData),
            page@.len() >= RUN_SIZE && le_u32(page@, 8) > 27 ==> r == Err::<Run, Error>(
                Error::UnsupportedExit(le_u32(page@, 8)),
            ),
            page@.len() >= RUN_SIZE && le_u32(page@, 8) <= 27 ==> r is Ok && r->Ok_0.decoded_from(
                page@,
            ),
    {
        if page.len() < RUN_SIZE {
            return Err(Error::InvalidData);
        }
        let code = read_u32(page, EXIT_REASON_AT);
        match ReasonCode::from_code(code) {
            None => Err(Error::UnsupportedExit(code)),
            Some(exit_reason) => Ok(
                Run {
                    request_interrupt_window: read_u8(page, REQUEST_INTERRUPT_WINDOW_AT) != 0,
                    immediate_exit: read_u8(page, IMMEDIATE_EXIT_AT) != 0,
                    exit_reason,
                    ready_for_interrupt_injection: read_u8(page, READY_FOR_INTERRUPT_INJECTION_AT)
                        != 0,
                    if_flag: read_u8(page, IF_FLAG_AT),
                    flags: RunFlags::from_bits_retain(read_u16(page, FLAGS_AT)),
                    cr8: read_u64(page, CR8_AT),
                    apic_base: read_u64(page, APIC_BASE_AT),
                    valid_regs: read_u64(page, VALID_REGS_AT),
                    dirty_regs: read_u64(page, DIRTY_REGS_AT),
                },
            ),
        }
    }
}

/// The payload of an exit for a reason that only the hardware knows.
#[derive(Debug, Clone, Copy, PartialEq, Eq, Structural)]
pub struct ReasonUnknown {
    pub hardware_exit_reason: u64,
}

/// The payload of a failed entry into the guest.
#[derive(Debug, Clone, Copy, PartialEq, Eq, Structural)]
pub struct ReasonFailEntry {
    pub hardware_entry_failure_reason: u64,
}

/// The payload of an exception.
#[derive(Debug, Clone, Copy, PartialEq, Eq, Structural)]
pub struct ReasonException {
    pub exception: u32,
    pub error_code: u32,
}

/// The payload of a hypercall.
#[derive(Debug, Clone, Copy, PartialEq, Eq)]
pub struct ReasonHypercall {
    pub nr: u64,
    pub args: [u64; 6],
    pub ret: u64,
    pub longmode: u32,
    pub pad: u32,
}

/// The payload of an access to the task priority register.
#[derive(Debug, Clone, Copy, PartialEq, Eq, Structural)]
pub struct ReasonTprAccess {
    pub rip: u64,
    pub is_write: u32,
    pub pad: u32,
}

/// The payload of an intercepted instruction on s390.
#[derive(Debug, Clone, Copy, PartialEq, Eq, Structural)]
pub struct ReasonS390Sieic {
    pub icptcode: u8,
    pub ipa: u16,
    pub ipb: u32,
}

/// What a reset on s390 asks for: a set of the bits power-on reset (1),
/// clear (2), subsystem (4), processor initialisation (8) and initial program
/// load (16).
#[derive(Debug, Clone, Copy, PartialEq, Eq, Structural)]
pub struct ReasonS390ResetFlags {
    pub bits: u64,
}

/// The payload of a user-controlled exit on s390.
#[derive(Debug, Clone, Copy, PartialEq, Eq, Structural)]
pub struct ReasonS390Ucontrol {
    pub trans_exc_code: u64,
    pub pgm_code: u32,
}

/// The payload of an access to a device control register.
#[derive(Debug, Clone, Copy, PartialEq, Eq, Structural)]
pub struct ReasonDcr {
    pub dcrn: u32,
    pub data: u32,
    pub is_write: u8,
}

/// The payload of an error inside the hypervisor.
#[derive(Debug, Clone, Copy, PartialEq, Eq)]
pub struct ReasonInternalError {
    pub suberror: ReasonInternalErrorSubError,
    pub ndata: u32,
    pub data: [u64; 16],
}

/// The kinds of error inside the hypervisor.
#[derive(Debug, Clone, Copy, PartialEq, Eq, Structural)]
pub enum ReasonInternalErrorSubError {
    Emulation,
    SimulEx,
    DeliveryEv,
}

impl ReasonInternalErrorSubError {
    /// The number that stands for this value in the run page.
    pub open spec fn spec_code(self) -> u32 {
        match self {
            ReasonInternalErrorSubError::Emulation => 1,
            ReasonInternalErrorSubError::SimulEx => 2,
            ReasonInternalErrorSubError::DeliveryEv => 3,
        }
    }

    /// The number that stands for this value in the run page.
    #[verifier::when_used_as_spec(spec_code)]
    pub fn code(self) -> (r: u32)
        ensures
            r == self.spec_code(),
    {
        match self {
            ReasonInternalErrorSubError::Emulation => 1,
            ReasonInternalErrorSubError::SimulEx => 2,
            ReasonInternalErrorSubError::DeliveryEv => 3,
        }
    }

    /// The value that a number stands for, if it stands for one.
    pub fn from_code(code: u32) -> (r: Option<ReasonInternalErrorSubError>)
        ensures
            r is Some <==> 1 <= code <= 3,
            r is Some ==> r->Some_0.code() == code,
    {
        match code {
            1 => Some(ReasonInternalErrorSubError::Emulation),
            2 => Some(ReasonInternalErrorSubError::SimulEx),
            3 => Some(ReasonInternalErrorSubError::DeliveryEv),
            _ => None,
        }
    }
}

/// The payload of an open-firmware call.
#[derive(Debug, Clone, Copy, PartialEq, Eq)]
pub struct ReasonOsi {
    pub gprs: [u64; 32],
}

/// The payload of a hypercall on a PAPR guest.
#[derive(Debug, Clone, Copy, PartialEq, Eq)]
pub struct ReasonPaprHcall {
    pub nr: u64,
    pub ret: u64,
    pub args: [u64; 9],
}

/// The payload of a test of a subchannel on s390.
#[derive(Debug, Clone, Copy, PartialEq, Eq, Structural)]
pub struct ReasonS390Tsch {
    pub subchannel_id: u16,
    pub subchannel_nr: u16,
    pub io_int_parm: u32,
    pub io_int_word: u32,
    pub ipb: u32,
    pub dequeued: u8,
}

/// The payload of an external proxy exit.
#[derive(Debug, Clone, Copy, PartialEq, Eq, Structural)]
pub struct ReasonEpr {
    pub epr: u32,
}

/// The payload of a system event.
#[derive(Debug, Clone, Copy, PartialEq, Eq, Structural)]
pub struct ReasonSystemEvent {
    pub kind: ReasonSystemEventKind,
    pub flags: u64,
}

/// The kinds of system event.
#[derive(Debug, Clone, Copy, PartialEq, Eq, Structural)]
pub enum ReasonSystemEventKind {
    Shutdown,
    Reset,
    Crash,
}

impl ReasonSystemEventKind {
    /// The number that stands for this value in the run page.
    pub open spec fn spec_code(self) -> u32 {
        match self {
            ReasonSystemEventKind::Shutdown => 1,
            ReasonSystemEventKind::Reset => 2,
            ReasonSystemEventKind::Crash => 3,
        }
    }

    /// The number that stands for this value in the run page.
    #[verifier::when_used_as_spec(spec_code)]
    pub fn code(self) -> (r: u32)
        ensures
            r == self.spec_code(),
    {
        match self {
            ReasonSystemEventKind::Shutdown => 1,
            ReasonSystemEventKind::Reset => 2,
            ReasonSystemEventKind::Crash => 3,
        }
    }

    /// The value that a number stands for, if it stands for one.
    pub fn from_code(code: u32) -> (r: Option<ReasonSystemEventKind>)
        ensures
            r is Some <==> 1 <= code <= 3,
            r is Some ==> r->Some_0.code() == code,
    {
        match code {
            1 => Some(ReasonSystemEventKind::Shutdown),
            2 => Some(ReasonSystemEventKind::Reset),
            3 => Some(ReasonSystemEventKind::Crash),
            _ => None,
        }
    }
}

/// The payload of a store of system information on s390.
#[derive(Debug, Clone, Copy, PartialEq, Eq, Structural)]
pub struct ReasonS390Stsi {
    pub addr: u64,
    pub ar: u8,
    pub reserved: u8,
    pub fc: u8,
    pub sel1: u8,
    pub sel2: u16,
}

/// The payload of an end of interrupt at the interrupt controller.
#[derive(Debug, Clone, Copy, PartialEq, Eq, Structural)]
pub struct ReasonIoApicEoi {
    pub vector: u8,
}

/// The payload of an exit for Hyper-V: what kind it is, and the fields of
/// that kind.
#[derive(Debug, Clone, Copy, PartialEq, Eq)]
pub enum HyperVExit {
    Synic(HyperVExitSynic),
    Hcall(HyperVExitHcall),
}

impl HyperVExit {
    /// The kind of the exit.
    pub fn kind(&self) -> (r: HyperVExitKind)
        ensures
            self is Synic <==> r == HyperVExitKind::Synic,
            self is Hcall <==> r == HyperVExitKind::Hcall,
    {
        match self {
            HyperVExit::Synic(_) => HyperVExitKind::Synic,
            HyperVExit::Hcall(_) => HyperVExitKind::Hcall,
        }
    }
}

/// The kinds of exit for Hyper-V.
#[derive(Debug, Clone, Copy, PartialEq, Eq, Structural)]
pub enum HyperVExitKind {
    Synic,
    Hcall,
}

impl HyperVExitKind {
    /// The number that stands for this value in the run page.
    pub open spec fn spec_code(self) -> u32 {
        match self {
            HyperVExitKind::Synic => 1,
            HyperVExitKind::Hcall => 2,
        }
    }

    /// The number that stands for this value in the run page.
    #[verifier::when_used_as_spec(spec_code)]
    pub fn code(self) -> (r: u32)
        ensures
            r == self.spec_code(),
    {
        match self {
            HyperVExitKind::Synic => 1,
            HyperVExitKind::Hcall => 2,
        }
    }

    /// The value that a number stands for, if it stands for one.
    pub fn from_code(code: u32) -> (r: Option<HyperVExitKind>)
        ensures
            r is Some <==> 1 <= code <= 2,
            r is Some ==> r->Some_0.code() == code,
    {
        match code {
            1 => Some(HyperVExitKind::Synic),
            2 => Some(HyperVExitKind::Hcall),
            _ => None,
        }
    }
}

/// The fields of a Hyper-V exit for the synthetic interrupt controller.
#[derive(Debug, Clone, Copy, PartialEq, Eq, Structural)]
pub struct HyperVExitSynic {
    pub msr: u32,
    pub control: u64,
    pub evt_page: u64,
    pub msg_page: u64,
}

/// The fields of a Hyper-V exit for a hypercall.
#[derive(Debug, Clone, Copy, PartialEq, Eq)]
pub struct HyperVExitHcall {
    pub input: u64,
    pub result: u64,
    pub params: [u64; 2],
}

} // verus!
