//! Secure launch: the commands that prepare a confidential virtual machine,
//! in the one order in which the firmware takes them.
//!
//! A launch passes through the phases [`Initialized`], [`Started`] and
//! [`Measured`]. Each step takes the launch in one phase and gives it back in
//! the next, so that no command can be asked for or completed out of order.

use crate::util::bytes::{le_u32, put_u32, put_u64, put_u8, put_u16, read_u32};
use crate::util::fd::{Argument, Fd, Reply, Request};
use crate::VirtualMachine;
use vstd::bytes::{
    spec_u16_to_le_bytes, spec_u32_to_le_bytes, spec_u64_to_le_bytes, u32_to_le_bytes,
    u64_to_le_bytes,
};
use vstd::prelude::*;

verus! {

/// The request that carries every firmware command.
pub const KVM_MEMORY_ENCRYPT_OP: u64 = 3221794490;

/// The number of bytes that stand for a command.
pub const COMMAND_SIZE: usize = 24;

/// Where a command holds the firmware's error code.
pub const COMMAND_ERROR_AT: usize = 16;

/// The commands that the firmware defines.
#[derive(Debug, Clone, Copy, PartialEq, Eq, Structural)]
pub enum Code {
    Init,
    EsInit,
    LaunchStart,
    LaunchUpdateData,
    LaunchUpdateVmsa,
    LaunchSecret,
    LaunchMeasure,
    LaunchFinish,
    SendStart,
    SendUpdateData,
    SendUpdateVmsa,
    SendFinish,
    ReceiveStart,
    ReceiveUpdateData,
    ReceiveUpdateVmsa,
    ReceiveFinish,
    GuestStatus,
    DebugDecrypt,
    DebugEncrypt,
    CertExport,
}

impl Code {
    /// The number that stands for the command.
    pub open spec fn spec_number(self) -> u32 {
        match self {
            Code::Init => 0,
            Code::EsInit => 1,
            Code::LaunchStart => 2,
            Code::LaunchUpdateData => 3,
            Code::LaunchUpdateVmsa => 4,
            Code::LaunchSecret => 5,
            Code::LaunchMeasure => 6,
            Code::LaunchFinish => 7,
            Code::SendStart => 8,
            Code::SendUpdateData => 9,
            Code::SendUpdateVmsa => 10,
            Code::SendFinish => 11,
            Code::ReceiveStart => 12,
            Code::ReceiveUpdateData => 13,
            Code::ReceiveUpdateVmsa => 14,
            Code::ReceiveFinish => 15,
            Code::GuestStatus => 16,
            Code::DebugDecrypt => 17,
            Code::DebugEncrypt => 18,
            Code::CertExport => 19,
        }
    }

    /// The number that stands for the command.
    #[verifier::when_used_as_spec(spec_number)]
    pub fn number(self) -> (r: u32)
        ensures
            r == self.spec_number(),
    {
        match self {
            Code::Init => 0,
            Code::EsInit => 1,
            Code::LaunchStart => 2,
            Code::LaunchUpdateData => 3,
            Code::LaunchUpdateVmsa => 4,
            Code::LaunchSecret => 5,
            Code::LaunchMeasure => 6,
            Code::LaunchFinish => 7,
            Code::SendStart => 8,
            Code::SendUpdateData => 9,
            Code::SendUpdateVmsa => 10,
            Code::SendFinish => 11,
            Code::ReceiveStart => 12,
            Code::ReceiveUpdateData => 13,
            Code::ReceiveUpdateVmsa => 14,
            Code::ReceiveFinish => 15,
            Code::GuestStatus => 16,
            Code::DebugDecrypt => 17,
            Code::DebugEncrypt => 18,
            Code::CertExport => 19,
        }
    }
}

/// Why a firmware command failed.
#[derive(Debug, Clone, Copy, PartialEq, Eq, Structural)]
pub enum Failure {
    /// The platform refused the request before the firmware saw it; the value
    /// is the platform's error code.
    Os(i32),
    /// The firmware reported an error that is known; the value is the status
    /// code by which it is known.
    Known(u32),
    /// The firmware reported a code that stands for no known error.
    Unknown(u32),
    /// The bytes that came back with the answer do not have the size of what
    /// was asked for.
    InvalidData,
}

/// How a firmware error code other than 0 is classified: the codes from 1 to
/// 0x26 are known, each by its own number but for 0x1e, which names no error
/// of its own and is known by the number 0; every code above is unknown.
pub open spec fn classified(code: u32) -> Failure {
    if code == 0x1e {
        Failure::Known(0)
    } else if code < 0x27 {
        Failure::Known(code)
    } else {
        Failure::Unknown(code)
    }
}

/// Classifies a firmware error code with `sev::error::FirmwareError::from`.
///
/// That function sorts the codes from 1 to 0x26 under the known errors, by
/// way of `sev::error::SevError::from`, whose variants carry their own code as
/// discriminant, but for 0x1e, which has no variant of its own and gets the
/// variant with discriminant 0; it sorts the codes from 0x27 up under the unknown ones, with the code.
/// For the code 0 it asks the platform for its last error, of which nothing is
/// claimed here but that it is a platform error.
#[verifier::external_body]
fn classify(code: u32) -> (r: Failure)
    ensures
        code != 0 ==> r == classified(code),
        code == 0 ==> r is Os,
{
    match ::sev::error::FirmwareError::from(code) {
        ::sev::error::FirmwareError::KnownSevError(e) => Failure::Known(e as u32),
        ::sev::error::FirmwareError::UnknownSevError(c) => Failure::Unknown(c),
        ::sev::error::FirmwareError::IoError(e) => Failure::Os(e.raw_os_error().unwrap_or(0)),
    }
}

/// The error code that the firmware left in a command: the field at byte 16
/// of a command of 24 bytes, and 0 where the bytes are no command.
pub open spec fn error_slot(command: Seq<u8>) -> u32 {
    if command.len() == COMMAND_SIZE {
        le_u32(command, 16)
    } else {
        0
    }
}

/// What a firmware command ended with, given the answer to its request: no
/// failure where the request succeeded; else the platform's error where the
/// firmware left no error code, else the class of the code it left.
pub open spec fn outcome(reply: Reply) -> Result<(), Failure> {
    if reply.value >= 0 {
        Ok(())
    } else if error_slot(reply.buffer@) == 0 {
        Err(Failure::Os(reply.errno))
    } else {
        Err(classified(error_slot(reply.buffer@)))
    }
}

/// Tells from the answer to a firmware command whether it succeeded, and if
/// not, why.
pub fn completed(reply: &Reply) -> (r: Result<(), Failure>)
    ensures
        r == outcome(*reply),
{
    if reply.value >= 0 {
        return Ok(());
    }
    let code = if reply.buffer.len() == COMMAND_SIZE {
        read_u32(reply.buffer.as_slice(), COMMAND_ERROR_AT)
    } else {
        0
    };
    if code == 0 {
        Err(Failure::Os(reply.errno))
    } else {
        Err(classify(code))
    }
}

/// The bytes that stand for a command: its number, four bytes of zero, the
/// address of its payload, an error code of zero and the firmware's
/// descriptor.
pub open spec fn command_bytes(code: Code, data: u64, fw: i32) -> Seq<u8> {
    spec_u32_to_le_bytes(code.number()) + spec_u32_to_le_bytes(0) + spec_u64_to_le_bytes(data)
        + spec_u32_to_le_bytes(0) + spec_u32_to_le_bytes(fw as u32)
}

/// The request that carries the command `code`, whose payload lies at the
/// address `data`, to the machine behind `vm` and the firmware behind `fw`.
fn command(vm: &Fd, fw: &Fd, code: Code, data: u64) -> (r: Request)
    ensures
        r.fd == vm.0,
        r.code == KVM_MEMORY_ENCRYPT_OP,
        r.argument matches Argument::Buffer(bytes) && bytes@ == command_bytes(code, data, fw.0),
        command_bytes(code, data, fw.0).len() == COMMAND_SIZE,
{
    let mut bytes = u32_to_le_bytes(code.number());
    put_u32(&mut bytes, 0);
    put_u64(&mut bytes, data);
    put_u32(&mut bytes, 0);
    put_u32(&mut bytes, fw.as_raw_fd() as u32);
    vm.ioctl(KVM_MEMORY_ENCRYPT_OP, Argument::Buffer(bytes))
}

/// A run of bytes in this process's memory, by its address and size.
#[derive(Debug, Clone, Copy, PartialEq, Eq, Structural)]
pub struct Blob {
    pub addr: u64,
    pub size: u32,
}

impl Blob {
    /// The bytes that stand for the run as a command's payload: address and
    /// size lowest byte first, then four bytes of zero.
    pub open spec fn spec_payload(&self) -> Seq<u8> {
        spec_u64_to_le_bytes(self.addr) + spec_u32_to_le_bytes(self.size) + spec_u32_to_le_bytes(0)
    }

    /// Writes the payload of a command that takes one run of bytes.
    pub fn payload(&self) -> (r: Vec<u8>)
        ensures
            r@ == self.spec_payload(),
            r@.len() == 16,
    {
        let mut out = u64_to_le_bytes(self.addr);
        put_u32(&mut out, self.size);
        put_u32(&mut out, 0);
        out
    }
}

/// What the firmware is to enforce for a guest.
#[derive(Debug, Clone, Copy, PartialEq, Eq, Structural)]
pub struct Policy {
    /// The policy's options, one bit each.
    pub flags: u16,
    /// The least firmware version that may run the guest: its major number.
    pub minfw_major: u8,
    /// The least firmware version that may run the guest: its minor number.
    pub minfw_minor: u8,
}

/// What starts a launch: the policy, and where the owner's certificate and
/// the session with the firmware lie in memory.
#[derive(Debug, Clone, Copy, PartialEq, Eq, Structural)]
pub struct Start {
    pub policy: Policy,
    pub cert: Blob,
    pub session: Blob,
}

impl Start {
    /// The number of bytes of the payload of the command that starts a launch.
    pub const PAYLOAD_SIZE: usize = 40;

    /// The payload of the command that starts a launch: a handle of zero for
    /// the firmware to fill in, the policy, then certificate and session, each
    /// as address, size and four bytes of zero.
    pub open spec fn spec_payload(&self) -> Seq<u8> {
        spec_u32_to_le_bytes(0) + spec_u16_to_le_bytes(self.policy.flags) + seq![
            self.policy.minfw_major,
            self.policy.minfw_minor,
        ] + self.cert.spec_payload() + self.session.spec_payload()
    }

    /// Writes the payload of the command that starts a launch.
    pub fn payload(&self) -> (r: Vec<u8>)
        ensures
            r@ == self.spec_payload(),
            r@.len() == 40,
    {
        let mut out = u32_to_le_bytes(0);
        put_u16(&mut out, self.policy.flags);
        put_u8(&mut out, self.policy.minfw_major);
        put_u8(&mut out, self.policy.minfw_minor);
        let mut cert = self.cert.payload();
        out.append(&mut cert);
        let mut session = self.session.payload();
        out.append(&mut session);
        assert(out@ =~= self.spec_payload());
        out
    }
}

/// A secret for the guest, as its owner prepared it: where its header and
/// its ciphertext lie in memory.
#[derive(Debug, Clone, Copy, PartialEq, Eq, Structural)]
pub struct Secret {
    pub header: Blob,
    pub ciphertext: Blob,
}

impl Secret {
    /// The number of bytes of the payload of the command that injects a secret.
    pub const PAYLOAD_SIZE: usize = 48;

    /// The payload of the command that injects the secret into `size` bytes
    /// of guest memory at `gaddr`: header, guest memory and ciphertext, each
    /// as address, size and four bytes of zero.
    pub open spec fn spec_payload(&self, gaddr: u64, size: u32) -> Seq<u8> {
        self.header.spec_payload() + (Blob { addr: gaddr, size }).spec_payload()
            + self.ciphertext.spec_payload()
    }

    /// Writes the payload of the command that injects the secret.
    pub fn payload(&self, gaddr: u64, size: u32) -> (r: Vec<u8>)
        ensures
            r@ == self.spec_payload(gaddr, size),
            r@.len() == 48,
    {
        let mut out = self.header.payload();
        let mut guest = (Blob { addr: gaddr, size }).payload();
        out.append(&mut guest);
        let mut trans = self.ciphertext.payload();
        out.append(&mut trans);
        out
    }
}

/// The firmware's measurement of what was loaded into a guest.
#[derive(Debug, Clone, Copy, PartialEq, Eq)]
pub struct Measurement {
    /// The measurement itself.
    pub measure: [u8; 32],
    /// The nonce that went into it.
    pub mnonce: [u8; 16],
}

impl Measurement {
    /// The number of bytes that stand for a measurement.
    pub const SIZE: usize = 48;

    /// Whether this is the measurement that `bytes` stand for: 32 bytes of
    /// measurement, then 16 bytes of nonce.
    pub open spec fn decoded_from(&self, bytes: Seq<u8>) -> bool {
        &&& bytes.len() == 48
        &&& self.measure@ == bytes.subrange(0, 32)
        &&& self.mnonce@ == bytes.subrange(32, 48)
    }

    /// Reads a measurement as the firmware writes it: 48 bytes stand for one,
    /// other lengths for none.
    pub fn decode(bytes: &[u8]) -> (r: Option<Measurement>)
        ensures
            bytes@.len() != 48 <==> r is None,
            r is Some ==> r->Some_0.decoded_from(bytes@),
    {
        if bytes.len() != Self::SIZE {
            return None;
        }
        let measure: [u8; 32] = [
            bytes[0],
            bytes[1],
            bytes[2],
            bytes[3],
            bytes[4],
            bytes[5],
            bytes[6],
            bytes[7],
            bytes[8],
            bytes[9],
            bytes[10],
            bytes[11],
            bytes[12],
            bytes[13],
            bytes[14],
            bytes[15],
            bytes[16],
            bytes[17],
            bytes[18],
            bytes[19],
            bytes[20],
            bytes[21],
            bytes[22],
            bytes[23],
            bytes[24],
            bytes[25],
            bytes[26],
            bytes[27],
            bytes[28],
            bytes[29],
            bytes[30],
            bytes[31]
        ];
        let mnonce: [u8; 16] = [
            bytes[32],
            bytes[33],
            bytes[34],
            bytes[35],
            bytes[36],
            bytes[37],
            bytes[38],
            bytes[39],
            bytes[40],
            bytes[41],
            bytes[42],
            bytes[43],
            bytes[44],
            bytes[45],
            bytes[46],
            bytes[47]
        ];
        assert(measure@ =~= bytes@.subrange(0, 32));
        assert(mnonce@ =~= bytes@.subrange(32, 48));
        Some(Measurement { measure, mnonce })
    }
}

/// The firmware's name for a guest that is being launched.
#[derive(Debug, Clone, Copy, PartialEq, Eq, Structural)]
pub struct Handle(u32);

impl Handle {
    /// The handle as a number.
    pub closed spec fn spec_value(&self) -> u32 {
        self.0
    }

    /// The handle as a number.
    #[verifier::when_used_as_spec(spec_value)]
    pub fn value(&self) -> (r: u32)
        ensures
            r == self.spec_value(),
    {
        self.0
    }
}

/// The phase of a launch that the firmware was told of and nothing more.
#[derive(Debug)]
pub struct Initialized;

/// The phase of a launch that has its handle and takes data to measure.
#[derive(Debug)]
pub struct Started(Handle);

/// The phase of a launch whose measurement was taken and that takes secrets.
#[derive(Debug)]
pub struct Measured(Handle, Measurement);

/// A launch in the phase `T`: the firmware's descriptor and the machine that
/// is being launched, which the launch owns until it is finished.
pub struct Launch<T> {
    state: T,
    fw: Fd,
    vm: VirtualMachine,
}

impl<T> Launch<T> {
    /// The machine that is being launched.
    pub closed spec fn machine(&self) -> VirtualMachine {
        self.vm
    }

    /// The firmware's descriptor.
    pub closed spec fn firmware(&self) -> Fd {
        self.fw
    }

    /// What the launch knows in its phase.
    pub closed spec fn state(&self) -> T {
        self.state
    }

    /// The request that carries a command of this launch.
    fn cmd(&self, code: Code, data: u64) -> (r: Request)
        ensures
            r.fd == self.machine().spec_fd().0,
            r.code == KVM_MEMORY_ENCRYPT_OP,
            r.argument matches Argument::Buffer(bytes) && bytes@ == command_bytes(
                code,
                data,
                self.firmware().0,
            ),
    {
        command(self.vm.fd(), &self.fw, code, data)
    }
}

impl Started {
    /// The handle that the firmware gave the launch.
    pub closed spec fn handle(&self) -> Handle {
        self.0
    }
}

impl Measured {
    /// The handle that the firmware gave the launch.
    pub closed spec fn handle(&self) -> Handle {
        self.0
    }

    /// The measurement that the firmware took.
    pub closed spec fn measurement(&self) -> Measurement {
        self.1
    }
}

impl Launch<Initialized> {
    /// The request that tells the firmware behind `fw` of a launch of `vm`.
    /// The command has no payload.
    pub fn init_request(vm: &VirtualMachine, fw: &Fd) -> (r: Request)
        ensures
            r.fd == vm.spec_fd().0,
            r.code == KVM_MEMORY_ENCRYPT_OP,
            r.argument matches Argument::Buffer(bytes) && bytes@ == command_bytes(
                Code::Init,
                0,
                fw.0,
            ),
    {
        command(vm.fd(), fw, Code::Init, 0)
    }

    /// Begins the launch of `vm` with the firmware behind `fw`, given the
    /// answer to [`init_request`](Self::init_request). The launch owns the
    /// machine from here on.
    pub fn new(vm: VirtualMachine, fw: Fd, reply: &Reply) -> (r: Result<Self, Failure>)
        ensures
            match outcome(*reply) {
                Ok(_) => r is Ok && r->Ok_0.machine() == vm && r->Ok_0.firmware() == fw,
                Err(e) => r is Err && r->Err_0 == e,
            },
    {
        completed(reply)?;
        Ok(Launch { state: Initialized, fw, vm })
    }

    /// The request that starts the launch; `data` is the address at which the
    /// caller keeps the bytes of [`Start::payload`].
    pub fn start_request(&self, data: u64) -> (r: Request)
        ensures
            r.fd == self.machine().spec_fd().0,
            r.code == KVM_MEMORY_ENCRYPT_OP,
            r.argument matches Argument::Buffer(bytes) && bytes@ == command_bytes(
                Code::LaunchStart,
                data,
                self.firmware().0,
            ),
    {
        self.cmd(Code::LaunchStart, data)
    }

    /// What starting ends with: the command's failure, else invalid data where
    /// the payload does not have its size, else the handle that the firmware
    /// wrote at the start of the payload.
    pub open spec fn start_outcome(reply: Reply, payload: Seq<u8>) -> Result<u32, Failure> {
        match outcome(reply) {
            Err(e) => Err(e),
            Ok(_) => if payload.len() != 40 {
                Err(Failure::InvalidData)
            } else {
                Ok(le_u32(payload, 0))
            },
        }
    }

    /// Starts the launch, given the answer to
    /// [`start_request`](Self::start_request) and the payload as the firmware
    /// left it.
    pub fn start(self, reply: &Reply, payload: &[u8]) -> (r: Result<Launch<Started>, Failure>)
        ensures
            match Self::start_outcome(*reply, payload@) {
                Ok(handle) => {
                    &&& r is Ok
                    &&& r->Ok_0.machine() == self.machine()
                    &&& r->Ok_0.firmware() == self.firmware()
                    &&& r->Ok_0.state().handle().value() == handle
                },
                Err(e) => r is Err && r->Err_0 == e,
            },
    {
        completed(reply)?;
        if payload.len() != Start::PAYLOAD_SIZE {
            return Err(Failure::InvalidData);
        }
        let handle = Handle(read_u32(payload, 0));
        Ok(Launch { state: Started(handle), fw: self.fw, vm: self.vm })
    }
}

impl Launch<Started> {
    /// The handle that the firmware gave the launch.
    pub fn handle(&self) -> (r: Handle)
        ensures
            r == self.state().handle(),
    {
        self.state.0
    }

    /// The request that has the firmware measure and encrypt a range of guest
    /// memory; `data` is the address at which the caller keeps the bytes of
    /// the range's [`Blob::payload`].
    pub fn update_data_request(&self, data: u64) -> (r: Request)
        ensures
            r.fd == self.machine().spec_fd().0,
            r.code == KVM_MEMORY_ENCRYPT_OP,
            r.argument matches Argument::Buffer(bytes) && bytes@ == command_bytes(
                Code::LaunchUpdateData,
                data,
                self.firmware().0,
            ),
    {
        self.cmd(Code::LaunchUpdateData, data)
    }

    /// Takes note of the answer to
    /// [`update_data_request`](Self::update_data_request). The launch stays in
    /// its phase, whatever the answer.
    pub fn update_data(&mut self, reply: &Reply) -> (r: Result<(), Failure>)
        ensures
            *final(self) == *old(self),
            r == outcome(*reply),
    {
        completed(reply)
    }

    /// The request that has the firmware take its measurement; `data` is the
    /// address at which the caller keeps the bytes of the [`Blob::payload`] of
    /// the 48 bytes that are to receive it.
    pub fn measure_request(&self, data: u64) -> (r: Request)
        ensures
            r.fd == self.machine().spec_fd().0,
            r.code == KVM_MEMORY_ENCRYPT_OP,
            r.argument matches Argument::Buffer(bytes) && bytes@ == command_bytes(
                Code::LaunchMeasure,
                data,
                self.firmware().0,
            ),
    {
        self.cmd(Code::LaunchMeasure, data)
    }

    /// Takes the measurement, given the answer to
    /// [`measure_request`](Self::measure_request) and the bytes that received
    /// the measurement: the command's failure, else invalid data where the
    /// bytes are not 48, else the launch with its measurement.
    pub fn measure(self, reply: &Reply, measurement: &[u8]) -> (r: Result<
        Launch<Measured>,
        Failure,
    >)
        ensures
            match outcome(*reply) {
                Err(e) => r is Err && r->Err_0 == e,
                Ok(_) => if measurement@.len() != 48 {
                    r is Err && r->Err_0 == Failure::InvalidData
                } else {
                    &&& r is Ok
                    &&& r->Ok_0.machine() == self.machine()
                    &&& r->Ok_0.firmware() == self.firmware()
                    &&& r->Ok_0.state().handle() == self.state().handle()
                    &&& r->Ok_0.state().measurement().decoded_from(measurement@)
                },
            },
    {
        completed(reply)?;
        match Measurement::decode(measurement) {
            None => Err(Failure::InvalidData),
            Some(m) => Ok(Launch { state: Measured(self.state.0, m), fw: self.fw, vm: self.vm }),
        }
    }
}

impl Launch<Measured> {
    /// The handle that the firmware gave the launch.
    pub fn handle(&self) -> (r: Handle)
        ensures
            r == self.state().handle(),
    {
        self.state.0
    }

    /// The measurement that the firmware took.
    pub fn measurement(&self) -> (r: Measurement)
        ensures
            r == self.state().measurement(),
    {
        self.state.1
    }

    /// The request that injects a secret into the guest; `data` is the address
    /// at which the caller keeps the bytes of [`Secret::payload`].
    pub fn inject_request(&self, data: u64) -> (r: Request)
        ensures
            r.fd == self.machine().spec_fd().0,
            r.code == KVM_MEMORY_ENCRYPT_OP,
            r.argument matches Argument::Buffer(bytes) && bytes@ == command_bytes(
                Code::LaunchSecret,
                data,
                self.firmware().0,
            ),
    {
        self.cmd(Code::LaunchSecret, data)
    }

    /// Takes note of the answer to [`inject_request`](Self::inject_request).
    /// The launch stays in its phase, whatever the answer.
    pub fn inject(&self, reply: &Reply) -> (r: Result<(), Failure>)
        ensures
            r == outcome(*reply),
    {
        completed(reply)
    }

    /// The request that finishes the launch. The command has no payload.
    pub fn finish_request(&self) -> (r: Request)
        ensures
            r.fd == self.machine().spec_fd().0,
            r.code == KVM_MEMORY_ENCRYPT_OP,
            r.argument matches Argument::Buffer(bytes) && bytes@ == command_bytes(
                Code::LaunchFinish,
                0,
                self.firmware().0,
            ),
    {
        self.cmd(Code::LaunchFinish, 0)
    }

    /// Finishes the launch, given the answer to
    /// [`finish_request`](Self::finish_request), and gives back the handle and
    /// the machine: the very machine that the launch began with.
    pub fn finish(self, reply: &Reply) -> (r: Result<(Handle, VirtualMachine), Failure>)
        ensures
            match outcome(*reply) {
                Err(e) => r is Err && r->Err_0 == e,
                Ok(_) => {
                    &&& r is Ok
                    &&& r->Ok_0.0 == self.state().handle()
                    &&& r->Ok_0.1 == self.machine()
                },
            },
    {
        completed(reply)?;
        Ok((self.state.0, self.vm))
    }
}

} // verus!
