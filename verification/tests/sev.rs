use ketuvim::sev::{
    completed, Blob, Code, Failure, Initialized, Launch, Measurement, Policy, Secret, Start,
    COMMAND_SIZE, KVM_MEMORY_ENCRYPT_OP,
};
use ketuvim::util::fd::{Argument, Fd, Reply};
use ketuvim::util::map::{Access, Mapping};
use ketuvim::{Kvm, MemoryFlags, VirtualMachine};

fn value(value: i32) -> Reply {
    Reply { value, errno: 0, buffer: Vec::new() }
}

fn done() -> Reply {
    Reply { value: 0, errno: 0, buffer: vec![0; COMMAND_SIZE] }
}

/// The answer to a command that the firmware refused with `code`.
fn refused(code: u32, errno: i32) -> Reply {
    let mut buffer = vec![0; COMMAND_SIZE];
    buffer[16..20].copy_from_slice(&code.to_le_bytes());
    Reply { value: -1, errno, buffer }
}

fn machine() -> VirtualMachine {
    let kvm = Kvm::open(Fd::new(3), &value(12)).unwrap();
    let mut vm = VirtualMachine::new(&kvm, Fd::new(4), &value(2), &value(0x3000)).unwrap();
    for (space, addr) in [(0u16, 0x7000usize), (0, 0x9000), (1, 0xb000)] {
        let map = Mapping::build(Access::Shared, 0).extra(0x1000).done(addr, 0).unwrap();
        vm.add_region(space, MemoryFlags::default(), addr as u64, map, &value(0)).unwrap();
    }
    vm
}

fn launch() -> Launch<Initialized> {
    Launch::new(machine(), Fd::new(6), &done()).unwrap()
}

fn command(code: u32, data: u64, fw: u32) -> Argument {
    let mut bytes = Vec::new();
    bytes.extend_from_slice(&code.to_le_bytes());
    bytes.extend_from_slice(&[0; 4]);
    bytes.extend_from_slice(&data.to_le_bytes());
    bytes.extend_from_slice(&[0; 4]);
    bytes.extend_from_slice(&fw.to_le_bytes());
    Argument::Buffer(bytes)
}

fn started_payload(handle: u32) -> Vec<u8> {
    let mut payload = vec![0u8; Start::PAYLOAD_SIZE];
    payload[..4].copy_from_slice(&handle.to_le_bytes());
    payload
}

#[test]
fn commands_have_their_numbers() {
    let codes = [
        Code::Init,
        Code::EsInit,
        Code::LaunchStart,
        Code::LaunchUpdateData,
        Code::LaunchUpdateVmsa,
        Code::LaunchSecret,
        Code::LaunchMeasure,
        Code::LaunchFinish,
        Code::SendStart,
        Code::SendUpdateData,
        Code::SendUpdateVmsa,
        Code::SendFinish,
        Code::ReceiveStart,
        Code::ReceiveUpdateData,
        Code::ReceiveUpdateVmsa,
        Code::ReceiveFinish,
        Code::GuestStatus,
        Code::DebugDecrypt,
        Code::DebugEncrypt,
        Code::CertExport,
    ];
    for (number, code) in codes.iter().enumerate() {
        assert_eq!(code.number(), number as u32);
    }
}

#[test]
fn command_succeeds_where_the_request_did() {
    assert_eq!(completed(&done()), Ok(()));
    assert_eq!(completed(&value(0)), Ok(()));
    assert_eq!(completed(&value(3)), Ok(()));
    let mut reply = refused(7, 0);
    reply.value = 0;
    assert_eq!(completed(&reply), Ok(()));
}

#[test]
fn known_firmware_errors_are_known_by_their_code() {
    assert_eq!(completed(&refused(1, 5)), Err(Failure::Known(1)));
    assert_eq!(completed(&refused(7, 5)), Err(Failure::Known(7)));
    assert_eq!(completed(&refused(0x1d, 5)), Err(Failure::Known(0x1d)));
    assert_eq!(completed(&refused(0x1f, 5)), Err(Failure::Known(0x1f)));
    assert_eq!(completed(&refused(0x26, 5)), Err(Failure::Known(0x26)));
    for code in 1..0x27u32 {
        if code != 0x1e {
            assert_eq!(completed(&refused(code, 5)), Err(Failure::Known(code)));
        }
    }
}

#[test]
fn the_code_without_an_error_of_its_own_is_known_as_zero() {
    assert_eq!(completed(&refused(0x1e, 5)), Err(Failure::Known(0)));
}

#[test]
fn other_firmware_errors_are_unknown() {
    assert_eq!(completed(&refused(0x27, 5)), Err(Failure::Unknown(0x27)));
    assert_eq!(completed(&refused(0x28, 5)), Err(Failure::Unknown(0x28)));
    assert_eq!(completed(&refused(0x1234, 5)), Err(Failure::Unknown(0x1234)));
    assert_eq!(completed(&refused(u32::MAX, 5)), Err(Failure::Unknown(u32::MAX)));
}

#[test]
fn failure_without_firmware_error_is_the_platform_error() {
    assert_eq!(completed(&refused(0, 25)), Err(Failure::Os(25)));
    let short = Reply { value: -1, errno: 14, buffer: vec![0xff; 23] };
    assert_eq!(completed(&short), Err(Failure::Os(14)));
    let none = Reply { value: -1, errno: 22, buffer: Vec::new() };
    assert_eq!(completed(&none), Err(Failure::Os(22)));
}

#[test]
fn payloads_are_written_byte_for_byte() {
    let blob = Blob { addr: 0x0102_0304_0506_0708, size: 0x0a0b_0c0d };
    assert_eq!(blob.payload(), vec![8, 7, 6, 5, 4, 3, 2, 1, 0x0d, 0x0c, 0x0b, 0x0a, 0, 0, 0, 0]);

    let start = Start {
        policy: Policy { flags: 0x0103, minfw_major: 1, minfw_minor: 51 },
        cert: Blob { addr: 0x1000, size: 0x824 },
        session: Blob { addr: 0x2000, size: 0x70 },
    };
    assert_eq!(
        start.payload(),
        vec![
            0, 0, 0, 0, // handle
            3, 1, 1, 51, // policy
            0x00, 0x10, 0, 0, 0, 0, 0, 0, 0x24, 0x08, 0, 0, 0, 0, 0, 0, // certificate
            0x00, 0x20, 0, 0, 0, 0, 0, 0, 0x70, 0x00, 0, 0, 0, 0, 0, 0, // session
        ]
    );
    assert_eq!(start.payload().len(), Start::PAYLOAD_SIZE);

    let secret = Secret {
        header: Blob { addr: 0x3000, size: 52 },
        ciphertext: Blob { addr: 0x4000, size: 7 },
    };
    assert_eq!(
        secret.payload(0x7000, 16),
        vec![
            0x00, 0x30, 0, 0, 0, 0, 0, 0, 52, 0, 0, 0, 0, 0, 0, 0, // header
            0x00, 0x70, 0, 0, 0, 0, 0, 0, 16, 0, 0, 0, 0, 0, 0, 0, // guest memory
            0x00, 0x40, 0, 0, 0, 0, 0, 0, 7, 0, 0, 0, 0, 0, 0, 0, // ciphertext
        ]
    );
    assert_eq!(secret.payload(0, 0).len(), Secret::PAYLOAD_SIZE);
}

#[test]
fn measurement_is_thirty_two_bytes_and_a_nonce() {
    let bytes: Vec<u8> = (0..48).collect();
    let m = Measurement::decode(&bytes).unwrap();
    assert_eq!(&m.measure[..], &bytes[..32]);
    assert_eq!(&m.mnonce[..], &bytes[32..]);
    assert_eq!(Measurement::decode(&bytes[..47]), None);
    assert_eq!(Measurement::decode(&[0; 49]), None);
    assert_eq!(Measurement::SIZE, 48);
}

#[test]
fn each_phase_asks_for_its_own_commands() {
    let vm = machine();
    let request = Launch::init_request(&vm, &Fd::new(6));
    assert_eq!(request.fd, 4);
    assert_eq!(request.code, KVM_MEMORY_ENCRYPT_OP);
    assert_eq!(request.argument, command(0, 0, 6));

    let launch = Launch::new(vm, Fd::new(6), &done()).unwrap();
    assert_eq!(launch.start_request(0x5000).argument, command(2, 0x5000, 6));

    let mut launch = launch.start(&done(), &started_payload(1)).unwrap();
    assert_eq!(launch.update_data_request(0x5100).argument, command(3, 0x5100, 6));
    assert_eq!(launch.measure_request(0x5200).argument, command(6, 0x5200, 6));
    assert_eq!(launch.update_data_request(0).fd, 4);
    assert_eq!(launch.update_data(&done()), Ok(()));

    let launch = launch.measure(&done(), &[0; 48]).unwrap();
    assert_eq!(launch.inject_request(0x5300).argument, command(5, 0x5300, 6));
    assert_eq!(launch.finish_request().argument, command(7, 0, 6));
    assert_eq!(launch.finish_request().code, KVM_MEMORY_ENCRYPT_OP);
}

#[test]
fn launch_does_not_begin_where_the_firmware_refuses() {
    assert_eq!(Launch::new(machine(), Fd::new(6), &refused(1, 0)).err(), Some(Failure::Known(1)));
    assert_eq!(Launch::new(machine(), Fd::new(6), &refused(0, 2)).err(), Some(Failure::Os(2)));
}

#[test]
fn start_takes_the_handle_from_the_payload() {
    let launch = launch().start(&done(), &started_payload(0xdead_beef)).unwrap();
    assert_eq!(launch.handle().value(), 0xdead_beef);
}

#[test]
fn start_fails_with_the_firmware_or_on_a_payload_of_another_size() {
    let r = launch().start(&refused(7, 0), &started_payload(1));
    assert_eq!(r.err(), Some(Failure::Known(7)));
    let r = launch().start(&done(), &[0; 39]);
    assert_eq!(r.err(), Some(Failure::InvalidData));
    let r = launch().start(&done(), &[0; 41]);
    assert_eq!(r.err(), Some(Failure::InvalidData));
    let r = launch().start(&refused(0x30, 0), &[0; 39]);
    assert_eq!(r.err(), Some(Failure::Unknown(0x30)));
}

#[test]
fn update_data_reports_the_firmware_and_stays_in_its_phase() {
    let mut launch = launch().start(&done(), &started_payload(9)).unwrap();
    assert_eq!(launch.update_data(&done()), Ok(()));
    assert_eq!(launch.update_data(&refused(9, 0)), Err(Failure::Known(9)));
    assert_eq!(launch.update_data(&done()), Ok(()));
    assert_eq!(launch.handle().value(), 9);
    assert!(launch.measure(&done(), &[0; 48]).is_ok());
}

#[test]
fn measure_keeps_handle_and_measurement() {
    let bytes: Vec<u8> = (100..148).collect();
    let launch = launch().start(&done(), &started_payload(9)).unwrap();
    let launch = launch.measure(&done(), &bytes).unwrap();
    assert_eq!(launch.handle().value(), 9);
    assert_eq!(launch.measurement(), Measurement::decode(&bytes).unwrap());
    assert_eq!(launch.measurement().measure[0], 100);
    assert_eq!(launch.measurement().mnonce[15], 147);
}

#[test]
fn measure_fails_with_the_firmware_or_on_bytes_of_another_size() {
    let started = || launch().start(&done(), &started_payload(9)).unwrap();
    assert_eq!(started().measure(&refused(0xb, 0), &[0; 48]).err(), Some(Failure::Known(0xb)));
    assert_eq!(started().measure(&done(), &[0; 47]).err(), Some(Failure::InvalidData));
    assert_eq!(started().measure(&done(), &[]).err(), Some(Failure::InvalidData));
}

#[test]
fn inject_may_be_repeated() {
    let launch = launch().start(&done(), &started_payload(9)).unwrap();
    let launch = launch.measure(&done(), &[0; 48]).unwrap();
    assert_eq!(launch.inject(&done()), Ok(()));
    assert_eq!(launch.inject(&refused(0xa, 0)), Err(Failure::Known(0xa)));
    assert_eq!(launch.inject(&done()), Ok(()));
    assert!(launch.finish(&done()).is_ok());
}

#[test]
fn finish_gives_back_the_handle_and_the_machine_it_was_given() {
    let launch = launch().start(&done(), &started_payload(77)).unwrap();
    let launch = launch.measure(&done(), &[0; 48]).unwrap();
    let (handle, vm) = launch.finish(&done()).unwrap();
    assert_eq!(handle.value(), 77);
    assert_eq!(vm.fd().as_raw_fd(), 4);
    assert_eq!(vm.address_space_count(), 2);
    assert_eq!(vm.run_page_size(), 0x3000);
    assert_eq!(vm.region_count(0), 2);
    assert_eq!(vm.region_count(1), 1);
    assert_eq!(vm.region_count(2), 0);
    assert_eq!(vm.region_at(0, 0).unwrap().addr(), 0x7000);
    assert_eq!(vm.region_at(0, 1).unwrap().addr(), 0x9000);
    assert_eq!(vm.region_at(1, 0).unwrap().addr(), 0xb000);
}

#[test]
fn finish_fails_with_the_firmware() {
    let launch = launch().start(&done(), &started_payload(77)).unwrap();
    let launch = launch.measure(&done(), &[0; 48]).unwrap();
    assert_eq!(launch.finish(&refused(2, 0)).err(), Some(Failure::Known(2)));
}
