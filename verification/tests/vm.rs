use ketuvim::util::fd::{Argument, Fd, Reply};
use ketuvim::util::map::{Access, Mapping};
use ketuvim::vm::{Region, KVM_SET_USER_MEMORY_REGION, SLOTS};
use ketuvim::{Error, Kvm, MemoryFlags, VirtualMachine};

fn value(value: i32) -> Reply {
    Reply { value, errno: 0, buffer: Vec::new() }
}

fn failure(errno: i32) -> Reply {
    Reply { value: -1, errno, buffer: Vec::new() }
}

fn machine(spaces: i32) -> VirtualMachine {
    let kvm = Kvm::open(Fd::new(3), &value(12)).unwrap();
    VirtualMachine::new(&kvm, Fd::new(4), &value(spaces), &value(0x3000)).unwrap()
}

fn mapping(addr: usize, header: usize, extra: usize) -> Mapping {
    Mapping::build(Access::Shared, header).extra(extra).done(addr, 0).unwrap()
}

#[test]
fn new_machine_has_what_the_hypervisor_reported() {
    let vm = machine(2);
    assert_eq!(vm.fd().as_raw_fd(), 4);
    assert_eq!(vm.address_space_count(), 2);
    assert_eq!(vm.run_page_size(), 0x3000);
    assert_eq!(vm.region_count(0), 0);
    assert_eq!(vm.region_count(1), 0);
    assert_eq!(vm.region_count(0xffff), 0);
}

#[test]
fn new_machine_fails_with_the_first_request_that_failed() {
    let kvm = Kvm::open(Fd::new(3), &value(12)).unwrap();
    let r = VirtualMachine::new(&kvm, Fd::new(4), &failure(1), &failure(2));
    assert_eq!(r.err(), Some(Error::Os(1)));
    let r = VirtualMachine::new(&kvm, Fd::new(4), &value(1), &failure(2));
    assert_eq!(r.err(), Some(Error::Os(2)));
}

#[test]
fn address_space_out_of_range_is_refused_and_changes_nothing() {
    let mut vm = machine(2);
    vm.add_region(1, MemoryFlags::default(), 0, mapping(0x7000, 0, 0x1000), &value(0)).unwrap();
    let before: Vec<usize> = (0..4).map(|space| vm.region_count(space)).collect();
    for space in [2u16, 3, 0xffff] {
        let map = mapping(0x9000, 0, 0x1000);
        assert_eq!(
            vm.region_request(space, MemoryFlags::default(), 0x1000, &map).err(),
            Some(Error::InvalidInput)
        );
        let r = vm.add_region(space, MemoryFlags::default(), 0x1000, map, &value(0));
        assert_eq!(r, Err(Error::InvalidInput));
    }
    let after: Vec<usize> = (0..4).map(|space| vm.region_count(space)).collect();
    assert_eq!(before, after);
    assert_eq!(after, vec![0, 1, 0, 0]);
}

#[test]
fn machine_without_address_spaces_takes_no_region() {
    let mut vm = machine(0);
    let r = vm.add_region(0, MemoryFlags::default(), 0, mapping(0x7000, 0, 0x1000), &value(0));
    assert_eq!(r, Err(Error::InvalidInput));
    assert_eq!(vm.region_count(0), 0);
}

#[test]
fn slot_ids_count_up_from_zero_in_each_address_space() {
    let mut vm = machine(3);
    for space in [0u16, 2] {
        for index in 0..5u32 {
            let map = mapping(0x10000 * (index as usize + 1), 0, 0x1000);
            let slot = vm
                .add_region(space, MemoryFlags::default(), 0x1000 * index as u64, map, &value(0))
                .unwrap();
            assert_eq!(slot & 0xffff, index);
            assert_eq!(slot >> 16, space as u32);
            assert_eq!(vm.region_count(space), index as usize + 1);
        }
    }
    assert_eq!(vm.region_count(1), 0);
}

#[test]
fn slot_id_packs_address_space_above_bit_sixteen() {
    let mut vm = machine(8);
    let slot = vm
        .add_region(7, MemoryFlags::default(), 0, mapping(0x7000, 0, 0x1000), &value(0))
        .unwrap();
    assert_eq!(slot, 0x0007_0000);
    let slot = vm
        .add_region(7, MemoryFlags::default(), 0, mapping(0x9000, 0, 0x1000), &value(0))
        .unwrap();
    assert_eq!(slot, 0x0007_0001);
}

#[test]
fn refused_request_leaves_the_table_and_the_next_slot_unchanged() {
    let mut vm = machine(1);
    let r = vm.add_region(0, MemoryFlags::default(), 0, mapping(0x7000, 0, 0x1000), &failure(17));
    assert_eq!(r, Err(Error::Os(17)));
    assert_eq!(vm.region_count(0), 0);
    let r = vm.add_region(0, MemoryFlags::default(), 0, mapping(0x7000, 0, 0x1000), &value(0));
    assert_eq!(r, Ok(0));
    assert_eq!(vm.region_count(0), 1);
}

#[test]
fn region_record_holds_slot_flags_addresses_and_size() {
    let mut vm = machine(2);
    vm.add_region(1, MemoryFlags::default(), 0, mapping(0x7000, 0, 0x1000), &value(0)).unwrap();
    let flags = MemoryFlags::log_dirty_pages().union(MemoryFlags::read_only());
    let map = mapping(0x7f00_0000_1000, 0x20, 0x2000);
    let region = vm.region(1, flags, 0xfee0_0000, &map).unwrap();
    assert_eq!(
        region,
        Region {
            slot: 0x0001_0001,
            flags: 3,
            guest_phys_addr: 0xfee0_0000,
            memory_size: 0x2020,
            userspace_addr: 0x7f00_0000_1000,
        }
    );
}

#[test]
fn region_request_carries_the_record_byte_for_byte() {
    let vm = machine(1);
    let map = mapping(0x1122_3344_5566, 0, 0x1000);
    let request = vm.region_request(0, MemoryFlags::read_only(), 0x1000, &map).unwrap();
    assert_eq!(request.fd, 4);
    assert_eq!(request.code, KVM_SET_USER_MEMORY_REGION);
    assert_eq!(
        request.argument,
        Argument::Buffer(vec![
            0, 0, 0, 0, // slot
            2, 0, 0, 0, // flags
            0x00, 0x10, 0, 0, 0, 0, 0, 0, // guest address
            0x00, 0x10, 0, 0, 0, 0, 0, 0, // size
            0x66, 0x55, 0x44, 0x33, 0x22, 0x11, 0, 0, // address in this process
        ])
    );
    assert_eq!(Region::SIZE, 32);
}

#[test]
fn region_size_is_the_length_of_the_whole_mapping() {
    let vm = machine(1);
    let map = mapping(0x7000, 0, 0x1000);
    let region = vm.region(0, MemoryFlags::default(), 0, &map).unwrap();
    assert_eq!(region.memory_size, 0x1000);
    assert_eq!(region.userspace_addr, 0x7000);
    let map = mapping(0x7000, 0x10, 0x1000);
    let region = vm.region(0, MemoryFlags::default(), 0, &map).unwrap();
    assert_eq!(region.memory_size, 0x1010);
    assert_eq!(region.userspace_addr, 0x7000);
    let map = mapping(0x7000, 0x1000, 0);
    let region = vm.region(0, MemoryFlags::default(), 0, &map).unwrap();
    assert_eq!(region.memory_size, 0x1000);
}

#[test]
fn registered_mapping_is_kept_without_its_header() {
    let mut vm = machine(1);
    let map = mapping(0x7000, 0x10, 0x1000);
    assert_eq!(map.len(), 0x1000);
    assert_eq!(map.length(), 0x1010);
    vm.add_region(0, MemoryFlags::default(), 0, map, &value(0)).unwrap();
    let kept = vm.region_at(0, 0).unwrap();
    assert_eq!(kept.addr(), 0x7000);
    assert_eq!(kept.length(), 0x1010);
    assert_eq!(kept.header(), 0);
    assert!(vm.region_at(0, 1).is_none());
    assert!(vm.region_at(1, 0).is_none());
}

#[test]
fn full_address_space_takes_no_further_region() {
    let mut vm = machine(1);
    for index in 0..SLOTS {
        let slot = vm
            .add_region(0, MemoryFlags::default(), 0, mapping(0x7000, 0, 0x1000), &value(0))
            .unwrap();
        assert_eq!(slot as usize, index);
    }
    let r = vm.add_region(0, MemoryFlags::default(), 0, mapping(0x7000, 0, 0x1000), &value(0));
    assert_eq!(r, Err(Error::InvalidInput));
    assert_eq!(vm.region_count(0), SLOTS);
}

#[test]
fn memory_flags_are_the_two_bits() {
    assert_eq!(MemoryFlags::default().bits(), 0);
    assert_eq!(MemoryFlags::empty().bits(), 0);
    assert_eq!(MemoryFlags::log_dirty_pages().bits(), 1);
    assert_eq!(MemoryFlags::read_only().bits(), 2);
    let both = MemoryFlags::log_dirty_pages().union(MemoryFlags::read_only());
    assert_eq!(both.bits(), 3);
    assert!(both.contains(MemoryFlags::read_only()));
    assert!(!MemoryFlags::read_only().contains(both));
}
