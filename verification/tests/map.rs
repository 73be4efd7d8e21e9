use ketuvim::util::fd::{Argument, Fd, Reply, Request};
use ketuvim::util::map::{Access, Builder, Call, Flags, Mapping, Protection};
use ketuvim::Error;

#[test]
fn build_starts_with_nothing_set() {
    let builder = Mapping::build(Access::Private, 16);
    assert_eq!(
        builder.call(),
        Some(Call { addr: 0, length: 16, prot: 0, flags: 2, fd: -1, offset: 0 })
    );
}

#[test]
fn call_combines_access_and_flags() {
    let builder = Mapping::build(Access::Shared, 0)
        .protection(Protection::read().union(Protection::write()))
        .flags(Flags::anonymous())
        .extra(0x1000);
    assert_eq!(
        builder.call(),
        Some(Call { addr: 0, length: 0x1000, prot: 3, flags: 0x21, fd: -1, offset: 0 })
    );
}

#[test]
fn call_names_file_offset_and_address() {
    let builder = Mapping::build(Access::Private, 2352)
        .protection(Protection::read().union(Protection::execute()))
        .extra(1744)
        .address(0x7000_0000)
        .file(&Fd::new(9), 4096);
    assert_eq!(
        builder.call(),
        Some(Call { addr: 0x7000_0000, length: 4096, prot: 5, flags: 2, fd: 9, offset: 4096 })
    );
}

#[test]
fn platform_bits_are_those_of_the_platform() {
    assert_eq!(Protection::empty().bits(), 0);
    assert_eq!(Protection::read().bits(), 1);
    assert_eq!(Protection::write().bits(), 2);
    assert_eq!(Protection::execute().bits(), 4);
    assert_eq!(Flags::empty().bits(), 0);
    assert_eq!(Flags::anonymous().bits(), 0x20);
    assert_eq!(Access::Shared.bits(), 1);
    assert_eq!(Access::Private.bits(), 2);
    assert!(Protection::read().union(Protection::write()).contains(Protection::write()));
    assert!(!Protection::read().contains(Protection::write()));
    assert!(Flags::anonymous().contains(Flags::empty()));
    assert!(!Flags::empty().contains(Flags::anonymous()));
    assert_eq!(Flags::empty().union(Flags::anonymous()), Flags::anonymous());
}

#[test]
fn length_that_cannot_be_expressed_is_refused() {
    let builder = Mapping::build(Access::Shared, 2).extra(usize::MAX - 1);
    assert_eq!(builder.call(), None);
    assert_eq!(builder.done(0x7000, 0).err(), Some(Error::InvalidInput));
    let builder = Mapping::build(Access::Shared, 1).extra(usize::MAX - 1);
    assert_eq!(builder.call().unwrap().length, usize::MAX);
}

#[test]
fn done_takes_the_address_or_the_platform_error() {
    let builder = Mapping::build(Access::Shared, 8).extra(24);
    let map = builder.done(0x5000, 0).unwrap();
    assert_eq!(map.addr(), 0x5000);
    assert_eq!(map.length(), 32);
    assert_eq!(map.header(), 8);
    assert_eq!(map.len(), 24);
    assert_eq!(builder.done(0, 12).err(), Some(Error::Os(12)));
}

#[test]
fn done_takes_the_platform_failure_value_as_failure() {
    let builder = Mapping::build(Access::Shared, 8).extra(24);
    assert_eq!(builder.done(usize::MAX, 12).err(), Some(Error::Os(12)));
    assert_eq!(builder.done(usize::MAX, 0).err(), Some(Error::Os(0)));
    assert_eq!(builder.done(usize::MAX - 1, 12).unwrap().addr(), usize::MAX - 1);
    assert_eq!(builder.done(1, 12).unwrap().addr(), 1);
    assert!(Builder::failed(0));
    assert!(Builder::failed(usize::MAX));
    assert!(!Builder::failed(0x7000));
    let builder = Mapping::build(Access::Shared, 2).extra(usize::MAX - 1);
    assert_eq!(builder.done(usize::MAX, 12).err(), Some(Error::InvalidInput));
}

#[test]
fn cast_changes_the_header_only() {
    let map = Mapping::build(Access::Shared, 8).extra(24).done(0x5000, 0).unwrap();
    let map = map.cast(32);
    assert_eq!(map.addr(), 0x5000);
    assert_eq!(map.length(), 32);
    assert_eq!(map.header(), 32);
    assert_eq!(map.len(), 0);
}

#[test]
fn reply_is_a_result() {
    let ok = Reply { value: 7, errno: 5, buffer: Vec::new() };
    assert_eq!(ok.result(), Ok(7));
    assert_eq!(ok.descriptor(), Ok(Fd::new(7)));
    let zero = Reply { value: 0, errno: 5, buffer: Vec::new() };
    assert_eq!(zero.result(), Ok(0));
    let failed = Reply { value: -1, errno: 5, buffer: Vec::new() };
    assert_eq!(failed.result(), Err(Error::Os(5)));
    assert_eq!(failed.descriptor(), Err(Error::Os(5)));
}

#[test]
fn descriptor_makes_requests_on_itself() {
    let fd = Fd::new(11);
    assert_eq!(fd.as_raw_fd(), 11);
    assert_eq!(
        fd.ioctl(44545, Argument::Value(0)),
        Request { fd: 11, code: 44545, argument: Argument::Value(0) }
    );
    assert_eq!(fd.into_raw_fd(), 11);
}
