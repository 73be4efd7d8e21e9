use ketuvim::util::fd::{Fd, Reply};
use ketuvim::{Error, Kvm};

fn answer(value: i32, errno: i32) -> Reply {
    Reply { value, errno, buffer: Vec::new() }
}

#[test]
fn open_takes_version_twelve() {
    assert!(Kvm::open(Fd::new(3), &answer(12, 0)).is_ok());
}

#[test]
fn open_refuses_other_versions() {
    assert_eq!(Kvm::open(Fd::new(3), &answer(11, 0)).err(), Some(Error::InvalidVersion(11)));
    assert_eq!(Kvm::open(Fd::new(3), &answer(13, 0)).err(), Some(Error::InvalidVersion(13)));
    assert_eq!(Kvm::open(Fd::new(3), &answer(0, 0)).err(), Some(Error::InvalidVersion(0)));
}

#[test]
fn open_passes_the_platform_error_on() {
    assert_eq!(Kvm::open(Fd::new(3), &answer(-1, 13)).err(), Some(Error::Os(13)));
}
