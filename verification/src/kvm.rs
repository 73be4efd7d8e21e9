//! The hypervisor's device and its protocol version.

use crate::util::fd::{Argument, Fd, Reply, Request};
use crate::{Error, Kvm, API_VERSION};
use vstd::prelude::*;

verus! {

/// The request for the protocol version.
pub const KVM_GET_API_VERSION: u64 = 44544;

/// The request that creates a virtual machine.
pub const KVM_CREATE_VM: u64 = 44545;

/// The request for the size of a processor's run page.
pub const KVM_GET_VCPU_MMAP_SIZE: u64 = 44548;

impl Kvm {
    /// The descriptor of the hypervisor's device.
    pub closed spec fn spec_fd(&self) -> Fd {
        self.0
    }

    /// The descriptor of the hypervisor's device.
    pub fn fd(&self) -> (r: &Fd)
        ensures
            *r == self.spec_fd(),
    {
        &self.0
    }

    /// The request that asks the device behind `fd` for its protocol version.
    pub fn version_request(fd: &Fd) -> (r: Request)
        ensures
            r == (Request { fd: fd.0, code: KVM_GET_API_VERSION, argument: Argument::Nothing }),
    {
        fd.ioctl(KVM_GET_API_VERSION, Argument::Nothing)
    }

    /// What opening ends with, given the answer to the version request: the
    /// platform's error where the request failed, the version reported where
    /// it is not the one this library speaks, else nothing in the way.
    pub open spec fn open_outcome(reply: Reply) -> Result<(), Error> {
        if reply.value < 0 {
            Err(Error::Os(reply.errno))
        } else if reply.value != API_VERSION {
            Err(Error::InvalidVersion(reply.value as u32))
        } else {
            Ok(())
        }
    }

    /// Takes the device behind `fd` as the hypervisor, given its answer to
    /// [`version_request`](Self::version_request). Only a device that reports
    /// version 12 is taken.
    pub fn open(fd: Fd, reply: &Reply) -> (r: Result<Kvm, Error>)
        ensures
            match Self::open_outcome(*reply) {
                Ok(_) => r is Ok && r->Ok_0.spec_fd() == fd,
                Err(e) => r is Err && r->Err_0 == e,
            },
    {
        let version = reply.result()?;
        if version != API_VERSION {
            return Err(Error::InvalidVersion(version));
        }
        Ok(Kvm(fd))
    }

    /// The request that creates a virtual machine.
    pub fn create_vm_request(&self) -> (r: Request)
        ensures
            r == (Request {
                fd: self.spec_fd().0,
                code: KVM_CREATE_VM,
                argument: Argument::Value(0),
            }),
    {
        self.0.ioctl(KVM_CREATE_VM, Argument::Value(0))
    }

    /// The request for the size of a processor's run page.
    pub fn vcpu_mmap_size_request(&self) -> (r: Request)
        ensures
            r == (Request {
                fd: self.spec_fd().0,
                code: KVM_GET_VCPU_MMAP_SIZE,
                argument: Argument::Nothing,
            }),
    {
        self.0.ioctl(KVM_GET_VCPU_MMAP_SIZE, Argument::Nothing)
    }
}

} // verus!
