//! Kernel descriptors and the requests made on them.

use crate::Error;
use vstd::prelude::*;

verus! {

/// The third argument of a request.
#[derive(Debug, Clone, PartialEq, Eq)]
pub enum Argument {
    /// The request takes no argument.
    Nothing,
    /// The request takes a plain number.
    Value(u64),
    /// The request takes the address of a buffer with these bytes, which the
    /// kernel may overwrite.
    Buffer(Vec<u8>),
}

/// One request, ready to be issued.
#[derive(Debug, Clone, PartialEq, Eq)]
pub struct Request {
    /// The descriptor the request is made on.
    pub fd: i32,
    /// The request code.
    pub code: u64,
    /// The request's argument.
    pub argument: Argument,
}

/// What the kernel answered to one request.
#[derive(Debug, Clone, PartialEq, Eq)]
pub struct Reply {
    /// The value the request returned; negative on failure.
    pub value: i32,
    /// The platform's error code, meaningful where `value` is negative.
    pub errno: i32,
    /// The bytes of the request's buffer after the call; empty where it had none.
    pub buffer: Vec<u8>,
}

impl Reply {
    /// The outcome of the request as a plain result.
    pub open spec fn outcome(&self) -> Result<u32, Error> {
        if self.value < 0 {
            Err(Error::Os(self.errno))
        } else {
            Ok(self.value as u32)
        }
    }

    /// Turns the raw answer into a result: a negative value is the platform's
    /// error, anything else is what the request returned.
    pub fn result(&self) -> (r: Result<u32, Error>)
        ensures
            r == self.outcome(),
    {
        if self.value < 0 {
            Err(Error::Os(self.errno))
        } else {
            Ok(self.value as u32)
        }
    }

    /// The descriptor that a creating request returned.
    pub fn descriptor(&self) -> (r: Result<Fd, Error>)
        ensures
            self.value < 0 ==> r == Err::<Fd, Error>(Error::Os(self.errno)),
            self.value >= 0 ==> r == Ok::<Fd, Error>(Fd(self.value)),
    {
        if self.value < 0 {
            Err(Error::Os(self.errno))
        } else {
            Ok(Fd(self.value))
        }
    }
}

/// A kernel descriptor, held by its number.
#[derive(Debug, PartialEq, Eq, Structural)]
pub struct Fd(pub i32);

impl Fd {
    /// Takes charge of the descriptor with the given number.
    pub fn new(fd: i32) -> (r: Self)
        ensures
            r == Fd(fd),
    {
        Fd(fd)
    }

    /// The descriptor's number.
    pub fn as_raw_fd(&self) -> (r: i32)
        ensures
            r == self.0,
    {
        self.0
    }

    /// Gives the descriptor's number up to the caller.
    pub fn into_raw_fd(self) -> (r: i32)
        ensures
            r == self.0,
    {
        self.0
    }

    /// The request with the given code and argument on this descriptor.
    pub fn ioctl(&self, code: u64, argument: Argument) -> (r: Request)
        ensures
            r == (Request { fd: self.0, code, argument }),
    {
        Request { fd: self.0, code, argument }
    }
}

} // verus!
