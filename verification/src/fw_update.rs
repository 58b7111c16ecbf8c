//! General firmware updates.
use vstd::prelude::*;

verus! {

/// FW update error kind
#[derive(Debug, Clone, Copy, PartialEq, Eq, Structural)]
pub enum ErrorKind {
    /// The device is not in FW update mode
    InvalidMode,
    /// FW update Content was invalid
    InvalidContent,
    /// Full FW update contents were not received
    Incomplete,
    /// The operation did not complete in the expected time
    Timeout,
    /// Error communicating with the device due to a bus error
    Bus,
    /// Generic failure
    Failed,
}

/// FW update error trait
pub trait Error {
    /// The generic error kind of this error.
    spec fn spec_kind(&self) -> ErrorKind;

    /// Map the error to a generic error
    fn kind(&self) -> (r: ErrorKind)
        ensures
            r == self.spec_kind(),
    ;
}

impl Error for ErrorKind {
    open spec fn spec_kind(&self) -> ErrorKind {
        *self
    }

    fn kind(&self) -> (r: ErrorKind) {
        *self
    }
}

/// Convenient error type for devices that are on a bus
#[derive(Debug, Clone, Copy)]
pub enum BusError<B> {
    /// Bus error
    Bus(B),
    /// Generic error
    General(ErrorKind),
}

impl<B> Error for BusError<B> {
    open spec fn spec_kind(&self) -> ErrorKind {
        match self {
            BusError::Bus(_) => ErrorKind::Bus,
            BusError::General(e) => *e,
        }
    }

    fn kind(&self) -> (r: ErrorKind) {
        match self {
            BusError::Bus(_) => ErrorKind::Bus,
            BusError::General(e) => *e,
        }
    }
}

} // verus!
