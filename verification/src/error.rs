//! The failures that an operation on a port can report.

use vstd::prelude::*;

verus! {

/// Why an operation failed.
#[derive(Debug, Clone, Copy, PartialEq, Eq, Structural)]
pub enum Error {
    /// The device does not exist.
    NotFound,
    /// The caller may not use the device.
    PermissionDenied,
    /// The port is open already.
    AlreadyExists,
    /// The port is closed, so there is nothing to talk to.
    NotConnected,
    /// The request cannot be carried out as given, as with an empty device path.
    InvalidInput,
    /// Nothing was transferred before the timeout ran out.
    TimedOut,
    /// The operating system answered with a value that has no meaning here.
    InvalidData,
    /// Any other failure of the operating system, by its error code.
    Os(i32),
}

} // verus!
