//! What every communication device offers: it is open or closed, and can be
//! opened and closed.

use vstd::prelude::*;

verus! {

/// A device that is opened before it is used and closed afterwards.
///
/// Opening and closing take the device by value and give a progress report
/// back, which holds the device again once the operation is over.
pub trait Communication: Sized {
    /// How far an operation has come, and the device with it.
    type Progress;

    /// Whether the device is open.
    fn is_open(&self) -> bool;

    /// Opens the device. Opening a device that is open already is an error.
    fn open(self) -> Self::Progress;

    /// Closes the device. On a closed device this does nothing and succeeds.
    fn close(self) -> Self::Progress;
}

} // verus!
