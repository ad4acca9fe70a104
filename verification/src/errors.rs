//! Error kinds shared by every component of the library.
use vstd::prelude::*;

verus! {

/// Every way an operation on a device session can fail.
///
/// Setup failures (`AlreadyOpen`, `DeviceBusy`, option validation errors)
/// are fatal to a run; `IOError` during streaming is terminal for the
/// session; `Closed` is returned by every operation on a session that was
/// explicitly closed.
#[derive(Clone, Copy, Debug, PartialEq, Eq, Structural)]
pub enum ScanError {
    /// The session has never been opened.
    NotOpen,
    /// `open` was called on a session that already holds a device handle.
    AlreadyOpen,
    /// The transport reported the device as held by someone else.
    DeviceBusy,
    /// An option index or descriptor was malformed.
    InvalidOption,
    /// The value's tag differs from the descriptor's declared kind.
    TypeMismatch,
    /// The value violates the descriptor's range or list constraint.
    OutOfRange,
    /// The descriptor is read-only or hardware-fixed.
    Unsupported,
    /// The operation is illegal in the session's current state.
    NotReady,
    /// A fatal transport failure.
    IOError,
    /// The operation was cancelled.
    Cancelled,
    /// The transport ran out of memory.
    NoMemory,
    /// The session was explicitly closed and is unusable.
    Closed,
}

} // verus!
