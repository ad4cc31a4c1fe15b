use vstd::prelude::*;

verus! {

/// The kernel's "no such device or address" error code.
pub const ENXIO: i32 = 6;

/// The kernel's "no such device" error code.
pub const ENODEV: i32 = 19;

/// What can go wrong when addressing an interface.
#[derive(Clone, Copy, Debug, PartialEq, Eq, Structural)]
pub enum Error {
    /// Any other failure of the operating system, with its error code.
    SystemIo(i32),
    /// The operating system knows no interface of that name.
    InterfaceNotFound,
    /// The name does not fit the request record or holds a NUL byte.
    InvalidName,
}

/// The error that a failed control request reports.
pub open spec fn spec_classify_errno(code: i32) -> Error {
    if code == ENXIO || code == ENODEV {
        Error::InterfaceNotFound
    } else {
        Error::SystemIo(code)
    }
}

/// Tells a missing interface apart from every other failure of a request
/// that addresses an interface by name.
pub fn classify_errno(code: i32) -> (r: Error)
    ensures
        r == spec_classify_errno(code),
{
    if code == ENXIO || code == ENODEV {
        Error::InterfaceNotFound
    } else {
        Error::SystemIo(code)
    }
}

} // verus!
