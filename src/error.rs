//! The errors that session operations report.
use vstd::prelude::*;

verus! {

/// Why a session operation did not succeed.
#[derive(Clone, Copy, Debug, PartialEq, Eq, Structural)]
pub enum SessionError {
    /// The driver reports that it is not activated.
    DriverInactive,
    /// The requested device is not among the devices currently present.
    DeviceMismatch,
    /// The driver refused to grab the registered devices.
    GrabbingFailed,
    /// The request has the `0x` prefix but no valid 64-bit hexadecimal number after it.
    MalformedFingerprintRequest,
    /// A product name holds a NUL character, which the driver cannot be given.
    NameContainsNul,
    /// Another driver call reported failure.
    DriverCallFailed,
    /// An event arrived while the session held no grab, for instance after a release.
    NotGrabbed,
}

} // verus!
