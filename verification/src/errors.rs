//! The error taxonomy of the device-management core.

use vstd::prelude::*;

verus! {

/// Everything that can go wrong at the boundary of a caller-facing
/// operation. None of these is fatal to the process; each is converted to a
/// negative outcome notification by the caller-facing layer.
#[derive(PartialEq, Eq, Structural, Clone, Copy, Debug)]
pub enum CoreError {
    /// No device is attached while one is required.
    NoDevice,
    /// The connected device does not report the expected model and firmware.
    IdentityMismatch,
    /// The external installer failed to begin.
    InstallStart,
    /// An invalid pattern was supplied for a log filter.
    FilterConstruction,
    /// The process-wide presence-event subscription failed.
    Subscription,
}

impl CoreError {
    /// A short stable label for logs and notifications.
    pub fn label(&self) -> (s: &'static str)
        ensures
            s@ == match *self {
                CoreError::NoDevice => "no device attached"@,
                CoreError::IdentityMismatch => "device identity mismatch"@,
                CoreError::InstallStart => "installer failed to start"@,
                CoreError::FilterConstruction => "invalid log filter pattern"@,
                CoreError::Subscription => "presence subscription failed"@,
            },
    {
        match self {
            CoreError::NoDevice => "no device attached",
            CoreError::IdentityMismatch => "device identity mismatch",
            CoreError::InstallStart => "installer failed to start",
            CoreError::FilterConstruction => "invalid log filter pattern",
            CoreError::Subscription => "presence subscription failed",
        }
    }
}

} // verus!
