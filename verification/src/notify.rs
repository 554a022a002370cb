//! Channel names of the outcome sink.
//!
//! The sink is an opaque fire-and-forget emitter: every notification is a
//! channel name and a payload. These are the channels this core reports on.

use vstd::prelude::*;

use crate::monitor::AttributeKind;

verus! {

/// The channel announcing device presence: `true` on connect, `false` on
/// disconnect.
pub fn presence_channel() -> (s: &'static str)
    ensures
        s@ == "device_status"@,
{
    "device_status"
}

/// The channel carrying one attribute summary queried on connect.
pub fn attribute_channel(kind: &AttributeKind) -> (s: &'static str)
    ensures
        s@ == match *kind {
            AttributeKind::Hardware => "device_hardware"@,
            AttributeKind::Storage => "device_storage"@,
            AttributeKind::Battery => "device_battery"@,
            AttributeKind::Os => "device_os"@,
        },
{
    match kind {
        AttributeKind::Hardware => "device_hardware",
        AttributeKind::Storage => "device_storage",
        AttributeKind::Battery => "device_battery",
        AttributeKind::Os => "device_os",
    }
}

/// The channel reporting whether an install attempt was started and ended
/// well: `true` on the completion marker, `false` on every refusal or
/// failure.
pub fn install_status_channel() -> (s: &'static str)
    ensures
        s@ == "carrier_bundle_install_status"@,
{
    "carrier_bundle_install_status"
}

/// The channel reporting the outcome of the installation-completion race:
/// `true` when the log matched, `false` on timeout or any failure to watch.
pub fn completion_status_channel() -> (s: &'static str)
    ensures
        s@ == "installation_succeed_status"@,
{
    "installation_succeed_status"
}

} // verus!
