//! Installation gating and completion detection.
//!
//! Before a bundle is installed, the connected device's snapshotted
//! identity must equal the expected one; on any doubt the installer is
//! never invoked. While it runs, its progress reports are inspected for
//! the completion marker: the field named "Status" with the exact value
//! "Completed" — a value merely containing that word does not count.

use vstd::prelude::*;

use crate::errors::CoreError;
use crate::text::str_eq;

verus! {

/// The identity the caller expects of the connected device: a model
/// identifier and a firmware version. Compared once per install attempt.
pub struct ExpectedIdentity {
    pub model: String,
    pub version: String,
}

/// The mathematical content of an `ExpectedIdentity`.
pub struct ExpectedIdentityModel {
    pub model: Seq<char>,
    pub version: Seq<char>,
}

impl View for ExpectedIdentity {
    type V = ExpectedIdentityModel;

    open spec fn view(&self) -> ExpectedIdentityModel {
        ExpectedIdentityModel { model: self.model@, version: self.version@ }
    }
}

/// A one-time snapshot of what the attribute queries reported for the
/// connected device; an unavailable attribute is `None`.
pub struct ReportedIdentity {
    pub model: Option<String>,
    pub version: Option<String>,
}

/// The mathematical content of a `ReportedIdentity`.
pub struct ReportedIdentityModel {
    pub model: Option<Seq<char>>,
    pub version: Option<Seq<char>>,
}

impl View for ReportedIdentity {
    type V = ReportedIdentityModel;

    open spec fn view(&self) -> ReportedIdentityModel {
        ReportedIdentityModel {
            model: match self.model {
                Some(s) => Some(s@),
                None => None,
            },
            version: match self.version {
                Some(s) => Some(s@),
                None => None,
            },
        }
    }
}

/// An unavailable attribute compares as the empty string.
pub open spec fn value_or_empty(v: Option<Seq<char>>) -> Seq<char> {
    match v {
        Some(s) => s,
        None => Seq::empty(),
    }
}

/// Whether the snapshotted identity equals the expected one, field by field.
pub open spec fn identity_matches(
    expected: ExpectedIdentityModel,
    reported: ReportedIdentityModel,
) -> bool {
    &&& value_or_empty(reported.model) == expected.model
    &&& value_or_empty(reported.version) == expected.version
}

fn field_matches(reported: &Option<String>, expected: &String) -> (r: bool)
    ensures
        r == (value_or_empty(
            match *reported {
                Some(s) => Some(s@),
                None => None,
            },
        ) == expected@),
{
    match reported {
        Some(s) => str_eq(s.as_str(), expected.as_str()),
        None => {
            let r = expected.as_str().is_empty();
            proof {
                if expected@.len() == 0 {
                    assert(expected@ =~= Seq::<char>::empty());
                }
            }
            r
        },
    }
}

/// Authorizes an install attempt: `Ok` exactly when a device is attached
/// and its snapshotted identity matches the expected one. On `Err` the
/// installer must never be invoked; the error names the single negative
/// outcome owed to the caller.
pub fn authorize_install(
    device_attached: bool,
    expected: &ExpectedIdentity,
    reported: &ReportedIdentity,
) -> (r: Result<(), CoreError>)
    ensures
        r is Ok <==> device_attached && identity_matches(expected@, reported@),
        !device_attached ==> r == Err::<(), CoreError>(CoreError::NoDevice),
        device_attached && !identity_matches(expected@, reported@) ==> r == Err::<
            (),
            CoreError,
        >(CoreError::IdentityMismatch),
{
    if !device_attached {
        return Err(CoreError::NoDevice);
    }
    let model_ok = field_matches(&reported.model, &expected.model);
    let version_ok = field_matches(&reported.version, &expected.version);
    if model_ok && version_ok {
        Ok(())
    } else {
        Err(CoreError::IdentityMismatch)
    }
}

/// One key-value pair of an installer progress report.
pub struct StatusField {
    pub key: String,
    pub value: String,
}

/// The mathematical content of a `StatusField`.
pub struct StatusFieldModel {
    pub key: Seq<char>,
    pub value: Seq<char>,
}

impl View for StatusField {
    type V = StatusFieldModel;

    open spec fn view(&self) -> StatusFieldModel {
        StatusFieldModel { key: self.key@, value: self.value@ }
    }
}

/// The spec-level content of a progress report.
pub open spec fn fields_model(fields: Seq<StatusField>) -> Seq<StatusFieldModel> {
    fields.map_values(|f: StatusField| f@)
}

/// The completion marker: the field named "Status" holding exactly the
/// value "Completed". A value that merely contains "Completed" somewhere,
/// or a differently named field, is not the marker.
pub open spec fn field_marks_completion(f: StatusFieldModel) -> bool {
    &&& f.key == "Status"@
    &&& f.value == "Completed"@
}

/// Whether a progress report carries the completion marker.
pub open spec fn progress_complete(fields: Seq<StatusFieldModel>) -> bool {
    exists|i: int| 0 <= i < fields.len() && field_marks_completion(fields[i])
}

/// Inspects one installer progress report: true exactly when some field is
/// the completion marker, by exact field-name and field-value match.
pub fn progress_marks_completion(fields: &Vec<StatusField>) -> (r: bool)
    ensures
        r == progress_complete(fields_model(fields@)),
{
    let ghost fm = fields_model(fields@);
    let mut i: usize = 0;
    while i < fields.len()
        invariant
            fm == fields_model(fields@),
            fm.len() == fields@.len(),
            0 <= i <= fields@.len(),
            forall|t: int| 0 <= t < i ==> !field_marks_completion(fm[t]),
        decreases fields@.len() - i,
    {
        let key_ok = str_eq(fields[i].key.as_str(), "Status");
        if key_ok {
            let value_ok = str_eq(fields[i].value.as_str(), "Completed");
            if value_ok {
                assert(field_marks_completion(fm[i as int]));
                return true;
            }
        }
        assert(!field_marks_completion(fm[i as int]));
        i = i + 1;
    }
    false
}

/// What the caller must do with an install request: start the installer on
/// the bundle, or refuse and report the error as a negative outcome.
pub enum InstallPlan {
    Start { bundle_path: String },
    Refuse { error: CoreError },
}

/// Decides an install request from the bundle path, the expected identity
/// and the snapshot of the device's reported identity. The installer is
/// started only for an attached, matching device; every refusal names
/// exactly one error to report.
pub fn plan_install(
    device_attached: bool,
    expected: &ExpectedIdentity,
    reported: &ReportedIdentity,
    bundle_path: &str,
) -> (p: InstallPlan)
    ensures
        device_attached && identity_matches(expected@, reported@) ==> (p matches
            InstallPlan::Start { bundle_path: b } && b@ == bundle_path@),
        !device_attached ==> p == (InstallPlan::Refuse { error: CoreError::NoDevice }),
        device_attached && !identity_matches(expected@, reported@) ==> p == (InstallPlan::Refuse {
            error: CoreError::IdentityMismatch,
        }),
{
    match authorize_install(device_attached, expected, reported) {
        Ok(()) => InstallPlan::Start { bundle_path: bundle_path.to_owned() },
        Err(e) => InstallPlan::Refuse { error: e },
    }
}

} // verus!
