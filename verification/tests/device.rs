use ipcc_core::errors::CoreError;
use ipcc_core::install::{
    ExpectedIdentity, InstallPlan, ReportedIdentity, StatusField, authorize_install, plan_install,
    progress_marks_completion,
};
use ipcc_core::monitor::{AttributeKind, ConnectionMonitor, MonitorAction, PresenceEvent};
use ipcc_core::notify::{
    attribute_channel, completion_status_channel, install_status_channel, presence_channel,
};

fn expected(model: &str, version: &str) -> ExpectedIdentity {
    ExpectedIdentity { model: String::from(model), version: String::from(version) }
}

fn reported(model: Option<&str>, version: Option<&str>) -> ReportedIdentity {
    ReportedIdentity {
        model: model.map(String::from),
        version: version.map(String::from),
    }
}

#[test]
fn identity_mismatch_refuses_the_install() {
    let exp = expected("M1", "V1");
    let rep = reported(Some("M2"), Some("V1"));
    assert_eq!(authorize_install(true, &exp, &rep), Err(CoreError::IdentityMismatch));
    match plan_install(true, &exp, &rep, "/bundles/carrier.ipcc") {
        InstallPlan::Refuse { error } => assert_eq!(error, CoreError::IdentityMismatch),
        InstallPlan::Start { .. } => panic!("a mismatched device must never start the installer"),
    }
}

#[test]
fn matching_identity_starts_the_installer() {
    let exp = expected("iPhone12,3", "17.1");
    let rep = reported(Some("iPhone12,3"), Some("17.1"));
    assert_eq!(authorize_install(true, &exp, &rep), Ok(()));
    match plan_install(true, &exp, &rep, "/bundles/carrier.ipcc") {
        InstallPlan::Start { bundle_path } => assert_eq!(bundle_path, "/bundles/carrier.ipcc"),
        InstallPlan::Refuse { .. } => panic!("a matching device must proceed"),
    }
}

#[test]
fn no_device_is_its_own_error() {
    let exp = expected("M1", "V1");
    let rep = reported(Some("M1"), Some("V1"));
    assert_eq!(authorize_install(false, &exp, &rep), Err(CoreError::NoDevice));
}

#[test]
fn unavailable_attribute_reads_as_empty() {
    // An unavailable attribute compares as the empty string, so only an
    // empty expectation matches it.
    let rep = reported(None, Some("17.1"));
    assert_eq!(authorize_install(true, &expected("", "17.1"), &rep), Ok(()));
    assert_eq!(
        authorize_install(true, &expected("M1", "17.1"), &rep),
        Err(CoreError::IdentityMismatch)
    );
    // Identity comparison is exact, not case-folded.
    let rep = reported(Some("m1"), Some("17.1"));
    assert_eq!(
        authorize_install(true, &expected("M1", "17.1"), &rep),
        Err(CoreError::IdentityMismatch)
    );
}

fn field(key: &str, value: &str) -> StatusField {
    StatusField { key: String::from(key), value: String::from(value) }
}

#[test]
fn completion_marker_needs_the_exact_field() {
    assert!(progress_marks_completion(&vec![field("Status", "Completed")]));
    assert!(progress_marks_completion(&vec![
        field("PercentComplete", "100"),
        field("Status", "Completed"),
    ]));
    assert!(!progress_marks_completion(&vec![]));
    // "Completed" as a mere substring, or under another key, is not the marker.
    assert!(!progress_marks_completion(&vec![field("StatusCompletedByUser", "true")]));
    assert!(!progress_marks_completion(&vec![field("Status", "CompletedByUser")]));
    assert!(!progress_marks_completion(&vec![field("Status", "completed")]));
    assert!(!progress_marks_completion(&vec![field("status", "Completed")]));
}

#[test]
fn connect_fans_out_presence_then_four_queries() {
    let mut m = ConnectionMonitor::new();
    assert_eq!(m.current_session(), None);
    assert!(m.can_issue_session());
    let acts = m.on_event(&PresenceEvent::Connected);
    assert_eq!(
        acts,
        vec![
            MonitorAction::NotifyPresence { present: true },
            MonitorAction::QueryAttribute { kind: AttributeKind::Hardware },
            MonitorAction::QueryAttribute { kind: AttributeKind::Storage },
            MonitorAction::QueryAttribute { kind: AttributeKind::Battery },
            MonitorAction::QueryAttribute { kind: AttributeKind::Os },
        ]
    );
    assert_eq!(m.current_session(), Some(0));
}

#[test]
fn reconnect_repeats_the_full_sequences_with_a_fresh_session() {
    let mut m = ConnectionMonitor::new();
    m.on_event(&PresenceEvent::Connected);
    let first = m.current_session().expect("connected");
    let down = m.on_event(&PresenceEvent::Disconnected);
    assert_eq!(down, vec![MonitorAction::NotifyPresence { present: false }]);
    assert_eq!(m.current_session(), None);
    let up = m.on_event(&PresenceEvent::Connected);
    assert_eq!(up.len(), 5);
    assert_eq!(up[0], MonitorAction::NotifyPresence { present: true });
    let second = m.current_session().expect("reconnected");
    assert_ne!(first, second);
}

#[test]
fn pairing_is_acknowledged_and_ignored() {
    let mut m = ConnectionMonitor::new();
    m.on_event(&PresenceEvent::Connected);
    let before = m.current_session();
    let acts = m.on_event(&PresenceEvent::Paired);
    assert!(acts.is_empty());
    assert_eq!(m.current_session(), before);
}

#[test]
fn channels_carry_their_fixed_names() {
    assert_eq!(presence_channel(), "device_status");
    assert_eq!(attribute_channel(&AttributeKind::Hardware), "device_hardware");
    assert_eq!(attribute_channel(&AttributeKind::Storage), "device_storage");
    assert_eq!(attribute_channel(&AttributeKind::Battery), "device_battery");
    assert_eq!(attribute_channel(&AttributeKind::Os), "device_os");
    assert_eq!(install_status_channel(), "carrier_bundle_install_status");
    assert_eq!(completion_status_channel(), "installation_succeed_status");
}

#[test]
fn errors_have_stable_labels() {
    assert_eq!(CoreError::NoDevice.label(), "no device attached");
    assert_eq!(CoreError::IdentityMismatch.label(), "device identity mismatch");
    assert_eq!(CoreError::InstallStart.label(), "installer failed to start");
    assert_eq!(CoreError::FilterConstruction.label(), "invalid log filter pattern");
    assert_eq!(CoreError::Subscription.label(), "presence subscription failed");
}
