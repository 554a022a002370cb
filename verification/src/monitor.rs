//! The connection-lifecycle monitor.
//!
//! Presence events arrive from the transport; for each one the monitor says
//! which notifications and attribute queries to fan out, and tracks the
//! current device session. A session is replaced, never reused, on each new
//! connect, so nothing of a previous device can leak into a new one.

use vstd::prelude::*;

verus! {

/// A device presence transition reported by the transport layer.
#[derive(PartialEq, Eq, Structural, Clone, Copy, Debug)]
pub enum PresenceEvent {
    Connected,
    Disconnected,
    Paired,
}

/// The attribute summaries queried on each connect.
#[derive(PartialEq, Eq, Structural, Clone, Copy, Debug)]
pub enum AttributeKind {
    Hardware,
    Storage,
    Battery,
    Os,
}

/// What the caller must do in reaction to a presence event, in order.
#[derive(PartialEq, Eq, Structural, Clone, Copy, Debug)]
pub enum MonitorAction {
    /// Forward a presence notification: the device became reachable or not.
    NotifyPresence { present: bool },
    /// Query one attribute summary of the connected device and forward the
    /// result; a failed query yields "unavailable", never an abort.
    QueryAttribute { kind: AttributeKind },
}

/// The mathematical state of the monitor: the current session, if any, and
/// the number the next session will get.
pub struct MonitorModel {
    pub session: Option<u64>,
    pub next_session: u64,
}

impl MonitorModel {
    /// Sessions are numbered in order: any live session is older than the
    /// next one to be issued.
    pub open spec fn wf(&self) -> bool {
        self.session matches Some(s) ==> s < self.next_session
    }
}

/// The notifications owed on a connect: the positive presence notification
/// first, then the four attribute queries.
pub open spec fn connect_actions() -> Seq<MonitorAction> {
    seq![
        MonitorAction::NotifyPresence { present: true },
        MonitorAction::QueryAttribute { kind: AttributeKind::Hardware },
        MonitorAction::QueryAttribute { kind: AttributeKind::Storage },
        MonitorAction::QueryAttribute { kind: AttributeKind::Battery },
        MonitorAction::QueryAttribute { kind: AttributeKind::Os },
    ]
}

/// The notifications owed on a disconnect.
pub open spec fn disconnect_actions() -> Seq<MonitorAction> {
    seq![MonitorAction::NotifyPresence { present: false }]
}

/// The notifications owed for each presence event. Pairing is acknowledged
/// and otherwise ignored.
pub open spec fn actions_for(ev: PresenceEvent) -> Seq<MonitorAction> {
    match ev {
        PresenceEvent::Connected => connect_actions(),
        PresenceEvent::Disconnected => disconnect_actions(),
        PresenceEvent::Paired => Seq::empty(),
    }
}

/// One transition of the monitor: the state after the event. A connect
/// issues a fresh session; a disconnect releases the current one.
pub open spec fn spec_on_event(m: MonitorModel, ev: PresenceEvent) -> MonitorModel {
    match ev {
        PresenceEvent::Connected => MonitorModel {
            session: Some(m.next_session),
            next_session: (m.next_session + 1) as u64,
        },
        PresenceEvent::Disconnected => MonitorModel { session: None, ..m },
        PresenceEvent::Paired => m,
    }
}

/// Subscribes to presence events and fans out status queries. The session
/// number stands for the device handle: it is replaced, never mutated, on
/// each new connect, and dropped on disconnect.
pub struct ConnectionMonitor {
    session: Option<u64>,
    next_session: u64,
}

impl ConnectionMonitor {
    /// The mathematical state of this monitor.
    pub closed spec fn model(&self) -> MonitorModel {
        MonitorModel { session: self.session, next_session: self.next_session }
    }

    /// A monitor with no device attached and no session issued yet.
    pub fn new() -> (m: ConnectionMonitor)
        ensures
            m.model().wf(),
            m.model().session is None,
            m.model().next_session == 0,
    {
        ConnectionMonitor { session: None, next_session: 0 }
    }

    /// The current session number, if a device is attached.
    pub fn current_session(&self) -> (s: Option<u64>)
        ensures
            s == self.model().session,
    {
        self.session
    }

    /// Whether another session number can still be issued; callers check
    /// this before handing the monitor a connect event.
    pub fn can_issue_session(&self) -> (b: bool)
        ensures
            b == (self.model().next_session < u64::MAX),
    {
        self.next_session < u64::MAX
    }

    /// Reacts to one presence event: updates the session and returns the
    /// actions owed for it, in the order they must be performed.
    pub fn on_event(&mut self, ev: &PresenceEvent) -> (acts: Vec<MonitorAction>)
        requires
            old(self).model().wf(),
            old(self).model().next_session < u64::MAX,
        ensures
            final(self).model().wf(),
            final(self).model() == spec_on_event(old(self).model(), *ev),
            acts@ == actions_for(*ev),
    {
        match ev {
            PresenceEvent::Connected => {
                self.session = Some(self.next_session);
                self.next_session = self.next_session + 1;
                let mut acts: Vec<MonitorAction> = Vec::new();
                acts.push(MonitorAction::NotifyPresence { present: true });
                acts.push(MonitorAction::QueryAttribute { kind: AttributeKind::Hardware });
                acts.push(MonitorAction::QueryAttribute { kind: AttributeKind::Storage });
                acts.push(MonitorAction::QueryAttribute { kind: AttributeKind::Battery });
                acts.push(MonitorAction::QueryAttribute { kind: AttributeKind::Os });
                proof {
                    assert(acts@ =~= connect_actions());
                }
                acts
            },
            PresenceEvent::Disconnected => {
                self.session = None;
                let mut acts: Vec<MonitorAction> = Vec::new();
                acts.push(MonitorAction::NotifyPresence { present: false });
                proof {
                    assert(acts@ =~= disconnect_actions());
                }
                acts
            },
            PresenceEvent::Paired => {
                let acts: Vec<MonitorAction> = Vec::new();
                proof {
                    assert(acts@ =~= actions_for(PresenceEvent::Paired));
                }
                acts
            },
        }
    }
}

/// A disconnect followed at once by a connect owes the full negative
/// sequence and then the full positive one, and the session after the
/// reconnect is fresh: it differs from the session held before, and the old
/// session is gone in between, so no stale device state can carry over.
pub proof fn lemma_reconnect_is_fresh(m: MonitorModel)
    requires
        m.wf(),
        m.next_session < u64::MAX,
    ensures
        ({
            let m1 = spec_on_event(m, PresenceEvent::Disconnected);
            let m2 = spec_on_event(m1, PresenceEvent::Connected);
            &&& actions_for(PresenceEvent::Disconnected) + actions_for(PresenceEvent::Connected)
                =~= disconnect_actions() + connect_actions()
            &&& m1.session is None
            &&& m2.wf()
            &&& m2.session is Some
            &&& (m.session matches Some(s) ==> m2.session->0 != s)
        }),
{
}

} // verus!
