use ipcc_core::filter::{FilterMode, FilterScope, LogLine, PatternFilter};
use ipcc_core::race::{
    CompletionRace, LogMatchOutcome, RaceEvent, SIM_READY_TIMEOUT_MS, start_completion_watch,
};

fn line(source: &str, message: &str) -> LogLine {
    LogLine { source: String::from(source), message: String::from(message) }
}

fn sim_race() -> CompletionRace {
    start_completion_watch(0)
}

#[test]
fn match_before_deadline_wins() {
    let mut race = sim_race();
    assert!(!race.is_resolved());
    let noise = RaceEvent::Line { at_ms: 10, line: line("kernel", "booting") };
    assert!(race.step(&noise).is_none());
    let hit = RaceEvent::Line { at_ms: 20, line: line("CommCenter", "SIM is Ready now") };
    match race.step(&hit) {
        Some(LogMatchOutcome::Matched(l)) => assert_eq!(l.message, "SIM is Ready now"),
        other => panic!("expected a match, got {:?}", other.is_some()),
    }
    assert!(race.is_resolved());
    // The timer is cancelled: its tick can no longer fire the timeout path.
    let tick = RaceEvent::Tick { at_ms: SIM_READY_TIMEOUT_MS };
    assert!(race.step(&tick).is_none());
}

#[test]
fn timeout_fires_exactly_once_at_or_after_deadline() {
    let mut race = sim_race();
    let early = RaceEvent::Tick { at_ms: SIM_READY_TIMEOUT_MS - 1 };
    assert!(race.step(&early).is_none());
    assert!(!race.is_resolved());
    let due = RaceEvent::Tick { at_ms: SIM_READY_TIMEOUT_MS };
    match race.step(&due) {
        Some(LogMatchOutcome::TimedOut) => {}
        _ => panic!("expected a timeout"),
    }
    assert!(race.is_resolved());
    let later = RaceEvent::Tick { at_ms: SIM_READY_TIMEOUT_MS + 1 };
    assert!(race.step(&later).is_none());
}

#[test]
fn exactly_one_outcome_whatever_the_interleaving() {
    // Both deciding events present, in either order: exactly one outcome.
    let match_first = vec![
        RaceEvent::Line { at_ms: 5, line: line("CommCenter", "sim is ready") },
        RaceEvent::Tick { at_ms: SIM_READY_TIMEOUT_MS },
    ];
    let mut race = sim_race();
    let outs = race.drain(&match_first);
    assert_eq!(outs.len(), 1);
    assert!(matches!(outs[0], LogMatchOutcome::Matched(_)));

    let tick_first = vec![
        RaceEvent::Tick { at_ms: SIM_READY_TIMEOUT_MS },
        RaceEvent::Line { at_ms: SIM_READY_TIMEOUT_MS, line: line("CommCenter", "sim is ready") },
    ];
    let mut race = sim_race();
    let outs = race.drain(&tick_first);
    assert_eq!(outs.len(), 1);
    assert!(matches!(outs[0], LogMatchOutcome::TimedOut));
}

#[test]
fn match_is_case_insensitive_and_needs_the_phrase() {
    let mut race = sim_race();
    let miss = RaceEvent::Line { at_ms: 1, line: line("CommCenter", "SIM not ready yet") };
    assert!(race.step(&miss).is_none());
    let hit = RaceEvent::Line { at_ms: 2, line: line("CommCenter", "esim IS readY indeed") };
    assert!(race.step(&hit).is_some());
}

#[test]
fn unarmed_race_ignores_events() {
    let mut race = CompletionRace::new();
    assert!(!race.is_resolved());
    let ev = RaceEvent::Line { at_ms: 1, line: line("a", "SIM is Ready") };
    assert!(race.step(&ev).is_none());
    assert!(race.step(&RaceEvent::Tick { at_ms: u64::MAX }).is_none());
    assert!(!race.is_resolved());
}

#[test]
fn armed_race_with_custom_filter() {
    let f = PatternFilter::phrase("carrier settings", true, FilterMode::OneShot, FilterScope::Message);
    let mut race = CompletionRace::new();
    race.arm(f, 100, 500);
    // Scope is the message only: the phrase in the source does not count.
    let in_source = RaceEvent::Line { at_ms: 150, line: line("carrier settings", "noise") };
    assert!(race.step(&in_source).is_none());
    let in_message = RaceEvent::Line { at_ms: 200, line: line("d", "Carrier Settings updated") };
    assert!(race.step(&in_message).is_some());
}

#[test]
fn drain_keeps_arrival_order() {
    let events = vec![
        RaceEvent::Line { at_ms: 1, line: line("a", "x") },
        RaceEvent::Line { at_ms: 2, line: line("a", "SIM is Ready") },
        RaceEvent::Line { at_ms: 3, line: line("a", "SIM is Ready") },
        RaceEvent::Tick { at_ms: SIM_READY_TIMEOUT_MS },
    ];
    let mut race = sim_race();
    let outs = race.drain(&events);
    assert_eq!(outs.len(), 1);
    match &outs[0] {
        LogMatchOutcome::Matched(l) => assert_eq!(l.message, "SIM is Ready"),
        LogMatchOutcome::TimedOut => panic!("the second line should have won"),
    }
    assert!(race.is_resolved());
}
