use ipcc_core::errors::CoreError;
use ipcc_core::filter::{FilterMode, FilterScope, LogLine, PatternFilter};
use ipcc_core::stream::LogStream;
use ipcc_core::text::{str_contains, str_eq};

fn line(source: &str, message: &str) -> LogLine {
    LogLine { source: String::from(source), message: String::from(message) }
}

#[test]
fn phrase_matching_folds_ascii_case_only_on_request() {
    assert!(str_contains("Device says: SIM IS READY today", "sim is ready", true));
    assert!(str_contains("sim is ready", "SIM IS READY", true));
    assert!(!str_contains("SIM not ready", "sim is ready", true));
    assert!(str_contains("anything", "", true));
    assert!(!str_contains("", "a", true));
    // Exact matching keeps the case.
    assert!(!str_contains("sim is ready", "SIM IS READY", false));
    assert!(str_contains("it is SIM IS READY", "SIM IS READY", false));
}

#[test]
fn case_sensitive_phrase_filter_keeps_the_case() {
    let mut f = PatternFilter::phrase("SIM is Ready", false, FilterMode::Persistent, FilterScope::All);
    assert!(!f.observe(&line("CommCenter", "sim is ready")));
    assert!(f.observe(&line("CommCenter", "SIM is Ready")));
}

#[test]
fn exact_equality_is_case_sensitive() {
    assert!(str_eq("Status", "Status"));
    assert!(!str_eq("Status", "status"));
    assert!(!str_eq("Status", "Statu"));
    assert!(str_eq("", ""));
}

#[test]
fn one_shot_filter_consumes_itself_on_first_match() {
    let mut f = PatternFilter::phrase("sim is ready", true, FilterMode::OneShot, FilterScope::All);
    assert!(f.active());
    let miss = line("kernel", "nothing here");
    assert!(!f.observe(&miss));
    assert!(f.active());
    let hit = line("CommCenter", "SIM is Ready");
    assert!(f.observe(&hit));
    assert!(!f.active());
    // Consumed: the same line no longer fires.
    assert!(!f.observe(&hit));
}

#[test]
fn persistent_filter_keeps_firing() {
    let mut f = PatternFilter::phrase("ready", true, FilterMode::Persistent, FilterScope::All);
    let hit = line("CommCenter", "SIM is Ready");
    assert!(f.observe(&hit));
    assert!(f.active());
    assert!(f.observe(&hit));
}

#[test]
fn releasing_a_consumed_filter_is_a_no_op() {
    let mut f = PatternFilter::phrase("x", true, FilterMode::OneShot, FilterScope::All);
    let hit = line("a", "x marks the spot");
    assert!(f.observe(&hit));
    assert!(!f.active());
    f.release();
    f.release();
    assert!(!f.active());
}

#[test]
fn scopes_pick_the_matched_part() {
    let l = line("CommCenter", "all quiet");
    let mut on_source =
        PatternFilter::phrase("commcenter", true, FilterMode::Persistent, FilterScope::Source);
    let mut on_message =
        PatternFilter::phrase("commcenter", true, FilterMode::Persistent, FilterScope::Message);
    let mut on_all = PatternFilter::phrase("commcenter", true, FilterMode::Persistent, FilterScope::All);
    assert!(on_source.observe(&l));
    assert!(!on_message.observe(&l));
    assert!(on_all.observe(&l));
}

#[test]
fn regex_filter_matches_as_the_regex_crate_does() {
    let mut f = PatternFilter::regex("a+b", FilterMode::Persistent, FilterScope::Message)
        .expect("a valid pattern compiles");
    assert!(f.observe(&line("s", "xxaaab")));
    assert!(!f.observe(&line("s", "axbx")));
    // Case-insensitive matching comes from the pattern itself.
    let mut ci = PatternFilter::regex("(?i)sim is ready", FilterMode::OneShot, FilterScope::All)
        .expect("a valid pattern compiles");
    assert!(ci.observe(&line("CommCenter", "SIM IS READY")));
    assert!(!ci.active());
}

#[test]
fn invalid_regex_is_a_construction_error() {
    let r = PatternFilter::regex("(unclosed", FilterMode::OneShot, FilterScope::All);
    match r {
        Err(CoreError::FilterConstruction) => {}
        _ => panic!("an unclosed group must be rejected"),
    }
}

#[test]
fn stream_delivers_to_every_active_filter_in_order() {
    let mut stream = LogStream::new();
    let a = stream.subscribe(PatternFilter::phrase("ready", true, FilterMode::OneShot, FilterScope::All));
    let b = stream.subscribe(PatternFilter::phrase("nope", true, FilterMode::OneShot, FilterScope::All));
    let c =
        stream.subscribe(PatternFilter::phrase("READY", true, FilterMode::Persistent, FilterScope::All));
    assert_eq!((a, b, c), (0, 1, 2));
    let fired = stream.deliver(&line("CommCenter", "SIM is Ready"));
    assert_eq!(fired, vec![0, 2]);
    // The one-shot dropped out by itself; the persistent one fires again.
    let fired = stream.deliver(&line("CommCenter", "SIM is Ready"));
    assert_eq!(fired, vec![2]);
}

#[test]
fn unsubscribe_is_idempotent_and_tolerates_unknown_handles() {
    let mut stream = LogStream::new();
    let id = stream.subscribe(PatternFilter::phrase("r", true, FilterMode::Persistent, FilterScope::All));
    stream.unsubscribe(id);
    let fired = stream.deliver(&line("s", "r"));
    assert!(fired.is_empty());
    stream.unsubscribe(id);
    stream.unsubscribe(17);
    let fired = stream.deliver(&line("s", "r"));
    assert!(fired.is_empty());
}
