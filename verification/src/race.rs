//! The installation-completion race: a log-pattern match against a deadline.
//!
//! A `CompletionRace` couples a single-shot `PatternFilter` with a deadline.
//! Events — log lines and timer ticks, each stamped with their arrival time —
//! are fed to `step` in arrival order. The race resolves on the first event
//! that decides it: a line the filter matches, or a tick at or past the
//! deadline. Exactly one outcome is ever produced; once resolved, every
//! later event is ignored, so the losing path can never fire.

use vstd::prelude::*;

use crate::filter::FilterScope;
use crate::filter::LogLine;
use crate::filter::LogLineModel;
use crate::filter::PatternFilter;
use crate::filter::PatternModel;
use crate::filter::scope_hits;
use crate::filter::sim_ready_filter;

verus! {

/// An event delivered to a race: a log line or a timer tick, each stamped
/// with the milliseconds of its arrival on the caller's monotonic clock.
pub enum RaceEvent {
    Line { at_ms: u64, line: LogLine },
    Tick { at_ms: u64 },
}

/// The mathematical content of a `RaceEvent`.
pub enum RaceEventModel {
    Line { at_ms: u64, line: LogLineModel },
    Tick { at_ms: u64 },
}

impl View for RaceEvent {
    type V = RaceEventModel;

    open spec fn view(&self) -> RaceEventModel {
        match *self {
            RaceEvent::Line { at_ms, line } => RaceEventModel::Line { at_ms, line: line@ },
            RaceEvent::Tick { at_ms } => RaceEventModel::Tick { at_ms },
        }
    }
}

/// The outcome of a race: the matching line, or a timeout.
pub enum LogMatchOutcome {
    Matched(LogLine),
    TimedOut,
}

/// The mathematical content of a `LogMatchOutcome`.
pub enum OutcomeModel {
    Matched(LogLineModel),
    TimedOut,
}

impl View for LogMatchOutcome {
    type V = OutcomeModel;

    open spec fn view(&self) -> OutcomeModel {
        match *self {
            LogMatchOutcome::Matched(line) => OutcomeModel::Matched(line@),
            LogMatchOutcome::TimedOut => OutcomeModel::TimedOut,
        }
    }
}

/// The phase of a race: not yet armed, racing, or decided for good.
#[derive(PartialEq, Eq, Structural, Clone, Copy, Debug)]
pub enum RacePhase {
    Idle,
    Armed,
    Resolved,
}

/// The mathematical state of a race.
pub struct RaceModel {
    pub phase: RacePhase,
    pub pattern: Option<PatternModel>,
    pub scope: FilterScope,
    pub deadline_ms: u64,
}

/// Whether a log line decides the race in favour of a match.
pub open spec fn line_resolves(r: RaceModel, line: LogLineModel) -> bool {
    &&& r.phase is Armed
    &&& r.pattern matches Some(p) && scope_hits(p, r.scope, line)
}

/// Whether a timer tick decides the race in favour of a timeout: only a tick
/// at or past the deadline can.
pub open spec fn tick_resolves(r: RaceModel, at_ms: u64) -> bool {
    &&& r.phase is Armed
    &&& at_ms >= r.deadline_ms
}

/// Whether an event decides the race.
pub open spec fn event_resolves(r: RaceModel, ev: RaceEventModel) -> bool {
    match ev {
        RaceEventModel::Line { at_ms: _, line } => line_resolves(r, line),
        RaceEventModel::Tick { at_ms } => tick_resolves(r, at_ms),
    }
}

/// The outcome a deciding event produces.
pub open spec fn event_outcome(ev: RaceEventModel) -> OutcomeModel {
    match ev {
        RaceEventModel::Line { at_ms: _, line } => OutcomeModel::Matched(line),
        RaceEventModel::Tick { at_ms: _ } => OutcomeModel::TimedOut,
    }
}

/// One transition of the race: the state after the event, and the outcome
/// notification it emits, if any.
pub open spec fn spec_step(r: RaceModel, ev: RaceEventModel) -> (RaceModel, Option<OutcomeModel>) {
    if event_resolves(r, ev) {
        (RaceModel { phase: RacePhase::Resolved, ..r }, Some(event_outcome(ev)))
    } else {
        (r, None)
    }
}

/// The race run over a whole event trace: the final state and the sequence
/// of outcome notifications emitted along the way.
pub open spec fn spec_run(r: RaceModel, evs: Seq<RaceEventModel>) -> (RaceModel, Seq<
    OutcomeModel,
>)
    decreases evs.len(),
{
    if evs.len() == 0 {
        (r, Seq::empty())
    } else {
        let head = spec_step(r, evs[0]);
        let rest = spec_run(head.0, evs.drop_first());
        (
            rest.0,
            match head.1 {
                Some(o) => seq![o] + rest.1,
                None => rest.1,
            },
        )
    }
}

/// Whether an event would decide a race armed like `r`, whatever phase `r`
/// is in now.
pub open spec fn terminal_event(r: RaceModel, ev: RaceEventModel) -> bool {
    event_resolves(RaceModel { phase: RacePhase::Armed, ..r }, ev)
}

/// A race that is not armed emits nothing and never changes, whatever
/// arrives: in particular, once resolved, the losing path can never fire.
pub proof fn lemma_run_unarmed(r: RaceModel, evs: Seq<RaceEventModel>)
    requires
        !(r.phase is Armed),
    ensures
        spec_run(r, evs).0 == r,
        spec_run(r, evs).1 =~= Seq::<OutcomeModel>::empty(),
    decreases evs.len(),
{
    if evs.len() > 0 {
        assert(!event_resolves(r, evs[0]));
        lemma_run_unarmed(r, evs.drop_first());
    }
}

/// Over any event trace, a race emits at most one outcome: matched and
/// timed-out can never both fire.
pub proof fn lemma_at_most_one_outcome(r: RaceModel, evs: Seq<RaceEventModel>)
    ensures
        spec_run(r, evs).1.len() <= 1,
    decreases evs.len(),
{
    if evs.len() > 0 {
        let head = spec_step(r, evs[0]);
        if event_resolves(r, evs[0]) {
            lemma_run_unarmed(head.0, evs.drop_first());
        } else {
            lemma_at_most_one_outcome(r, evs.drop_first());
        }
    }
}

/// An armed race whose trace holds a deciding event — the timer guarantees
/// one, since its tick at the deadline always decides — emits exactly one
/// outcome: never both, never neither.
pub proof fn lemma_exactly_one_outcome(r: RaceModel, evs: Seq<RaceEventModel>, i: int)
    requires
        r.phase is Armed,
        0 <= i < evs.len(),
        terminal_event(r, evs[i]),
    ensures
        spec_run(r, evs).1.len() == 1,
    decreases evs.len(),
{
    assert(RaceModel { phase: RacePhase::Armed, ..r } == r);
    let head = spec_step(r, evs[0]);
    if event_resolves(r, evs[0]) {
        lemma_run_unarmed(head.0, evs.drop_first());
    } else {
        assert(i != 0);
        assert(evs.drop_first()[i - 1] == evs[i]);
        assert(terminal_event(r, evs.drop_first()[i - 1]));
        lemma_exactly_one_outcome(r, evs.drop_first(), i - 1);
    }
}

/// The first deciding event in the trace is the one that names the outcome:
/// everything before it emits nothing, everything after it is ignored.
pub proof fn lemma_first_terminal_decides(r: RaceModel, evs: Seq<RaceEventModel>, i: int)
    requires
        r.phase is Armed,
        0 <= i < evs.len(),
        terminal_event(r, evs[i]),
        forall|j: int| 0 <= j < i ==> !terminal_event(r, evs[j]),
    ensures
        spec_run(r, evs).1 =~= seq![event_outcome(evs[i])],
    decreases evs.len(),
{
    assert(RaceModel { phase: RacePhase::Armed, ..r } == r);
    let head = spec_step(r, evs[0]);
    if i == 0 {
        lemma_run_unarmed(head.0, evs.drop_first());
    } else {
        assert(!terminal_event(r, evs[0]));
        assert(evs.drop_first()[i - 1] == evs[i]);
        assert(forall|j: int|
            0 <= j < i - 1 ==> evs.drop_first()[j] == evs[j + 1] && !terminal_event(
                r,
                evs.drop_first()[j],
            ));
        lemma_first_terminal_decides(r, evs.drop_first(), i - 1);
    }
}

/// A matching line that arrives strictly before any deciding tick wins the
/// race: the matched outcome fires with that line, and no timed-out outcome
/// ever follows.
pub proof fn lemma_match_wins(
    r: RaceModel,
    evs: Seq<RaceEventModel>,
    i: int,
    at_ms: u64,
    line: LogLineModel,
)
    requires
        r.phase is Armed,
        0 <= i < evs.len(),
        evs[i] == (RaceEventModel::Line { at_ms, line }),
        line_resolves(r, line),
        forall|j: int| 0 <= j < i ==> !terminal_event(r, evs[j]),
    ensures
        spec_run(r, evs).1 =~= seq![OutcomeModel::Matched(line)],
{
    assert(RaceModel { phase: RacePhase::Armed, ..r } == r);
    lemma_first_terminal_decides(r, evs, i);
}

/// As long as some matching line stands before every deciding tick in the
/// trace, the race is won by a match: one matched outcome fires, and the
/// timed-out path never does.
pub proof fn lemma_match_beats_deadline(r: RaceModel, evs: Seq<RaceEventModel>, i: int)
    requires
        r.phase is Armed,
        0 <= i < evs.len(),
        evs[i] is Line,
        terminal_event(r, evs[i]),
        forall|j: int| 0 <= j < i ==> !(evs[j] is Tick && terminal_event(r, evs[j])),
    ensures
        spec_run(r, evs).1.len() == 1,
        spec_run(r, evs).1[0] is Matched,
    decreases evs.len(),
{
    assert(RaceModel { phase: RacePhase::Armed, ..r } == r);
    let head = spec_step(r, evs[0]);
    if event_resolves(r, evs[0]) {
        assert(evs[0] is Line);
        lemma_run_unarmed(head.0, evs.drop_first());
    } else {
        assert(i != 0);
        assert(evs.drop_first()[i - 1] == evs[i]);
        assert(forall|j: int|
            0 <= j < i - 1 ==> evs.drop_first()[j] == evs[j + 1] && !(evs.drop_first()[j] is Tick
                && terminal_event(r, evs.drop_first()[j])));
        lemma_match_beats_deadline(r, evs.drop_first(), i - 1);
    }
}

/// If no line matches and no tick reaches the deadline before a tick that
/// does, the race times out: the timed-out outcome fires exactly once, and
/// only a tick at or past the deadline can produce it.
pub proof fn lemma_timeout_fires(r: RaceModel, evs: Seq<RaceEventModel>, i: int, at_ms: u64)
    requires
        r.phase is Armed,
        0 <= i < evs.len(),
        evs[i] == (RaceEventModel::Tick { at_ms }),
        at_ms >= r.deadline_ms,
        forall|j: int| 0 <= j < i ==> !terminal_event(r, evs[j]),
    ensures
        spec_run(r, evs).1 =~= seq![OutcomeModel::TimedOut],
{
    assert(RaceModel { phase: RacePhase::Armed, ..r } == r);
    assert(terminal_event(r, evs[i]));
    lemma_first_terminal_decides(r, evs, i);
}

/// Couples a single-shot pattern filter with a deadline and guarantees
/// exactly one outcome notification.
pub struct CompletionRace {
    phase: RacePhase,
    filter: Option<PatternFilter>,
    deadline_ms: u64,
}

/// The spec-level outcome of an exec step.
pub open spec fn opt_outcome_model(o: Option<LogMatchOutcome>) -> Option<OutcomeModel> {
    match o {
        Some(x) => Some(x@),
        None => None,
    }
}

/// The spec-level content of an event trace.
pub open spec fn events_model(evs: Seq<RaceEvent>) -> Seq<RaceEventModel> {
    evs.map_values(|e: RaceEvent| e@)
}

/// The spec-level content of an outcome sequence.
pub open spec fn outcomes_model(os: Seq<LogMatchOutcome>) -> Seq<OutcomeModel> {
    os.map_values(|o: LogMatchOutcome| o@)
}

impl CompletionRace {
    /// While the race is armed it holds a live single-shot filter.
    pub closed spec fn wf(&self) -> bool {
        self.phase is Armed ==> {
            &&& self.filter matches Some(f)
            &&& f.is_active()
            &&& f.mode() is OneShot
        }
    }

    /// The mathematical state of this race.
    pub closed spec fn model(&self) -> RaceModel {
        RaceModel {
            phase: self.phase,
            pattern: match self.filter {
                Some(f) => Some(f.pattern()),
                None => None,
            },
            scope: match self.filter {
                Some(f) => f.scope(),
                None => FilterScope::All,
            },
            deadline_ms: self.deadline_ms,
        }
    }

    /// A race that has not been armed yet.
    pub fn new() -> (r: CompletionRace)
        ensures
            r.wf(),
            r.model().phase is Idle,
            r.model().pattern is None,
    {
        CompletionRace { phase: RacePhase::Idle, filter: None, deadline_ms: 0 }
    }

    /// Arms the race: registers the single-shot filter and sets the deadline
    /// `timeout_ms` past `now_ms`. A race is armed at most once; resolving
    /// it is final, and a new race needs a new instance.
    pub fn arm(&mut self, f: PatternFilter, now_ms: u64, timeout_ms: u64)
        requires
            old(self).wf(),
            old(self).model().phase is Idle,
            f.is_active(),
            f.mode() is OneShot,
            now_ms + timeout_ms <= u64::MAX,
        ensures
            final(self).wf(),
            final(self).model() == (RaceModel {
                phase: RacePhase::Armed,
                pattern: Some(f.pattern()),
                scope: f.scope(),
                deadline_ms: (now_ms + timeout_ms) as u64,
            }),
    {
        self.deadline_ms = now_ms + timeout_ms;
        self.filter = Some(f);
        self.phase = RacePhase::Armed;
    }

    /// Feeds one event to the race, in arrival order. The returned outcome,
    /// when there is one, is the single notification the race ever emits;
    /// the caller forwards it and the race is resolved for good.
    pub fn step(&mut self, ev: &RaceEvent) -> (out: Option<LogMatchOutcome>)
        requires
            old(self).wf(),
        ensures
            final(self).wf(),
            final(self).model() == spec_step(old(self).model(), ev@).0,
            opt_outcome_model(out) == spec_step(old(self).model(), ev@).1,
    {
        match self.phase {
            RacePhase::Idle => None,
            RacePhase::Resolved => None,
            RacePhase::Armed => {
                match ev {
                    RaceEvent::Line { at_ms: _, line } => {
                        let fired = match &mut self.filter {
                            Some(f) => f.observe(line),
                            None => {
                                proof {
                                    assert(false);
                                }
                                false
                            },
                        };
                        if fired {
                            self.phase = RacePhase::Resolved;
                            Some(LogMatchOutcome::Matched(line.clone()))
                        } else {
                            None
                        }
                    },
                    RaceEvent::Tick { at_ms } => {
                        if *at_ms >= self.deadline_ms {
                            match &mut self.filter {
                                Some(f) => f.release(),
                                None => {},
                            }
                            self.phase = RacePhase::Resolved;
                            Some(LogMatchOutcome::TimedOut)
                        } else {
                            None
                        }
                    },
                }
            },
        }
    }

    /// Whether the race has been decided.
    pub fn is_resolved(&self) -> (b: bool)
        ensures
            b == (self.model().phase is Resolved),
    {
        match self.phase {
            RacePhase::Resolved => true,
            _ => false,
        }
    }

    /// Feeds a whole trace of events, in order, and collects every outcome
    /// notification the race emits along the way.
    pub fn drain(&mut self, events: &Vec<RaceEvent>) -> (outs: Vec<LogMatchOutcome>)
        requires
            old(self).wf(),
        ensures
            final(self).wf(),
            final(self).model() == spec_run(old(self).model(), events_model(events@)).0,
            outcomes_model(outs@) == spec_run(old(self).model(), events_model(events@)).1,
    {
        let ghost m0 = old(self).model();
        let ghost evs = events_model(events@);
        let mut outs: Vec<LogMatchOutcome> = Vec::new();
        let mut i: usize = 0;
        while i < events.len()
            invariant
                self.wf(),
                evs == events_model(events@),
                evs.len() == events@.len(),
                0 <= i <= events@.len(),
                self.model() == spec_run(m0, evs.take(i as int)).0,
                outcomes_model(outs@) == spec_run(m0, evs.take(i as int)).1,
            decreases events@.len() - i,
        {
            let ghost prefix = evs.take(i as int);
            let out = self.step(&events[i]);
            proof {
                lemma_run_snoc(m0, prefix, evs[i as int]);
                assert(evs.take(i as int + 1) =~= prefix.push(evs[i as int]));
            }
            match out {
                Some(o) => {
                    outs.push(o);
                },
                None => {},
            }
            proof {
                assert(outcomes_model(outs@) =~= spec_run(m0, evs.take(i as int + 1)).1);
            }
            i = i + 1;
        }
        proof {
            assert(evs.take(events@.len() as int) =~= evs);
        }
        outs
    }
}

/// How long the log is watched for the SIM-ready phrase before the
/// completion check times out.
pub const SIM_READY_TIMEOUT_MS: u64 = 40000;

/// Arms the race that confirms a carrier-bundle installation: a single-shot
/// watch for the SIM-ready phrase anywhere in the live log, with the
/// deadline `SIM_READY_TIMEOUT_MS` past `now_ms`.
pub fn start_completion_watch(now_ms: u64) -> (r: CompletionRace)
    requires
        now_ms + SIM_READY_TIMEOUT_MS <= u64::MAX,
    ensures
        r.wf(),
        r.model() == (RaceModel {
            phase: RacePhase::Armed,
            pattern: Some(PatternModel::Phrase { needle: "SIM is Ready"@, fold_case: true }),
            scope: FilterScope::All,
            deadline_ms: (now_ms + SIM_READY_TIMEOUT_MS) as u64,
        }),
{
    let mut race = CompletionRace::new();
    race.arm(sim_ready_filter(), now_ms, SIM_READY_TIMEOUT_MS);
    race
}

/// Appending one event to a trace runs the trace, then steps on the event.
pub proof fn lemma_run_snoc(r: RaceModel, evs: Seq<RaceEventModel>, ev: RaceEventModel)
    ensures
        spec_run(r, evs.push(ev)).0 == spec_step(spec_run(r, evs).0, ev).0,
        spec_run(r, evs.push(ev)).1 =~= spec_run(r, evs).1 + match spec_step(
            spec_run(r, evs).0,
            ev,
        ).1 {
            Some(o) => seq![o],
            None => Seq::<OutcomeModel>::empty(),
        },
    decreases evs.len(),
{
    let p = evs.push(ev);
    if evs.len() == 0 {
        assert(p[0] == ev);
        assert(p.drop_first() =~= Seq::<RaceEventModel>::empty());
        assert(spec_run(spec_step(r, ev).0, p.drop_first()).0 == spec_step(r, ev).0);
        assert(spec_run(spec_step(r, ev).0, p.drop_first()).1 =~= Seq::<OutcomeModel>::empty());
        assert(spec_run(r, p).0 == spec_step(r, ev).0);
        assert(spec_run(r, evs).0 == r);
        assert(spec_run(r, evs).1 =~= Seq::<OutcomeModel>::empty());
    } else {
        let s1 = spec_step(r, evs[0]);
        assert(p[0] == evs[0]);
        assert(p.drop_first() =~= evs.drop_first().push(ev));
        lemma_run_snoc(s1.0, evs.drop_first(), ev);
        assert(spec_run(r, p).0 == spec_run(s1.0, p.drop_first()).0);
        assert(spec_run(r, p).1 == match s1.1 {
            Some(o) => seq![o] + spec_run(s1.0, p.drop_first()).1,
            None => spec_run(s1.0, p.drop_first()).1,
        });
        assert(spec_run(r, evs).0 == spec_run(s1.0, evs.drop_first()).0);
        assert(spec_run(r, evs).1 == match s1.1 {
            Some(o) => seq![o] + spec_run(s1.0, evs.drop_first()).1,
            None => spec_run(s1.0, evs.drop_first()).1,
        });
    }
}

} // verus!
