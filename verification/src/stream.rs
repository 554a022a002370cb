//! The live log stream fan-out.
//!
//! A `LogStream` delivers every incoming line to every active registered
//! filter, in subscription order, until the subscription is released. A
//! one-shot filter that fires drops out by itself; releasing a subscription
//! that is already gone is a no-op.

use vstd::prelude::*;

use crate::filter::LogLine;
use crate::filter::LogLineModel;
use crate::filter::PatternFilter;

verus! {

/// How a filter looks after one line was delivered to it: the pattern is
/// untouched; it stays active unless it was a one-shot that fired.
pub open spec fn observed(f0: PatternFilter, f1: PatternFilter, line: LogLineModel) -> bool {
    &&& f1.pattern() == f0.pattern()
    &&& f1.mode() == f0.mode()
    &&& f1.scope() == f0.scope()
    &&& f1.is_active() == (f0.is_active() && !(f0.is_active() && f0.hits(line)
        && f0.mode() is OneShot))
}

/// How a filter looks after its subscription was released: never active
/// again, untouched otherwise; releasing an inactive one changes nothing.
pub open spec fn released(f0: PatternFilter, f1: PatternFilter) -> bool {
    &&& f1.pattern() == f0.pattern()
    &&& f1.mode() == f0.mode()
    &&& f1.scope() == f0.scope()
    &&& !f1.is_active()
    &&& (!f0.is_active() ==> f1 == f0)
}

/// Fans incoming log lines out to registered filters.
pub struct LogStream {
    filters: Vec<PatternFilter>,
}

impl LogStream {
    /// The registered filters, by subscription handle.
    pub closed spec fn filters_seq(&self) -> Seq<PatternFilter> {
        self.filters@
    }

    /// A stream with no subscriptions.
    pub fn new() -> (s: LogStream)
        ensures
            s.filters_seq() =~= Seq::<PatternFilter>::empty(),
    {
        LogStream { filters: Vec::new() }
    }

    /// Registers a filter; the returned handle names its subscription.
    pub fn subscribe(&mut self, f: PatternFilter) -> (id: usize)
        ensures
            final(self).filters_seq() == old(self).filters_seq().push(f),
            id == old(self).filters_seq().len(),
    {
        let id = self.filters.len();
        self.filters.push(f);
        id
    }

    /// Releases a subscription. A handle that names no subscription, or one
    /// already released or consumed, is left alone: releasing twice is a
    /// no-op, not an error.
    pub fn unsubscribe(&mut self, id: usize)
        ensures
            final(self).filters_seq().len() == old(self).filters_seq().len(),
            forall|i: int|
                0 <= i < old(self).filters_seq().len() && i != id ==> final(self).filters_seq()[i]
                    == old(self).filters_seq()[i],
            id < old(self).filters_seq().len() ==> released(
                old(self).filters_seq()[id as int],
                final(self).filters_seq()[id as int],
            ),
    {
        if id < self.filters.len() {
            let ghost before = self.filters@;
            let mut f = self.filters.remove(id);
            f.release();
            self.filters.insert(id, f);
            proof {
                assert(self.filters@ =~= before.update(id as int, f));
            }
        }
    }

    /// Delivers one line to every filter, in subscription order: the result
    /// lists, in increasing order, exactly the handles of the filters that
    /// were active and matched; each one-shot among them is now consumed.
    pub fn deliver(&mut self, line: &LogLine) -> (fired: Vec<usize>)
        ensures
            final(self).filters_seq().len() == old(self).filters_seq().len(),
            forall|i: int|
                0 <= i < old(self).filters_seq().len() ==> observed(
                    old(self).filters_seq()[i],
                    final(self).filters_seq()[i],
                    line@,
                ),
            forall|j: int|
                0 <= j < fired@.len() ==> fired@[j] < old(self).filters_seq().len() && old(
                    self,
                ).filters_seq()[fired@[j] as int].is_active() && old(
                    self,
                ).filters_seq()[fired@[j] as int].hits(line@),
            forall|i: int|
                0 <= i < old(self).filters_seq().len() && old(self).filters_seq()[i].is_active()
                    && old(self).filters_seq()[i].hits(line@) ==> fired@.contains(i as usize),
            forall|a: int, b: int| 0 <= a < b < fired@.len() ==> fired@[a] < fired@[b],
    {
        let ghost fs0 = old(self).filters_seq();
        let mut done: Vec<PatternFilter> = Vec::new();
        let mut fired: Vec<usize> = Vec::new();
        while self.filters.len() > 0
            invariant
                done@.len() + self.filters@.len() == fs0.len(),
                self.filters@ =~= fs0.skip(done@.len() as int),
                forall|i: int| 0 <= i < done@.len() ==> observed(fs0[i], done@[i], line@),
                forall|j: int|
                    0 <= j < fired@.len() ==> fired@[j] < done@.len() && fs0[fired@[j] as int].is_active()
                        && fs0[fired@[j] as int].hits(line@),
                forall|i: int|
                    0 <= i < done@.len() && fs0[i].is_active() && fs0[i].hits(line@)
                        ==> fired@.contains(i as usize),
                forall|a: int, b: int| 0 <= a < b < fired@.len() ==> fired@[a] < fired@[b],
            decreases self.filters@.len(),
        {
            let ghost k = done@.len() as int;
            let mut f = self.filters.remove(0);
            proof {
                assert(self.filters@ =~= fs0.skip(k).drop_first());
                assert(fs0.skip(k).drop_first() =~= fs0.skip(k + 1));
                assert(f == fs0[k]);
            }
            let idx = done.len();
            let ghost fired0 = fired@;
            let hit = f.observe(line);
            if hit {
                fired.push(idx);
            }
            done.push(f);
            proof {
                assert forall|i: int|
                    0 <= i < done@.len() && fs0[i].is_active() && fs0[i].hits(
                        line@,
                    ) implies fired@.contains(i as usize) by {
                    if i < k {
                        assert(fired0.contains(i as usize));
                        let j = choose|j: int|
                            0 <= j < fired0.len() && fired0[j] == i as usize;
                        assert(fired@[j] == i as usize);
                    } else {
                        assert(hit);
                        assert(fired@[fired@.len() - 1] == k as usize);
                    }
                }
            }
        }
        self.filters = done;
        fired
    }
}

} // verus!
