use vstd::prelude::*;

use crate::coordinator::ValidationCoordinator;
use crate::model::{arrivals, run, CoordinatorState, Event};
use crate::reply::settled;

verus! {

/// After any sequence of events from the idle state, every request that
/// arrived is accounted for exactly once: either it holds one outcome in
/// `answered`, or it is pending (current or queued). Nothing is lost and
/// nothing is counted twice.
pub proof fn lemma_every_arrival_accounted(events: Seq<Event>)
    ensures
        run(CoordinatorState::initial(), events).accepted() == arrivals(events).len(),
    decreases events.len(),
{
    if events.len() > 0 {
        lemma_every_arrival_accounted(events.drop_last());
    }
}

/// An outcome, once handed over, is never revised: the answers after a
/// prefix of the events are a prefix of the answers after all of them.
pub proof fn lemma_answers_are_final(events: Seq<Event>, n: int)
    requires
        0 <= n <= events.len(),
    ensures
        ({
            let early = run(CoordinatorState::initial(), events.take(n)).answered;
            let late = run(CoordinatorState::initial(), events).answered;
            early.len() <= late.len() && late.take(early.len() as int) == early
        }),
    decreases events.len(),
{
    let late = run(CoordinatorState::initial(), events).answered;
    if n == events.len() {
        assert(events.take(n) =~= events);
        assert(late.take(late.len() as int) =~= late);
    } else {
        let shorter = events.drop_last();
        assert(shorter.take(n) =~= events.take(n));
        lemma_answers_are_final(shorter, n);
        let mid = run(CoordinatorState::initial(), shorter).answered;
        let early = run(CoordinatorState::initial(), events.take(n)).answered;
        lemma_step_extends_answers(run(CoordinatorState::initial(), shorter), events.last());
        assert(late.take(early.len() as int) =~= mid.take(early.len() as int));
    }
}

/// One step keeps every earlier answer and adds at most one.
pub proof fn lemma_step_extends_answers(s: CoordinatorState, e: Event)
    ensures
        s.answered.len() <= s.step(e).answered.len() <= s.answered.len() + 1,
        s.step(e).answered.take(s.answered.len() as int) == s.answered,
{
    assert(s.answered.push(true).take(s.answered.len() as int) =~= s.answered);
    assert(s.answered.push(false).take(s.answered.len() as int) =~= s.answered);
    assert(s.answered.take(s.answered.len() as int) =~= s.answered);
}

/// The pending requests are always the unanswered arrivals, in arrival
/// order. The current request is therefore the earliest unanswered arrival:
/// a request sent before another is presented no later than it.
pub proof fn lemma_pending_in_arrival_order(events: Seq<Event>)
    ensures
        ({
            let s = run(CoordinatorState::initial(), events);
            &&& s.answered.len() <= arrivals(events).len()
            &&& s.pending == arrivals(events).subrange(
                s.answered.len() as int,
                arrivals(events).len() as int,
            )
        }),
    decreases events.len(),
{
    let s = run(CoordinatorState::initial(), events);
    if events.len() == 0 {
        assert(s.pending =~= arrivals(events).subrange(0, 0));
    } else {
        let shorter = events.drop_last();
        lemma_pending_in_arrival_order(shorter);
        let p = run(CoordinatorState::initial(), shorter);
        let a = arrivals(shorter);
        match events.last() {
            Event::Incoming(r) => {
                assert(s.pending =~= a.push(r).subrange(
                    s.answered.len() as int,
                    (a.len() + 1) as int,
                ));
            },
            _ => {
                if s.answered.len() > p.answered.len() {
                    assert(s.pending =~= a.subrange(s.answered.len() as int, a.len() as int));
                }
            },
        }
    }
}

/// The occupancy (the current request, if any, plus the queue) equals the
/// number of requests that arrived and are not yet answered.
pub proof fn lemma_occupancy_is_outstanding(events: Seq<Event>)
    ensures
        ({
            let s = run(CoordinatorState::initial(), events);
            s.pending.len() == arrivals(events).len() - s.answered.len()
        }),
{
    lemma_every_arrival_accounted(events);
}

/// A decision or a dismissal touches the current request only: every earlier
/// answer stays, at most the current request is answered, and every queued
/// request stays pending, in the same order.
pub proof fn lemma_decision_touches_only_current(s: CoordinatorState, e: Event)
    requires
        !(e is Incoming),
    ensures
        ({
            let t = s.step(e);
            &&& t == s || (s.is_awaiting() && t.answered == s.answered.push(
                t.answered.last(),
            ) && t.pending == s.pending.drop_first())
        }),
{
    let t = s.step(e);
    if t != s {
        assert(t.answered.last() == t.answered[s.answered.len() as int]);
        assert(t.answered =~= s.answered.push(t.answered.last()));
    }
}

/// A second decision aimed at the request that was just decided is ignored.
pub proof fn lemma_duplicate_decision_ignored(
    s: CoordinatorState,
    target: u64,
    first: bool,
    second: bool,
)
    ensures
        s.decide(target, first).decide(target, second) == s.decide(target, first),
{
}

/// Tearing the coordinator down answers nobody: every pending request still
/// holds its caller's reply handle (`pending_handles`, which `accept` and the
/// decisions keep in step with the commands that arrived), that handle is
/// unused, and a caller whose handle is dropped unused concludes `false`.
pub proof fn lemma_teardown_fails_closed(c: &ValidationCoordinator)
    requires
        c.wf(),
    ensures
        c.pending_handles().len() == c@.pending.len(),
        forall|k: int|
            0 <= k < c@.pending.len() ==> {
                &&& #[trigger] c.pending_outcome(k) is None
                &&& !settled(c.pending_outcome(k))
            },
{
    c.lemma_pending_unanswered();
}

} // verus!
