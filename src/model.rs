use vstd::prelude::*;

verus! {

/// The displayable content of a request, as mathematical strings.
pub struct RequestView {
    pub title: Seq<char>,
    pub message: Seq<char>,
}

/// The abstract state of the coordinator.
///
/// Requests are numbered in order of arrival, from zero. `answered[i]` is the
/// outcome handed to request `i`; `pending` holds the requests that are
/// accepted and not yet answered, in arrival order. Its first element, when
/// there is one, is the current request (the one on display); the rest is the
/// queue. So request `answered.len() + k` is `pending[k]`.
pub struct CoordinatorState {
    pub answered: Seq<bool>,
    pub pending: Seq<RequestView>,
}

/// What the presenter is told to do after an event.
#[derive(Debug, PartialEq, Eq, Structural)]
pub enum PresenterAction {
    /// Nothing was on display; open the surface and show the current request.
    Open,
    /// The current request changed; show the new one.
    Refresh,
    /// Nothing is left to decide; close the surface.
    Close,
    /// The display stays as it is.
    Unchanged,
}

/// An event as the abstract state machine sees it.
pub enum Event {
    /// A request arrived on the command channel.
    Incoming(RequestView),
    /// The operator approved (`true`) or rejected (`false`) the request with
    /// the given number.
    Decision(u64, bool),
    /// The presenter was closed outside the approve and reject controls.
    Dismissed,
}

impl CoordinatorState {
    pub open spec fn initial() -> CoordinatorState {
        CoordinatorState { answered: Seq::empty(), pending: Seq::empty() }
    }

    /// Number of requests accepted so far, answered or not.
    pub open spec fn accepted(self) -> nat {
        self.answered.len() + self.pending.len()
    }

    /// Whether a request is on display (the `Awaiting` state).
    pub open spec fn is_awaiting(self) -> bool {
        self.pending.len() > 0
    }

    /// The number of the current request, if any.
    pub open spec fn current_id(self) -> Option<nat> {
        if self.is_awaiting() {
            Some(self.answered.len())
        } else {
            None
        }
    }

    /// A request joins the end of the pending sequence: it becomes current
    /// when none was, and is queued otherwise.
    pub open spec fn accept(self, r: RequestView) -> CoordinatorState {
        CoordinatorState { answered: self.answered, pending: self.pending.push(r) }
    }

    /// The current request receives `approved`, and the head of the queue
    /// (if any) becomes current.
    pub open spec fn resolve_current(self, approved: bool) -> CoordinatorState {
        CoordinatorState {
            answered: self.answered.push(approved),
            pending: self.pending.drop_first(),
        }
    }

    /// A decision counts only when it targets the current request.
    pub open spec fn decide(self, target: u64, approved: bool) -> CoordinatorState {
        if self.current_id() == Some(target as nat) {
            self.resolve_current(approved)
        } else {
            self
        }
    }

    /// A dismissal rejects the current request, if there is one; queued
    /// requests stay.
    pub open spec fn dismiss(self) -> CoordinatorState {
        if self.is_awaiting() {
            self.resolve_current(false)
        } else {
            self
        }
    }

    pub open spec fn step(self, e: Event) -> CoordinatorState {
        match e {
            Event::Incoming(r) => self.accept(r),
            Event::Decision(target, approved) => self.decide(target, approved),
            Event::Dismissed => self.dismiss(),
        }
    }

    /// What the presenter is told when the state goes from `self` to `next`.
    pub open spec fn action_to(self, next: CoordinatorState) -> PresenterAction {
        if !self.is_awaiting() && next.is_awaiting() {
            PresenterAction::Open
        } else if self.is_awaiting() && next.answered.len() > self.answered.len() {
            if next.is_awaiting() {
                PresenterAction::Refresh
            } else {
                PresenterAction::Close
            }
        } else {
            PresenterAction::Unchanged
        }
    }
}

/// The state reached from `s` after the events, in order.
pub open spec fn run(s: CoordinatorState, events: Seq<Event>) -> CoordinatorState
    decreases events.len(),
{
    if events.len() == 0 {
        s
    } else {
        run(s, events.drop_last()).step(events.last())
    }
}

/// The requests that arrive among the events, in arrival order.
pub open spec fn arrivals(events: Seq<Event>) -> Seq<RequestView>
    decreases events.len(),
{
    if events.len() == 0 {
        Seq::empty()
    } else {
        let earlier = arrivals(events.drop_last());
        match events.last() {
            Event::Incoming(r) => earlier.push(r),
            _ => earlier,
        }
    }
}

} // verus!
