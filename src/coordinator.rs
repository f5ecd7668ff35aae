use vstd::prelude::*;

use crate::model::{CoordinatorState, Event, PresenterAction};
use crate::ports::ValidationRequest;
use crate::reply::ResponseHandle;

verus! {

/// A request in transit on the command channel, with the handle that answers
/// its caller. A command always carries a handle that has not been used.
pub struct ValidationCommand {
    request: ValidationRequest,
    respond_to: ResponseHandle,
}

impl ValidationCommand {
    #[verifier::type_invariant]
    spec fn inv(self) -> bool {
        self.respond_to.is_armed()
    }

    pub closed spec fn request_view(&self) -> crate::model::RequestView {
        self.request@
    }

    /// The identity of the command's reply handle.
    pub closed spec fn reply_identity(&self) -> tokio::sync::oneshot::Sender<bool> {
        self.respond_to.identity()
    }

    /// The command's reply handle has not been used.
    pub closed spec fn reply_is_unused(&self) -> bool {
        self.respond_to.is_armed()
    }

    /// Packages `request` with a fresh reply handle; the receiver is what the
    /// caller waits on.
    pub fn new(request: ValidationRequest) -> (r: (
        ValidationCommand,
        tokio::sync::oneshot::Receiver<bool>,
    ))
        ensures
            r.0.request_view() == request@,
            r.0.reply_is_unused(),
    {
        let (sender, receiver) = tokio::sync::oneshot::channel();
        let command = ValidationCommand { request, respond_to: ResponseHandle::new(sender) };
        (command, receiver)
    }

    pub fn request(&self) -> (r: &ValidationRequest)
        ensures
            r@ == self.request_view(),
    {
        &self.request
    }

    fn into_parts(self) -> (r: (ValidationRequest, ResponseHandle))
        ensures
            r.0@ == self.request_view(),
            r.1.is_armed(),
            r.1.identity() == self.reply_identity(),
    {
        proof {
            use_type_invariant(&self);
        }
        let ValidationCommand { request, respond_to } = self;
        (request, respond_to)
    }
}

/// A request once the coordinator has accepted it, numbered in arrival order.
pub struct PendingRequest {
    pub id: u64,
    pub request: ValidationRequest,
    pub respond_to: ResponseHandle,
}

/// Whether `done` is the request answered on the way from `before` to
/// `after`: when a request was answered, `done` is that request (the current
/// one of `before`), and its reply handle holds the recorded answer; when none
/// was, `done` is `None`.
pub open spec fn hands_back_answered(
    before: CoordinatorState,
    after: CoordinatorState,
    done: Option<PendingRequest>,
) -> bool {
    if after.answered.len() > before.answered.len() {
        &&& done matches Some(p)
        &&& p.id == before.answered.len()
        &&& p.request@ == before.pending[0]
        &&& p.respond_to.outcome() == Some(after.answered.last())
    } else {
        done is None
    }
}

/// Whether the pending reply handles went from `before` to `after` with
/// `done` answered: when a request was handed back, it holds the first handle
/// and the rest keep their order; otherwise nothing changed.
pub open spec fn keeps_other_handles(
    before: Seq<tokio::sync::oneshot::Sender<bool>>,
    after: Seq<tokio::sync::oneshot::Sender<bool>>,
    done: Option<PendingRequest>,
) -> bool {
    match done {
        Some(p) => before.len() > 0 && p.respond_to.identity() == before[0] && after
            == before.drop_first(),
        None => after == before,
    }
}

/// A message to the coordinator's event loop.
pub enum RuntimeMessage {
    Incoming(ValidationCommand),
    /// The operator approved the request with this number.
    Approved(u64),
    /// The operator rejected the request with this number.
    Rejected(u64),
    /// The presenter was closed outside its controls.
    Dismissed,
}

impl RuntimeMessage {
    pub open spec fn event(&self) -> Event {
        match self {
            RuntimeMessage::Incoming(c) => Event::Incoming(c.request_view()),
            RuntimeMessage::Approved(id) => Event::Decision(*id, true),
            RuntimeMessage::Rejected(id) => Event::Decision(*id, false),
            RuntimeMessage::Dismissed => Event::Dismissed,
        }
    }
}

/// Owner of the pending requests: at most one current request, shown by the
/// presenter, and a FIFO queue behind it.
pub struct ValidationCoordinator {
    current: Option<PendingRequest>,
    queue: std::collections::VecDeque<PendingRequest>,
    next_id: u64,
    answered: Ghost<Seq<bool>>,
}

impl ValidationCoordinator {
    /// Current request first, then the queue.
    pub closed spec fn pending_items(&self) -> Seq<PendingRequest> {
        match self.current {
            Some(c) => seq![c] + self.queue@,
            None => Seq::empty(),
        }
    }

    /// The identities of the pending reply handles: current first, then the
    /// queue.
    pub closed spec fn pending_handles(&self) -> Seq<tokio::sync::oneshot::Sender<bool>> {
        self.pending_items().map_values(|p: PendingRequest| p.respond_to.identity())
    }

    /// The outcome held by the reply handle of the `k`-th pending request.
    pub closed spec fn pending_outcome(&self, k: int) -> Option<bool> {
        self.pending_items()[k].respond_to.outcome()
    }

    /// The queue is empty when nothing is current; pending requests are
    /// numbered consecutively from the first unanswered one; every pending
    /// reply handle is unused.
    pub closed spec fn wf(&self) -> bool {
        &&& self.current.is_none() ==> self.queue@.len() == 0
        &&& self.next_id == self.answered@.len() + self.pending_items().len()
        &&& forall|k: int|
            0 <= k < self.pending_items().len() ==> {
                &&& #[trigger] self.pending_items()[k].id == self.answered@.len() + k
                &&& self.pending_items()[k].respond_to.is_armed()
            }
    }
}

impl ValidationCoordinator {
    /// Every pending request still holds its reply handle, unused.
    pub proof fn lemma_pending_unanswered(&self)
        requires
            self.wf(),
        ensures
            self.pending_handles().len() == self@.pending.len(),
            forall|k: int| 0 <= k < self@.pending.len() ==> #[trigger] self.pending_outcome(k) is None,
    {
        assert forall|k: int| 0 <= k < self@.pending.len() implies #[trigger] self.pending_outcome(k) is None by {
            assert(self.pending_items()[k].id == self.answered@.len() + k);
        }
    }
}

impl View for ValidationCoordinator {
    type V = CoordinatorState;

    closed spec fn view(&self) -> CoordinatorState {
        CoordinatorState {
            answered: self.answered@,
            pending: self.pending_items().map_values(|p: PendingRequest| p.request@),
        }
    }
}

impl ValidationCoordinator {
    /// The idle coordinator: nothing current, nothing queued.
    pub fn new() -> (r: Self)
        ensures
            r.wf(),
            r@ == CoordinatorState::initial(),
    {
        let r = ValidationCoordinator {
            current: None,
            queue: std::collections::VecDeque::new(),
            next_id: 0,
            answered: Ghost(Seq::empty()),
        };
        assert(r@.pending =~= Seq::empty());
        r
    }

    /// Whether one more request can be numbered.
    pub fn can_accept(&self) -> (r: bool)
        requires
            self.wf(),
        ensures
            r == (self@.accepted() < u64::MAX),
    {
        self.next_id < u64::MAX
    }

    /// The request on display, if any.
    pub fn current(&self) -> (r: Option<&PendingRequest>)
        requires
            self.wf(),
        ensures
            r is None <==> !self@.is_awaiting(),
            r matches Some(p) ==> p.id == self@.answered.len() && p.request@ == self@.pending[0]
                && p.respond_to.identity() == self.pending_handles()[0],
    {
        match &self.current {
            Some(c) => {
                assert(self.pending_items()[0] == *c);
                assert(self.pending_items()[0].id == self@.answered.len() + 0);
                Some(c)
            },
            None => None,
        }
    }

    /// Number of requests waiting behind the current one.
    pub fn queue_len(&self) -> (r: usize)
        requires
            self.wf(),
        ensures
            self@.is_awaiting() ==> r == self@.pending.len() - 1,
            !self@.is_awaiting() ==> r == 0,
    {
        self.queue.len()
    }

    /// Accepts a command: it becomes current when nothing is on display
    /// (and the presenter opens), and joins the tail of the queue otherwise.
    pub fn accept(&mut self, command: ValidationCommand) -> (action: PresenterAction)
        requires
            old(self).wf(),
            old(self)@.accepted() < u64::MAX,
        ensures
            final(self).wf(),
            final(self)@ == old(self)@.accept(command.request_view()),
            final(self).pending_handles() == old(self).pending_handles().push(
                command.reply_identity(),
            ),
            action == old(self)@.action_to(final(self)@),
    {
        let ghost before = self.pending_items();
        let (request, respond_to) = command.into_parts();
        let item = PendingRequest { id: self.next_id, request, respond_to };
        self.next_id = self.next_id + 1;
        let action = if self.current.is_none() {
            self.current = Some(item);
            PresenterAction::Open
        } else {
            self.queue.push_back(item);
            PresenterAction::Unchanged
        };
        assert(self.pending_items() =~= before.push(item));
        assert(self@.pending =~= old(self)@.pending.push(item.request@));
        assert(self.pending_handles() =~= old(self).pending_handles().push(
            command.reply_identity(),
        ));
        action
    }

    /// Answers the current request with `approved` when `target` is its
    /// number, and promotes the head of the queue; any other target is
    /// ignored. Queued requests are never answered here. The answered
    /// request is handed back, its reply handle spent on `approved`.
    pub fn handle_decision(&mut self, target: u64, approved: bool) -> (r: (
        PresenterAction,
        Option<PendingRequest>,
    ))
        requires
            old(self).wf(),
        ensures
            final(self).wf(),
            final(self)@ == old(self)@.decide(target, approved),
            r.0 == old(self)@.action_to(final(self)@),
            hands_back_answered(old(self)@, final(self)@, r.1),
            r.1 matches Some(p) ==> p.respond_to.outcome() == Some(approved),
            keeps_other_handles(old(self).pending_handles(), final(self).pending_handles(), r.1),
    {
        let ghost before = self.pending_items();
        let is_target = match &self.current {
            Some(c) => c.id == target,
            None => false,
        };
        if !is_target {
            proof {
                if self.current.is_some() {
                    assert(before[0] == self.current->Some_0);
                    assert(before[0].id == self.answered@.len() + 0);
                }
            }
            return (PresenterAction::Unchanged, None);
        }
        proof {
            assert(before[0].id == self.answered@.len() + 0);
        }
        match self.current.take() {
            Some(mut current) => {
                proof {
                    assert(current == before[0]);
                }
                current.respond_to.respond(approved);
                self.answered = Ghost(self.answered@.push(current.respond_to.outcome()->Some_0));
                let action = match self.queue.pop_front() {
                    Some(next) => {
                        self.current = Some(next);
                        PresenterAction::Refresh
                    },
                    None => PresenterAction::Close,
                };
                proof {
                    let after = self.pending_items();
                    assert(after =~= before.drop_first());
                    assert forall|k: int| 0 <= k < after.len() implies {
                        &&& #[trigger] after[k].id == self.answered@.len() + k
                        &&& after[k].respond_to.is_armed()
                    } by {
                        assert(after[k] == before[k + 1]);
                        assert(old(self).pending_items()[k + 1].id == old(self).answered@.len() + (k + 1));
                    }
                    assert(self@.pending =~= old(self)@.pending.drop_first());
                    assert(self.pending_handles() =~= old(self).pending_handles().drop_first());
                    assert(current.id == before[0].id);
                    assert(current.request == before[0].request);
                }
                (action, Some(current))
            },
            None => (PresenterAction::Unchanged, None),
        }
    }

    /// The presenter was closed by the user: the current request, if any, is
    /// rejected; queued requests stay and are presented next.
    /// The rejected request is handed back, its reply handle spent on `false`.
    pub fn dismiss(&mut self) -> (r: (PresenterAction, Option<PendingRequest>))
        requires
            old(self).wf(),
        ensures
            final(self).wf(),
            final(self)@ == old(self)@.dismiss(),
            r.0 == old(self)@.action_to(final(self)@),
            hands_back_answered(old(self)@, final(self)@, r.1),
            r.1 matches Some(p) ==> p.respond_to.outcome() == Some(false),
            keeps_other_handles(old(self).pending_handles(), final(self).pending_handles(), r.1),
    {
        let current_id = match &self.current {
            Some(c) => Some(c.id),
            None => None,
        };
        match current_id {
            Some(id) => {
                proof {
                    assert(self.pending_items()[0].id == self.answered@.len() + 0);
                }
                self.handle_decision(id, false)
            },
            None => (PresenterAction::Unchanged, None),
        }
    }

    /// Applies one message to the state machine. The request it answered,
    /// if any, is handed back with its reply handle spent.
    pub fn update(&mut self, message: RuntimeMessage) -> (r: (
        PresenterAction,
        Option<PendingRequest>,
    ))
        requires
            old(self).wf(),
            message is Incoming ==> old(self)@.accepted() < u64::MAX,
        ensures
            final(self).wf(),
            final(self)@ == old(self)@.step(message.event()),
            r.0 == old(self)@.action_to(final(self)@),
            hands_back_answered(old(self)@, final(self)@, r.1),
            message matches RuntimeMessage::Incoming(c) ==> final(self).pending_handles()
                == old(self).pending_handles().push(c.reply_identity()),
            !(message is Incoming) ==> keeps_other_handles(
                old(self).pending_handles(),
                final(self).pending_handles(),
                r.1,
            ),
    {
        match message {
            RuntimeMessage::Incoming(command) => (self.accept(command), None),
            RuntimeMessage::Approved(id) => self.handle_decision(id, true),
            RuntimeMessage::Rejected(id) => self.handle_decision(id, false),
            RuntimeMessage::Dismissed => self.dismiss(),
        }
    }
}

} // verus!
