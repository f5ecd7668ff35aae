use omni::channel::{channel, ReceiverHandle};
use omni::coordinator::{RuntimeMessage, ValidationCommand, ValidationCoordinator};
use omni::model::PresenterAction;
use omni::ports::ValidationRequest;
use omni::reply::{outcome_of, ResponseHandle};
use tokio::sync::oneshot;

fn request(title: &str) -> ValidationRequest {
    ValidationRequest { title: title.to_string(), message: format!("approve {}?", title) }
}

fn submit(
    coordinator: &mut ValidationCoordinator,
    title: &str,
) -> (PresenterAction, oneshot::Receiver<bool>) {
    let (command, receiver) = ValidationCommand::new(request(title));
    let (action, answered) = coordinator.update(RuntimeMessage::Incoming(command));
    assert!(answered.is_none());
    (action, receiver)
}

fn current_id(coordinator: &ValidationCoordinator) -> u64 {
    coordinator.current().expect("a current request").id
}

fn current_title(coordinator: &ValidationCoordinator) -> String {
    coordinator.current().expect("a current request").request.title.clone()
}

#[test]
fn three_requests_are_decided_in_arrival_order() {
    let mut c = ValidationCoordinator::new();
    let (a0, mut a) = submit(&mut c, "A");
    let (b0, mut b) = submit(&mut c, "B");
    let (c0, mut cc) = submit(&mut c, "C");
    assert_eq!(a0, PresenterAction::Open);
    assert_eq!(b0, PresenterAction::Unchanged);
    assert_eq!(c0, PresenterAction::Unchanged);
    assert_eq!(current_title(&c), "A");
    assert_eq!(c.queue_len(), 2);

    let id = current_id(&c);
    assert_eq!(c.update(RuntimeMessage::Approved(id)).0, PresenterAction::Refresh);
    assert_eq!(a.try_recv(), Ok(true));
    assert_eq!(current_title(&c), "B");

    let id = current_id(&c);
    assert_eq!(c.update(RuntimeMessage::Rejected(id)).0, PresenterAction::Refresh);
    assert_eq!(b.try_recv(), Ok(false));
    assert_eq!(current_title(&c), "C");

    let id = current_id(&c);
    assert_eq!(c.update(RuntimeMessage::Approved(id)).0, PresenterAction::Close);
    assert_eq!(cc.try_recv(), Ok(true));
    assert!(c.current().is_none());
    assert_eq!(c.queue_len(), 0);
}

#[test]
fn dismissal_rejects_the_only_request_and_goes_idle() {
    let mut c = ValidationCoordinator::new();
    let (opened, mut d) = submit(&mut c, "D");
    assert_eq!(opened, PresenterAction::Open);
    assert_eq!(c.update(RuntimeMessage::Dismissed).0, PresenterAction::Close);
    assert_eq!(d.try_recv(), Ok(false));
    assert!(c.current().is_none());
    assert_eq!(c.update(RuntimeMessage::Dismissed).0, PresenterAction::Unchanged);
}

#[test]
fn dismissal_keeps_the_queue() {
    let mut c = ValidationCoordinator::new();
    let (_, mut first) = submit(&mut c, "first");
    let (_, mut second) = submit(&mut c, "second");
    assert_eq!(c.dismiss().0, PresenterAction::Refresh);
    assert_eq!(first.try_recv(), Ok(false));
    assert!(second.try_recv().is_err());
    assert_eq!(current_title(&c), "second");
}

#[test]
fn duplicate_approval_is_ignored() {
    let mut c = ValidationCoordinator::new();
    let (_, mut a) = submit(&mut c, "A");
    let (_, mut b) = submit(&mut c, "B");
    let id = current_id(&c);
    assert_eq!(c.update(RuntimeMessage::Approved(id)).0, PresenterAction::Refresh);
    assert_eq!(c.update(RuntimeMessage::Approved(id)).0, PresenterAction::Unchanged);
    assert_eq!(a.try_recv(), Ok(true));
    assert!(b.try_recv().is_err());
    assert_eq!(current_title(&c), "B");
    assert_eq!(c.queue_len(), 0);
}

#[test]
fn decision_for_a_queued_request_is_ignored() {
    let mut c = ValidationCoordinator::new();
    let (_, mut a) = submit(&mut c, "A");
    let (_, mut b) = submit(&mut c, "B");
    let queued = current_id(&c) + 1;
    assert_eq!(c.handle_decision(queued, true).0, PresenterAction::Unchanged);
    assert!(a.try_recv().is_err());
    assert!(b.try_recv().is_err());
    assert_eq!(current_title(&c), "A");
    assert_eq!(c.queue_len(), 1);
}

#[test]
fn decision_while_idle_changes_nothing() {
    let mut c = ValidationCoordinator::new();
    assert_eq!(c.handle_decision(0, true).0, PresenterAction::Unchanged);
    assert!(c.current().is_none());
    let (action, _r) = submit(&mut c, "late");
    assert_eq!(action, PresenterAction::Open);
    assert_eq!(current_id(&c), 0);
}

#[test]
fn teardown_rejects_every_unresolved_request() {
    let mut c = ValidationCoordinator::new();
    let mut receivers = Vec::new();
    for i in 0..4 {
        let (_, r) = submit(&mut c, &format!("r{}", i));
        receivers.push(r);
    }
    drop(c);
    for mut r in receivers {
        assert!(r.try_recv().is_err());
        assert!(!outcome_of(r.try_recv().ok()));
    }
}

#[test]
fn every_submission_gets_exactly_one_answer() {
    let (adapter, mut daemon) = channel();
    let mut waiting = Vec::new();
    for i in 0..10 {
        let r = adapter.request_validation(request(&format!("q{}", i))).ok().expect("channel open");
        waiting.push(r);
    }
    let mut commands = daemon.receiver.take().expect("first take");
    let mut c = ValidationCoordinator::new();
    let mut order = Vec::new();
    while let Ok(command) = commands.try_recv() {
        c.update(RuntimeMessage::Incoming(command));
    }
    let mut approve = true;
    while let Some(p) = c.current() {
        order.push(p.request.title.clone());
        let id = p.id;
        let msg = if approve { RuntimeMessage::Approved(id) } else { RuntimeMessage::Rejected(id) };
        c.update(msg);
        approve = !approve;
    }
    let expected: Vec<String> = (0..10).map(|i| format!("q{}", i)).collect();
    assert_eq!(order, expected);
    for (i, mut r) in waiting.into_iter().enumerate() {
        assert_eq!(r.try_recv(), Ok(i % 2 == 0));
        assert!(r.try_recv().is_err());
    }
}

#[test]
fn submission_to_a_closed_channel_fails_at_once() {
    let (adapter, daemon) = channel();
    drop(daemon);
    match adapter.request_validation(request("x")) {
        Ok(_) => panic!("a closed channel accepted a command"),
        Err(unsent) => assert_eq!(unsent.request().title, "x"),
    }
}

#[test]
fn receiver_is_handed_over_once() {
    let (_adapter, mut daemon) = channel();
    assert!(daemon.receiver.take().is_some());
    assert!(daemon.receiver.take().is_none());
    let (_tx, rx) = tokio::sync::mpsc::unbounded_channel();
    let mut handle = ReceiverHandle::new(rx);
    assert!(handle.take().is_some());
    assert!(handle.take().is_none());
}

#[test]
fn response_handle_delivers_only_the_first_outcome() {
    let (tx, mut rx) = oneshot::channel();
    let mut handle = ResponseHandle::new(tx);
    handle.respond(true);
    handle.respond(false);
    assert_eq!(rx.try_recv(), Ok(true));
}

#[test]
fn response_to_a_departed_waiter_is_harmless() {
    let (tx, rx) = oneshot::channel();
    drop(rx);
    let mut handle = ResponseHandle::new(tx);
    handle.respond(true);
    handle.respond(false);
}

#[test]
fn outcome_is_fail_closed() {
    assert!(outcome_of(Some(true)));
    assert!(!outcome_of(Some(false)));
    assert!(!outcome_of(None));
}

#[test]
fn command_keeps_its_request() {
    let (command, _r) = ValidationCommand::new(request("kept"));
    assert_eq!(command.request().title, "kept");
    assert_eq!(command.request().message, "approve kept?");
}

#[test]
fn accept_reports_room_for_more() {
    let c = ValidationCoordinator::new();
    assert!(c.can_accept());
}

#[test]
fn decision_hands_back_the_answered_request() {
    let mut c = ValidationCoordinator::new();
    let (_, mut a) = submit(&mut c, "A");
    let (_, _b) = submit(&mut c, "B");
    let id = current_id(&c);
    let (action, answered) = c.update(RuntimeMessage::Rejected(id));
    assert_eq!(action, PresenterAction::Refresh);
    let answered = answered.expect("the current request was answered");
    assert_eq!(answered.id, id);
    assert_eq!(answered.request.title, "A");
    assert_eq!(a.try_recv(), Ok(false));
    let (action, ignored) = c.update(RuntimeMessage::Rejected(id));
    assert_eq!(action, PresenterAction::Unchanged);
    assert!(ignored.is_none());
    let (action, dismissed) = c.dismiss();
    assert_eq!(action, PresenterAction::Close);
    assert_eq!(dismissed.expect("B was current").request.title, "B");
}
