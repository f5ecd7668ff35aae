use vstd::prelude::*;

use crate::coordinator::ValidationCommand;
use crate::ports::ValidationRequest;

verus! {

#[verifier::external_type_specification]
#[verifier::external_body]
#[verifier::reject_recursive_types(T)]
pub struct ExUnboundedSender<T>(tokio::sync::mpsc::UnboundedSender<T>);

#[verifier::external_type_specification]
#[verifier::external_body]
#[verifier::reject_recursive_types(T)]
pub struct ExUnboundedReceiver<T>(tokio::sync::mpsc::UnboundedReceiver<T>);

#[verifier::external_type_specification]
#[verifier::reject_recursive_types(T)]
pub struct ExSendError<T>(tokio::sync::mpsc::error::SendError<T>);

/// Relies on tokio's `mpsc::unbounded_channel`: a fresh pair of connected
/// halves of an unbounded multi-producer, single-consumer channel.
pub assume_specification<T>[ tokio::sync::mpsc::unbounded_channel::<T> ]() -> (
    tokio::sync::mpsc::UnboundedSender<T>,
    tokio::sync::mpsc::UnboundedReceiver<T>,
);

/// Relies on tokio's `UnboundedSender::send`: it never blocks, and when the
/// receiving half is closed the error carries the message back.
pub assume_specification<T>[ tokio::sync::mpsc::UnboundedSender::<T>::send ](
    sender: &tokio::sync::mpsc::UnboundedSender<T>,
    message: T,
) -> (r: Result<(), tokio::sync::mpsc::error::SendError<T>>)
    ensures
        r matches Err(e) ==> e.0 == message,
;

/// Relies on tokio's `Clone` for `UnboundedSender`: another producer handle
/// on the same channel.
pub assume_specification<T>[ <tokio::sync::mpsc::UnboundedSender<T> as Clone>::clone ](
    sender: &tokio::sync::mpsc::UnboundedSender<T>,
) -> tokio::sync::mpsc::UnboundedSender<T>;

/// The producing side of the command channel, used by any number of callers.
#[derive(Clone)]
pub struct IcedNotificationAdapter {
    pub sender: tokio::sync::mpsc::UnboundedSender<ValidationCommand>,
}

impl IcedNotificationAdapter {
    /// Packages `request` with a fresh reply handle and sends it to the
    /// coordinator. Returns the receiver to wait on, or, when the coordinator
    /// is gone, the unsent command (the caller then concludes `false` at
    /// once, without waiting).
    pub fn request_validation(&self, request: ValidationRequest) -> (r: Result<
        tokio::sync::oneshot::Receiver<bool>,
        ValidationCommand,
    >)
        ensures
            r matches Err(c) ==> c.request_view() == request@ && c.reply_is_unused(),
    {
        let (command, response) = ValidationCommand::new(request);
        match self.sender.send(command) {
            Ok(()) => Ok(response),
            Err(e) => Err(e.0),
        }
    }
}

/// The consuming end of the command channel, handed over once.
pub struct ReceiverHandle {
    receiver: Option<tokio::sync::mpsc::UnboundedReceiver<ValidationCommand>>,
}

impl ReceiverHandle {
    /// The consuming end still held, if it has not been taken.
    pub closed spec fn held(&self) -> Option<
        tokio::sync::mpsc::UnboundedReceiver<ValidationCommand>,
    > {
        self.receiver
    }

    /// Whether the consuming end is still here to be taken.
    pub open spec fn is_available(&self) -> bool {
        self.held() is Some
    }

    pub fn new(receiver: tokio::sync::mpsc::UnboundedReceiver<ValidationCommand>) -> (r: Self)
        ensures
            r.held() == Some(receiver),
    {
        ReceiverHandle { receiver: Some(receiver) }
    }

    /// Hands the consuming end over on the first call; every later call
    /// returns `None`, so traffic is never split between two consumers.
    pub fn take(&mut self) -> (r: Option<tokio::sync::mpsc::UnboundedReceiver<ValidationCommand>>)
        ensures
            r == old(self).held(),
            final(self).held() is None,
    {
        self.receiver.take()
    }
}

/// The consuming side, run by the presentation loop.
pub struct NotificationDaemon {
    pub receiver: ReceiverHandle,
}

/// Builds the adapter and the daemon around the two halves of one channel.
pub fn new_iced_notification_adapter(
    halves: (
        tokio::sync::mpsc::UnboundedSender<ValidationCommand>,
        tokio::sync::mpsc::UnboundedReceiver<ValidationCommand>,
    ),
) -> (r: (IcedNotificationAdapter, NotificationDaemon))
    ensures
        r.0.sender == halves.0,
        r.1.receiver.held() == Some(halves.1),
{
    let (sender, receiver) = halves;
    let adapter = IcedNotificationAdapter { sender };
    let daemon = NotificationDaemon { receiver: ReceiverHandle::new(receiver) };
    (adapter, daemon)
}

/// Opens a fresh command channel and returns its producing and consuming
/// sides.
pub fn channel() -> (r: (IcedNotificationAdapter, NotificationDaemon))
    ensures
        r.1.receiver.is_available(),
{
    new_iced_notification_adapter(tokio::sync::mpsc::unbounded_channel())
}

} // verus!
