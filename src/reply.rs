use vstd::prelude::*;

verus! {

#[verifier::external_type_specification]
#[verifier::external_body]
#[verifier::reject_recursive_types(T)]
pub struct ExOneshotSender<T>(tokio::sync::oneshot::Sender<T>);

#[verifier::external_type_specification]
#[verifier::external_body]
#[verifier::reject_recursive_types(T)]
pub struct ExOneshotReceiver<T>(tokio::sync::oneshot::Receiver<T>);

#[verifier::external_type_specification]
#[verifier::external_body]
pub struct ExOneshotRecvError(tokio::sync::oneshot::error::RecvError);

/// Relies on tokio's `oneshot::channel`: a fresh pair of connected halves.
pub assume_specification<T>[ tokio::sync::oneshot::channel::<T> ]() -> (
    tokio::sync::oneshot::Sender<T>,
    tokio::sync::oneshot::Receiver<T>,
);

/// Relies on tokio's `oneshot::Sender::send`: it consumes the sender, never
/// blocks, and hands the value back when the receiving half is gone.
pub assume_specification<T>[ tokio::sync::oneshot::Sender::<T>::send ](
    sender: tokio::sync::oneshot::Sender<T>,
    t: T,
) -> (r: Result<(), T>)
    ensures
        r matches Err(v) ==> v == t,
;

/// A single-use handle that hands a boolean outcome to one waiting caller.
///
/// The first call of `respond` hands the outcome over; every later call does
/// nothing. The ghost record `handed` is the outcome that was handed over, if
/// any: it is made when the send is attempted; whether the value reaches the
/// receiver is up to the channel and is not checked here. The ghost `origin`
/// is the sender the handle was built from; it identifies the handle, and no
/// call changes it.
pub struct ResponseHandle {
    sender: Option<tokio::sync::oneshot::Sender<bool>>,
    handed: Ghost<Option<bool>>,
    origin: Ghost<tokio::sync::oneshot::Sender<bool>>,
}

impl ResponseHandle {
    #[verifier::type_invariant]
    spec fn inv(self) -> bool {
        self.sender.is_some() == self.handed@.is_none()
    }

    /// The outcome handed to the waiter, or `None` while the handle is unused.
    pub closed spec fn outcome(&self) -> Option<bool> {
        self.handed@
    }

    /// The sender this handle was built from.
    pub closed spec fn identity(&self) -> tokio::sync::oneshot::Sender<bool> {
        self.origin@
    }

    /// Whether the handle can still deliver an outcome.
    pub open spec fn is_armed(&self) -> bool {
        self.outcome().is_none()
    }

    pub fn new(sender: tokio::sync::oneshot::Sender<bool>) -> (r: Self)
        ensures
            r.is_armed(),
            r.identity() == sender,
    {
        ResponseHandle { sender: Some(sender), handed: Ghost(None), origin: Ghost(sender) }
    }

    /// Hands `approved` to the waiter on the first call; a later call is a
    /// silent no-op. Whether the waiter is still there makes no difference to
    /// the handle. The record of the outcome is made when the send is
    /// attempted; the delivery itself is the channel's and is not checked.
    pub fn respond(&mut self, approved: bool)
        ensures
            final(self).identity() == old(self).identity(),
            old(self).is_armed() ==> final(self).outcome() == Some(approved),
            !old(self).is_armed() ==> final(self).outcome() == old(self).outcome(),
    {
        proof {
            use_type_invariant(&*self);
        }
        if self.sender.is_some() {
            let mut previous = ResponseHandle {
                sender: None,
                handed: Ghost(Some(approved)),
                origin: Ghost(self.origin@),
            };
            core::mem::swap(self, &mut previous);
            if let Some(sender) = previous.sender {
                let _ = sender.send(approved);
            }
        }
    }
}

/// What a waiting caller concludes from what its channel gave it: the
/// delivered outcome, or `false` when the handle was dropped undelivered.
pub open spec fn settled(received: Option<bool>) -> bool {
    match received {
        Some(b) => b,
        None => false,
    }
}

/// Fail-closed reading of a reply: anything but a delivered `true` is a
/// rejection.
pub fn outcome_of(received: Option<bool>) -> (r: bool)
    ensures
        r == settled(received),
        r <==> received == Some(true),
{
    match received {
        Some(b) => b,
        None => false,
    }
}

/// Opens a reply channel: the handle goes with the command, the receiver
/// stays with the caller.
pub fn reply_channel() -> (r: (ResponseHandle, tokio::sync::oneshot::Receiver<bool>))
    ensures
        r.0.is_armed(),
{
    let (sender, receiver) = tokio::sync::oneshot::channel();
    (ResponseHandle::new(sender), receiver)
}

} // verus!
