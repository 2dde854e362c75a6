//! Single-fire notifications for the handshake.
//!
//! Each of the two transient handlers of a handshake owns one
//! [`PendingSignal`]. The first invocation of the handler resolves the signal
//! through a one-shot channel; the handler is inert from then on, so a late
//! call by the platform changes nothing.

use vstd::prelude::*;
use futures_channel::oneshot::Canceled;
use futures_channel::oneshot::Receiver;
use futures_channel::oneshot::Sender;

verus! {

/// The sending half of a one-shot channel of `futures_channel`, carried as an
/// opaque value.
#[verifier::external_type_specification]
#[verifier::external_body]
#[verifier::reject_recursive_types(T)]
pub struct ExSender<T>(Sender<T>);

/// The receiving half of a one-shot channel of `futures_channel`, carried as
/// an opaque value. The driver awaits it.
#[verifier::external_type_specification]
#[verifier::external_body]
#[verifier::reject_recursive_types(T)]
pub struct ExReceiver<T>(Receiver<T>);

/// What awaiting a receiver yields when its sender was dropped unspent;
/// declared because the receiver's output names it.
#[verifier::external_type_specification]
#[verifier::external_body]
pub struct ExCanceled(Canceled);

/// `futures_channel::oneshot::channel` makes the two halves of a fresh
/// channel. Nothing is claimed of them: both are opaque here.
pub assume_specification<T>[ futures_channel::oneshot::channel::<T> ]() -> (halves: (
    Sender<T>,
    Receiver<T>,
));

/// `futures_channel::oneshot::Sender::send` consumes the sender and either
/// enqueues the value or, where the receiver is gone, gives it back. Which of
/// the two happens depends on the other half, so nothing is claimed of the
/// result.
pub assume_specification<T>[ Sender::<T>::send ](tx: Sender<T>, t: T) -> (r: Result<(), T>);

/// What one invocation of a transient handler did.
#[derive(Debug, Clone, Copy, PartialEq, Eq, Structural)]
pub enum Fired {
    /// The signal was resolved and is on its way to the waiting task.
    Delivered,
    /// The signal was spent, but nobody is left to receive it.
    Abandoned,
    /// The handler had fired before: nothing happened.
    Inert,
}

impl Fired {
    /// Names the outcome of spending a signal: `enqueued` says whether the
    /// channel took the value.
    pub fn of_send(enqueued: bool) -> (r: Fired)
        ensures
            r == (if enqueued {
                Fired::Delivered
            } else {
                Fired::Abandoned
            }),
    {
        if enqueued {
            Fired::Delivered
        } else {
            Fired::Abandoned
        }
    }
}

/// A notification that fires at most once.
pub struct PendingSignal {
    tx: Option<Sender<()>>,
}

impl PendingSignal {
    /// Whether the signal can still fire.
    pub closed spec fn armed(&self) -> bool {
        self.tx is Some
    }

    /// Makes an armed signal and the receiver on which its firing is awaited.
    pub fn new() -> (pair: (PendingSignal, Receiver<()>))
        ensures
            pair.0.armed(),
    {
        let (tx, rx) = futures_channel::oneshot::channel::<()>();
        (PendingSignal { tx: Some(tx) }, rx)
    }

    /// Whether the signal can still fire.
    pub fn is_armed(&self) -> (b: bool)
        ensures
            b == self.armed(),
    {
        self.tx.is_some()
    }

    /// Runs the handler once.
    ///
    /// An armed signal is spent: it is sent down its channel and the handler
    /// becomes inert. A handler that is already inert does nothing and says
    /// so. Whether a spent signal was delivered or abandoned is up to the
    /// receiving half.
    pub fn fire(&mut self) -> (r: Fired)
        ensures
            !final(self).armed(),
            old(self).armed() ==> r == Fired::Delivered || r == Fired::Abandoned,
            !old(self).armed() ==> r == Fired::Inert,
    {
        match self.tx.take() {
            Some(tx) => {
                let sent = tx.send(());
                Fired::of_send(sent.is_ok())
            },
            None => Fired::Inert,
        }
    }
}

} // verus!
