//! The two halves of a one-shot channel of `tokio`, and the records of what was done with them.
use std::future::Future;
use std::pin::Pin;
use std::task::{Context, Poll, Waker};

use tokio::sync::oneshot::{Receiver, Sender};

use vstd::prelude::*;

verus! {

/// `tokio::sync::oneshot::Sender`, carried as an opaque value.
#[verifier::external_type_specification]
#[verifier::external_body]
#[verifier::reject_recursive_types(T)]
pub struct ExSender<T>(Sender<T>);

/// `tokio::sync::oneshot::Receiver`, carried as an opaque value.
#[verifier::external_type_specification]
#[verifier::external_body]
#[verifier::reject_recursive_types(T)]
pub struct ExReceiver<T>(Receiver<T>);

/// `tokio::sync::oneshot::error::RecvError`, the error of an awaited `Receiver`.
#[verifier::external_type_specification]
#[verifier::external_body]
pub struct ExRecvError(tokio::sync::oneshot::error::RecvError);

/// The sending half of a channel.
#[verifier::reject_recursive_types(T)]
pub struct QSender<T> {
    tx: Sender<T>,
    id: Ghost<int>,
}

/// The receiving half of a channel, which has not given its value yet.
#[verifier::reject_recursive_types(T)]
pub struct Awaited<T> {
    rx: Receiver<T>,
    id: Ghost<int>,
}

/// The record of one value that was handed to a channel.
///
/// Only a call of `QSender::send` makes one, so a function that returns such a record says in
/// its contract what it has sent, and to which receiver.
#[verifier::reject_recursive_types(T)]
pub struct Delivery<T> {
    id: Ghost<int>,
    value: Ghost<T>,
}

/// The record of one poll of a receiving half.
///
/// Only a call of `Awaited::poll` makes one, so a function that keeps such a record says in its
/// contract which channel it has polled, with which waker, and what came of it.
#[verifier::reject_recursive_types(T)]
pub struct Handed<T> {
    id: Ghost<int>,
    waker: Ghost<Waker>,
    outcome: Ghost<Poll<Option<T>>>,
}

/// What the one that polls a receiver knows of the sender.
#[verifier::reject_recursive_types(T)]
pub enum Sending<'a, T> {
    /// Nothing: the sender may be used on another thread.
    Unknown,
    /// The sender is here, and so it has neither sent nor been dropped.
    Unsent(&'a QSender<T>),
    /// The sender has sent this.
    Sent(&'a Delivery<T>),
}

impl<T> Delivery<T> {
    /// The channel that the value was handed to.
    pub closed spec fn channel(self) -> int {
        self.id@
    }

    /// The value that was handed over.
    pub closed spec fn value(self) -> T {
        self.value@
    }
}

impl<T> Handed<T> {
    /// The channel that was polled.
    pub closed spec fn channel(self) -> int {
        self.id@
    }

    /// The waker that the poll was given.
    pub closed spec fn waker(self) -> Waker {
        self.waker@
    }

    /// What the poll gave.
    pub closed spec fn outcome(self) -> Poll<Option<T>> {
        self.outcome@
    }
}

impl<'a, T> Sending<'a, T> {
    /// Whether `outcome` can be that of a poll of `channel`: the value that was sent, if it is
    /// known to have been sent and the poll gave anything; nothing yet, if it is known not to
    /// have been sent.
    pub open spec fn allows(self, channel: int, outcome: Poll<Option<T>>) -> bool {
        match self {
            Sending::Unknown => true,
            Sending::Unsent(tx) => tx.channel() == channel ==> outcome is Pending,
            Sending::Sent(sent) => sent.channel() == channel && outcome is Ready ==> outcome
                == Poll::Ready(Some(sent.value())),
        }
    }
}

/// What a poll of the receiving half comes to: a value, the end of a channel without one, or, if
/// neither is there, the half itself.
pub open spec fn outcome_of<T>(outcome: Result<Option<T>, Awaited<T>>) -> Poll<Option<T>> {
    match outcome {
        Ok(data) => Poll::Ready(data),
        Err(_) => Poll::Pending,
    }
}

impl<T> QSender<T> {
    /// The channel that this half belongs to.
    pub closed spec fn channel(self) -> int {
        self.id@
    }

    /// Calls `tokio::sync::oneshot::Sender::send` with `data`, and records the channel and the
    /// value. A receiver that was dropped before leaves the value undelivered, and that is
    /// ignored.
    #[verifier::external_body]
    pub fn send(self, data: T) -> (res: Delivery<T>)
        ensures
            res.channel() == self.channel(),
            res.value() == data,
    {
        let _ = self.tx.send(data);
        Delivery { id: Ghost(arbitrary()), value: Ghost(arbitrary()) }
    }
}

/// Calls `tokio::sync::oneshot::channel`, which makes a sender and the receiver that gets what
/// the sender sends. Both halves name the same channel.
#[verifier::external_body]
pub(crate) fn channel<T>() -> (res: (QSender<T>, Awaited<T>))
    ensures
        res.1.channel() == res.0.channel(),
{
    let (tx, rx) = tokio::sync::oneshot::channel();
    (QSender { tx, id: Ghost(arbitrary()) }, Awaited { rx, id: Ghost(arbitrary()) })
}

impl<T> Awaited<T> {
    /// The channel that this half belongs to.
    pub closed spec fn channel(self) -> int {
        self.id@
    }

    /// The receiver of `tokio`.
    pub closed spec fn receiver(self) -> Receiver<T> {
        self.rx
    }

    /// The receiver of `tokio`.
    pub fn into_receiver(self) -> (res: Receiver<T>)
        ensures
            res == self.receiver(),
    {
        self.rx
    }

    /// Calls `Receiver::poll` with `waker`, and records the channel, the waker and the outcome:
    /// `Ok` of the value that was sent, or of `None` if the sender was dropped before; where
    /// neither has happened, the half, which keeps `waker` and wakes it then. While the sender is there and
    /// has not sent, it is the half. Once a value was sent it is that value, or the half where
    /// the task has used up its budget of the runtime, which wakes it at once instead. The later
    /// wake-up is not stated, nor which outcome it is where the sender is on another thread.
    #[verifier::external_body]
    pub(crate) fn poll(self, waker: Waker, sender: Sending<'_, T>) -> (res: (
        Result<Option<T>, Awaited<T>>,
        Handed<T>,
    ))
        ensures
            res.1.channel() == self.channel(),
            res.1.waker() == waker,
            res.1.outcome() == outcome_of(res.0),
            res.0 matches Err(half) ==> half.channel() == self.channel(),
            sender.allows(self.channel(), outcome_of(res.0)),
    {
        let mut half = self;
        let outcome = match Pin::new(&mut half.rx).poll(&mut Context::from_waker(&waker)) {
            Poll::Ready(Ok(data)) => Ok(Some(data)),
            Poll::Ready(Err(_)) => Ok(None),
            Poll::Pending => Err(half),
        };
        let (id, waker) = (Ghost(arbitrary()), Ghost(arbitrary()));
        (outcome, Handed { id, waker, outcome: Ghost(arbitrary()) })
    }

    /// Calls `Receiver::try_recv` on the receiver of the channel that `sent` was sent to, which
    /// gives the value that was sent.
    #[verifier::external_body]
    pub(crate) fn try_recv(self, sent: Delivery<T>) -> (res: T)
        requires
            self.channel() == sent.channel(),
        ensures
            res == sent.value(),
    {
        let mut rx = self.rx;
        rx.try_recv().unwrap()
    }
}

} // verus!
