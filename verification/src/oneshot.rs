//! Channels that carry one value from a sender to the task that awaits it.
use std::task::{Poll, Waker};

use tokio::sync::oneshot::Receiver;

use crate::awaited::{channel, outcome_of, Awaited, Handed};

pub use crate::awaited::{Delivery, QSender, Sending};

use vstd::prelude::*;

verus! {

/// The receiving half of a channel to which a value was sent.
#[verifier::reject_recursive_types(T)]
struct Filled<T> {
    half: Awaited<T>,
    sent: Delivery<T>,
}

impl<T> Filled<T> {
    /// The value was sent to this half.
    #[verifier::type_invariant]
    spec fn wf(self) -> bool {
        self.half.channel() == self.sent.channel()
    }

    spec fn value(self) -> T {
        self.sent.value()
    }

    /// Sends `data` to a channel of its own.
    fn new(data: T) -> (res: Self)
        ensures
            res.value() == data,
    {
        let (tx, half) = channel();
        let sent = tx.send(data);
        Filled { half, sent }
    }

    /// Takes the value.
    fn into_value(self) -> (res: T)
        ensures
            res == self.value(),
    {
        proof {
            use_type_invariant(&self);
        }
        self.half.try_recv(self.sent)
    }

    /// Polls for the value, which is there; the runtime may put the task off all the same.
    fn poll(self, waker: Waker) -> (res: (Result<Option<T>, Filled<T>>, Handed<T>))
        ensures
            res.1.waker() == waker,
            match res.0 {
                Ok(data) => {
                    &&& data == Some(self.value())
                    &&& res.1.outcome() == Poll::Ready(data)
                },
                Err(filled) => {
                    &&& filled.value() == self.value()
                    &&& res.1.outcome() is Pending
                },
            },
    {
        proof {
            use_type_invariant(&self);
        }
        let sent = self.sent;
        let (outcome, handed) = self.half.poll(waker, Sending::Sent(&sent));
        match outcome {
            Ok(data) => (Ok(data), handed),
            Err(half) => (Err(Filled { half, sent }), handed),
        }
    }
}

/// The receiving half of a channel, until its value is taken. Of some receivers it is known what
/// was sent to them.
#[verifier::reject_recursive_types(T)]
pub struct QReceiver<T> {
    ready: Option<Filled<T>>,
    rx: Option<Awaited<T>>,
    handed: Option<Handed<T>>,
}

/// Makes a channel: a sender, and the receiver that gets what the sender sends.
pub fn oneshot_channel<T>() -> (res: (QSender<T>, QReceiver<T>))
    ensures
        res.1.channel() == Some(res.0.channel()),
        res.1.ready() is None,
{
    let (tx, rx) = channel();
    (tx, QReceiver { ready: None, rx: Some(rx), handed: None })
}

impl<T> QReceiver<T> {
    /// The channel that the value is awaited on, if it has to be awaited.
    pub closed spec fn channel(self) -> Option<int> {
        match self.rx {
            Some(rx) if self.ready is None => Some(rx.channel()),
            _ => None,
        }
    }

    /// The value, if it is there already.
    pub closed spec fn ready(self) -> Option<T> {
        match self.ready {
            Some(filled) => Some(filled.value()),
            None => None,
        }
    }

    /// The receiver that the value comes through, if it has to be awaited.
    pub closed spec fn held(self) -> Option<Receiver<T>> {
        match self.rx {
            Some(rx) if self.ready is None => Some(rx.receiver()),
            _ => None,
        }
    }

    /// The last poll of the channel: the channel, the waker, and what came of it.
    pub closed spec fn handed(self) -> Option<(int, Waker, Poll<Option<T>>)> {
        match self.handed {
            Some(h) => Some((h.channel(), h.waker(), h.outcome())),
            None => None,
        }
    }

    /// Whether the value has not been taken.
    pub open spec fn pending(self) -> bool {
        self.ready() is Some || self.channel() is Some
    }

    /// A receiver that is filled with `data`.
    pub fn make_ready(data: T) -> (res: Self)
        ensures
            res.ready() == Some(data),
            res.channel() is None,
    {
        QReceiver { ready: Some(Filled::new(data)), rx: None, handed: None }
    }

    /// Polls the channel with `waker` and takes the value, which is `None` if the sender was
    /// dropped without sending one. What the sender has done by now decides, as far as `sender`
    /// and what is known of the receiver do not tell; and a task that has used up its budget of
    /// the runtime is put off, and woken at once.
    pub fn poll(&mut self, waker: Waker, sender: Sending<'_, T>) -> (res: Poll<Option<T>>)
        requires
            old(self).pending(),
        ensures
            final(self).handed() matches Some((polled, w, outcome)) && {
                &&& w == waker
                &&& outcome == res
                &&& old(self).channel() matches Some(channel) ==> polled == channel
            },
            match old(self).channel() {
                Some(channel) => sender.allows(channel, res),
                None => res is Ready ==> res == Poll::Ready(old(self).ready()),
            },
            match res {
                Poll::Ready(_) => !final(self).pending(),
                Poll::Pending => {
                    &&& final(self).ready() == old(self).ready()
                    &&& final(self).channel() == old(self).channel()
                },
            },
    {
        match self.ready.take() {
            Some(filled) => {
                let (outcome, handed) = filled.poll(waker);
                self.handed = Some(handed);
                return match outcome {
                    Ok(data) => {
                        self.rx = None;
                        Poll::Ready(data)
                    },
                    Err(filled) => {
                        self.ready = Some(filled);
                        Poll::Pending
                    },
                };
            },
            None => {},
        }
        let (outcome, handed) = self.rx.take().unwrap().poll(waker, sender);
        self.handed = Some(handed);
        self.polled(outcome)
    }

    /// What a poll of the channel comes to for a receiver whose half was taken out for the poll:
    /// the value, or the half again, to be polled later.
    pub fn polled(&mut self, outcome: Result<Option<T>, Awaited<T>>) -> (res: Poll<Option<T>>)
        requires
            !old(self).pending(),
        ensures
            res == outcome_of(outcome),
            final(self).handed() == old(self).handed(),
            match outcome {
                Ok(_) => !final(self).pending(),
                Err(half) => {
                    &&& final(self).ready() is None
                    &&& final(self).channel() == Some(half.channel())
                    &&& final(self).held() == Some(half.receiver())
                },
            },
    {
        match outcome {
            Ok(data) => Poll::Ready(data),
            Err(half) => {
                self.rx = Some(half);
                Poll::Pending
            },
        }
    }

    /// The value that the sender of this receiver's channel has sent.
    pub fn received(self, sent: Delivery<T>) -> (res: T)
        requires
            self.channel() == Some(sent.channel()),
        ensures
            res == sent.value(),
    {
        self.rx.unwrap().try_recv(sent)
    }

    /// The value, if it is there already, or else the receiver that it comes through.
    pub fn into_inner(self) -> (res: Result<T, Receiver<T>>)
        requires
            self.pending(),
        ensures
            match self.ready() {
                Some(data) => res == Ok::<T, Receiver<T>>(data),
                None => self.held() matches Some(rx) && res == Err::<T, Receiver<T>>(rx),
            },
    {
        match self.ready {
            Some(filled) => Ok(filled.into_value()),
            None => Err(self.rx.unwrap().into_receiver()),
        }
    }

    /// Whether the value has not been taken.
    pub fn is_pending(&self) -> (res: bool)
        ensures
            res == self.pending(),
    {
        self.ready.is_some() || self.rx.is_some()
    }
}

} // verus!
