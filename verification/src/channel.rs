//! Unbounded queues between a transport callback and the task that polls them.
use std::task::{Context, Poll, Waker};

use tokio::sync::mpsc::{UnboundedReceiver, UnboundedSender};

use vstd::prelude::*;

verus! {

/// `tokio::sync::mpsc::UnboundedSender`, carried as an opaque value.
#[verifier::external_type_specification]
#[verifier::external_body]
#[verifier::reject_recursive_types(T)]
pub struct ExUnboundedSender<T>(UnboundedSender<T>);

/// `tokio::sync::mpsc::UnboundedReceiver`, carried as an opaque value.
#[verifier::external_type_specification]
#[verifier::external_body]
#[verifier::reject_recursive_types(T)]
pub struct ExUnboundedReceiver<T>(UnboundedReceiver<T>);

/// Both halves of an unbounded channel of `tokio`. There is one sender, and neither half leaves
/// this struct.
#[verifier::reject_recursive_types(T)]
pub struct Channel<T> {
    tx: Option<UnboundedSender<T>>,
    rx: UnboundedReceiver<T>,
    queue: Ghost<Seq<T>>,
    waker: Ghost<Option<Waker>>,
}

/// What a channel holds.
pub struct ChannelView<T> {
    /// What was sent and not yet received, oldest first.
    pub queue: Seq<T>,
    /// Whether more can be sent.
    pub open: bool,
    /// The waker of the last poll that was pending, unless something was sent or the sender was
    /// dropped since. `tokio` keeps it until then, or has woken it.
    pub waker: Option<Waker>,
}

impl<T> ChannelView<T> {
    /// A new channel.
    pub open spec fn init() -> Self {
        ChannelView { queue: Seq::empty(), open: true, waker: None }
    }

    /// After `data` was sent and the pending task was woken.
    pub open spec fn send(self, data: T) -> Self {
        ChannelView { queue: self.queue.push(data), waker: None, ..self }
    }

    /// After the sender was dropped and the pending task was woken.
    pub open spec fn close(self) -> Self {
        ChannelView { open: false, waker: None, ..self }
    }

    /// After the oldest item was taken out, if there is one.
    pub open spec fn take(self) -> Self {
        if self.queue.len() > 0 {
            ChannelView { queue: self.queue.drop_first(), ..self }
        } else {
            self
        }
    }

    /// What there is for a poll of the receiver: the oldest item; when there is none, the end of
    /// a closed channel, and nothing yet of an open one.
    pub open spec fn recv_result(self) -> Poll<Option<T>> {
        if self.queue.len() > 0 {
            Poll::Ready(Some(self.queue[0]))
        } else if self.open {
            Poll::Pending
        } else {
            Poll::Ready(None)
        }
    }

    /// Whether a poll of the receiver with `waker` turns this channel into `next` and returns
    /// `res`: what there is, which is taken out, or else nothing, and `waker` stays. It can be
    /// nothing although there is something, when the task has used up its budget of the runtime.
    pub open spec fn polls(self, waker: Waker, res: Poll<Option<T>>, next: Self) -> bool {
        match res {
            Poll::Ready(_) => res == self.recv_result() && next == self.take(),
            Poll::Pending => next == (ChannelView { waker: Some(waker), ..self }),
        }
    }
}

impl<T> View for Channel<T> {
    type V = ChannelView<T>;

    closed spec fn view(&self) -> ChannelView<T> {
        ChannelView { queue: self.queue@, open: self.tx is Some, waker: self.waker@ }
    }
}

impl<T> Channel<T> {
    /// Calls `tokio::sync::mpsc::unbounded_channel`, which makes an empty channel with one
    /// sender.
    #[verifier::external_body]
    pub(crate) fn new() -> (res: Self)
        ensures
            res@ == ChannelView::<T>::init(),
    {
        let (tx, rx) = tokio::sync::mpsc::unbounded_channel();
        Channel { tx: Some(tx), rx, queue: Ghost(Seq::empty()), waker: Ghost(None) }
    }

    /// Calls `UnboundedSender::send`, which puts `data` behind what is queued and wakes the task
    /// that polls the receiver. It fails only without a receiver, and the receiver is here.
    #[verifier::external_body]
    pub(crate) fn send(&mut self, data: T)
        requires
            old(self)@.open,
        ensures
            final(self)@ == old(self)@.send(data),
    {
        let _ = self.tx.as_ref().unwrap().send(data);
    }

    /// Calls `UnboundedReceiver::poll_recv` with `waker`: the oldest item; `Ready(None)`, when
    /// nothing is queued and the sender was dropped; `Pending`, when nothing is queued and the
    /// sender is there, and then `waker` stays with the channel in place of the one that was
    /// there, and is woken when something is sent or the sender is dropped. A task that has used
    /// up its budget of the runtime gets `Pending` in any case, and is woken at once. When that
    /// is, and when a woken task runs, is the runtime's and not stated.
    #[verifier::external_body]
    pub(crate) fn poll_recv(&mut self, waker: Waker) -> (res: Poll<Option<T>>)
        ensures
            old(self)@.polls(waker, res, final(self)@),
    {
        self.rx.poll_recv(&mut Context::from_waker(&waker))
    }

    /// Calls `UnboundedReceiver::is_closed`, which tells whether all senders were dropped.
    #[verifier::external_body]
    pub(crate) fn is_closed(&self) -> (res: bool)
        ensures
            res == !self@.open,
    {
        self.rx.is_closed()
    }

    /// Drops the `UnboundedSender`, which closes the channel and wakes the task that polls the
    /// receiver: what is queued can still be received, and then comes the end. A sender that was
    /// dropped before is not there to be dropped again.
    #[verifier::external_body]
    pub(crate) fn close(&mut self)
        ensures
            final(self)@ == old(self)@.close(),
    {
        drop(self.tx.take())
    }

    /// Whether more can be sent.
    pub fn is_open(&self) -> (res: bool)
        ensures
            res == self@.open,
    {
        self.tx.is_some()
    }
}

} // verus!
