//! Listeners whose connections are polled for on a channel.
use std::task::{Poll, Waker};

use crate::api::Handle;
use crate::buffer::Buffer;
use crate::channel::{Channel, ChannelView};
use crate::listener::{ListenerEvent, State};
use crate::transport::{ListenerCall, ListenerStart, QUIC_STATUS_SUCCESS};

use vstd::prelude::*;

verus! {

/// What the callback of a listener and its user share.
#[verifier::reject_recursive_types(C)]
pub struct QListenerCtx<C> {
    ch: Channel<C>,
    state: State,
}

/// What a `QListenerCtx` holds.
pub struct QListenerCtxView<C> {
    /// Connections that nobody has accepted yet; open until the listener has stopped.
    pub connections: ChannelView<C>,
    pub state: State,
}

impl<C> QListenerCtxView<C> {
    /// A listener that was not started.
    pub open spec fn init() -> Self {
        QListenerCtxView { connections: ChannelView::init(), state: State::Idle }
    }

    /// What holds of a listener after any events and calls.
    pub open spec fn wf(self) -> bool {
        &&& self.connections.open <==> self.state != State::Stopped
        &&& self.state == State::Idle ==> self.connections.queue.len() == 0
    }

    /// Whether the transport can give `event` to the listener in this state.
    pub open spec fn accepts(self, event: ListenerEvent<C>) -> bool {
        match event {
            ListenerEvent::NewConnection { .. } => {
                self.state == State::Started && self.connections.open
            },
            ListenerEvent::StopComplete => self.state == State::StopRequested,
            ListenerEvent::Unknown { .. } => false,
        }
    }

    /// After `event`.
    pub open spec fn handle(self, event: ListenerEvent<C>) -> Self {
        match event {
            ListenerEvent::NewConnection { connection } => QListenerCtxView {
                connections: self.connections.send(connection),
                ..self
            },
            ListenerEvent::StopComplete => QListenerCtxView {
                connections: self.connections.close(),
                state: State::Stopped,
            },
            ListenerEvent::Unknown { .. } => self,
        }
    }

    /// After the listener was started.
    pub open spec fn start(self) -> Self {
        QListenerCtxView { state: State::Started, ..self }
    }

    /// After the listener was asked to stop.
    pub open spec fn stop(self) -> Self {
        QListenerCtxView { state: State::StopRequested, ..self }
    }
}

impl<C> View for QListenerCtx<C> {
    type V = QListenerCtxView<C>;

    closed spec fn view(&self) -> QListenerCtxView<C> {
        QListenerCtxView { connections: self.ch@, state: self.state }
    }
}

impl<C> QListenerCtx<C> {
    /// A listener that was not started.
    pub fn new() -> (res: Self)
        ensures
            res@ == QListenerCtxView::<C>::init(),
    {
        QListenerCtx { ch: Channel::new(), state: State::Idle }
    }

    /// A peer has opened `connection`.
    pub fn on_new_connection(&mut self, connection: C)
        requires
            old(self)@.connections.open,
        ensures
            final(self)@ == old(self)@.handle(ListenerEvent::NewConnection { connection }),
    {
        self.ch.send(connection);
    }

    /// The listener has stopped: no connection follows.
    pub fn on_stop_complete(&mut self)
        ensures
            final(self)@ == (QListenerCtxView {
                connections: old(self)@.connections.close(),
                ..old(self)@
            }),
    {
        self.ch.close();
    }

    /// Whether the transport can give `event` to the listener in this state.
    pub fn accepts(&self, event: &ListenerEvent<C>) -> (res: bool)
        ensures
            res == self@.accepts(*event),
    {
        match event {
            ListenerEvent::NewConnection { .. } => {
                self.state == State::Started && self.ch.is_open()
            },
            ListenerEvent::StopComplete => self.state == State::StopRequested,
            ListenerEvent::Unknown { .. } => false,
        }
    }
}

/// Handles an event of a listener, and returns the status that the transport is given.
pub fn listener_handler<C>(ctx: &mut QListenerCtx<C>, event: ListenerEvent<C>) -> (status: u32)
    requires
        old(ctx)@.accepts(event),
    ensures
        final(ctx)@ == old(ctx)@.handle(event),
        status == QUIC_STATUS_SUCCESS,
{
    match event {
        ListenerEvent::NewConnection { connection } => {
            ctx.on_new_connection(connection);
        },
        ListenerEvent::StopComplete => {
            ctx.state = State::Stopped;
            ctx.on_stop_complete();
        },
        ListenerEvent::Unknown { .. } => {},
    }
    QUIC_STATUS_SUCCESS
}

/// A listener as its user sees it.
#[verifier::reject_recursive_types(C)]
pub struct QListener<C> {
    pub ctx: QListenerCtx<C>,
}

impl<C> QListener<C> {
    /// A listener that was not started, and the call that opens it with its callback.
    pub fn open(registration: Handle) -> (res: (Self, ListenerCall))
        ensures
            res.0.ctx@ == QListenerCtxView::<C>::init(),
            res.1 == (ListenerCall::Open { registration }),
    {
        (QListener { ctx: QListenerCtx::new() }, ListenerCall::Open { registration })
    }

    /// Records the start, and returns the call that starts the listener, which is made after
    /// this.
    pub fn start<'a, A>(&mut self, alpn: &'a [Buffer<'a>], local_address: A) -> (res:
        ListenerStart<'a, A>)
        requires
            old(self).ctx@.state == State::Idle,
        ensures
            final(self).ctx@ == old(self).ctx@.start(),
            res == (ListenerStart { alpn, local_address }),
    {
        self.ctx.state = State::Started;
        ListenerStart { alpn, local_address }
    }

    /// Polls for the next connection. `Ready(None)` means that the listener has stopped and all
    /// of its connections were accepted.
    pub fn accept(&mut self, waker: Waker) -> (res: Poll<Option<C>>)
        ensures
            final(self).ctx@ == (QListenerCtxView {
                connections: final(self).ctx@.connections,
                ..old(self).ctx@
            }),
            old(self).ctx@.connections.polls(waker, res, final(self).ctx@.connections),
    {
        self.ctx.ch.poll_recv(waker)
    }

    /// Records the wish to stop, and returns the call that stops the listener, which is made
    /// after this. The end has come once `is_stopped` says so.
    pub fn stop(&mut self) -> (res: ListenerCall)
        requires
            old(self).ctx@.state == State::Started,
        ensures
            final(self).ctx@ == old(self).ctx@.stop(),
            res == ListenerCall::Stop,
    {
        self.ctx.state = State::StopRequested;
        ListenerCall::Stop
    }

    /// Whether no connection follows any more.
    pub fn is_stopped(&self) -> (res: bool)
        ensures
            res == !self.ctx@.connections.open,
    {
        self.ctx.ch.is_closed()
    }

    /// Where the listener is in its life.
    pub fn state(&self) -> (res: State)
        ensures
            res == self.ctx@.state,
    {
        self.ctx.state
    }
}

} // verus!
