//! Listeners whose connections are awaited one receiver at a time.
use crate::api::Handle;
use crate::buffer::Buffer;
use crate::oneshot::{Delivery, QReceiver};
use crate::sync::{QError, QQueue, QQueueView, QSignal};
use crate::transport::{ListenerCall, ListenerStart, QUIC_STATUS_SUCCESS};

use vstd::prelude::*;

verus! {

/// Where a listener is in its life.
#[derive(Debug, Clone, Copy, PartialEq, Eq, Structural)]
pub enum State {
    Idle,
    Started,
    StopRequested,
    Stopped,
}

/// An event of a listener. `C` is a connection that a peer has opened.
pub enum ListenerEvent<C> {
    /// A peer has opened a connection.
    NewConnection { connection: C },
    /// The listener has stopped.
    StopComplete,
    /// An event of another type. There is none that a listener can be given.
    Unknown { event_type: u32 },
}

/// What the callback of a listener and its user share.
#[verifier::reject_recursive_types(C)]
pub struct QListenerCtx<C> {
    ch: QQueue<C>,
    state: State,
    sig_stop: QSignal,
}

/// What a `QListenerCtx` holds.
pub struct QListenerCtxView<C> {
    /// Connections that nobody has accepted yet.
    pub connections: QQueueView<C>,
    pub state: State,
    /// The channel of the receiver that waits for the listener to stop, if there is one.
    pub stopping: Option<int>,
}

impl<C> QListenerCtxView<C> {
    /// A listener that was not started.
    pub open spec fn init() -> Self {
        QListenerCtxView { connections: QQueueView::init(), state: State::Idle, stopping: None }
    }

    /// What holds of a listener after any events and calls.
    pub open spec fn wf(self) -> bool {
        &&& self.connections.wf()
        &&& self.connections.is_closed <==> self.state == State::Stopped
        &&& self.stopping is Some <==> self.state == State::StopRequested
        &&& self.state == State::Idle ==> self.connections == QQueueView::<C>::init()
    }

    /// Whether the transport can give `event` to the listener in this state.
    pub open spec fn accepts(self, event: ListenerEvent<C>) -> bool {
        match event {
            ListenerEvent::NewConnection { .. } => {
                self.state == State::Started && !self.connections.is_closed
            },
            ListenerEvent::StopComplete => {
                self.state == State::StopRequested && self.stopping is Some
            },
            ListenerEvent::Unknown { .. } => false,
        }
    }

    /// After `event`.
    pub open spec fn handle(self, event: ListenerEvent<C>) -> Self {
        match event {
            ListenerEvent::NewConnection { connection } => QListenerCtxView {
                connections: self.connections.insert(connection),
                ..self
            },
            ListenerEvent::StopComplete => QListenerCtxView {
                connections: self.connections.close(0),
                state: State::Stopped,
                stopping: None,
            },
            ListenerEvent::Unknown { .. } => self,
        }
    }

    /// What `event` sends to the one that waits for a connection, if somebody waits.
    pub open spec fn answers(self, event: ListenerEvent<C>) -> Option<Result<C, QError>> {
        if self.connections.waiting is Some {
            match event {
                ListenerEvent::NewConnection { connection } => Some(Ok(connection)),
                ListenerEvent::StopComplete => Some(Err(0)),
                ListenerEvent::Unknown { .. } => None,
            }
        } else {
            None
        }
    }

    /// After the listener was started.
    pub open spec fn start(self) -> Self {
        QListenerCtxView { state: State::Started, ..self }
    }

    /// Whether a connection can be asked for: the listener was started, and nobody waits for
    /// one.
    pub open spec fn can_accept(self) -> bool {
        self.state == State::Stopped || (self.state != State::Idle && (
        self.connections.pop_result() is None ==> self.connections.waiting is None))
    }

    /// After the listener was asked to stop, with a receiver of `channel` waiting for it.
    pub open spec fn stop(self, channel: Option<int>) -> Self {
        QListenerCtxView { state: State::StopRequested, stopping: channel, ..self }
    }
}

impl<C> View for QListenerCtx<C> {
    type V = QListenerCtxView<C>;

    closed spec fn view(&self) -> QListenerCtxView<C> {
        QListenerCtxView {
            connections: self.ch@,
            state: self.state,
            stopping: self.sig_stop@,
        }
    }
}

impl<C> QListenerCtx<C> {
    /// A listener that was not started.
    pub fn new() -> (res: Self)
        ensures
            res@ == QListenerCtxView::<C>::init(),
    {
        QListenerCtx { ch: QQueue::new(), state: State::Idle, sig_stop: QSignal::new() }
    }

    /// A peer has opened `connection`.
    pub fn on_new_connection(&mut self, connection: C) -> (sent: Option<
        Delivery<Result<C, QError>>,
    >)
        requires
            !old(self)@.connections.is_closed,
        ensures
            final(self)@ == old(self)@.handle(ListenerEvent::NewConnection { connection }),
            match sent {
                Some(d) => {
                    &&& old(self)@.connections.waiting == Some(d.channel())
                    &&& d.value() == Ok::<C, QError>(connection)
                },
                None => old(self)@.connections.waiting is None,
            },
    {
        self.ch.insert(connection)
    }

    /// The listener has stopped: no connection follows, and the one that waits for this is
    /// told.
    pub fn on_stop_complete(&mut self) -> (res: (
        Option<Delivery<Result<C, QError>>>,
        Delivery<()>,
    ))
        requires
            old(self)@.stopping is Some,
        ensures
            final(self)@ == (QListenerCtxView {
                connections: old(self)@.connections.close(0),
                stopping: None,
                ..old(self)@
            }),
            match res.0 {
                Some(d) => {
                    &&& old(self)@.connections.waiting == Some(d.channel())
                    &&& d.value() == Err::<C, QError>(0)
                },
                None => old(self)@.connections.waiting is None,
            },
            old(self)@.stopping == Some(res.1.channel()),
    {
        let sent = self.ch.close(0);
        (sent, self.sig_stop.set(()))
    }

    /// Whether the transport can give `event` to the listener in this state.
    pub fn accepts(&self, event: &ListenerEvent<C>) -> (res: bool)
        ensures
            res == self@.accepts(*event),
    {
        match event {
            ListenerEvent::NewConnection { .. } => {
                self.state == State::Started && !self.ch.is_closed()
            },
            ListenerEvent::StopComplete => {
                self.state == State::StopRequested && self.sig_stop.can_set()
            },
            ListenerEvent::Unknown { .. } => false,
        }
    }
}

/// What handling an event of a listener comes to.
#[verifier::reject_recursive_types(C)]
pub struct ListenerOutcome<C> {
    /// The status that the transport is given.
    pub status: u32,
    /// What the one that waits for a connection was sent.
    pub accepted: Option<Delivery<Result<C, QError>>>,
    /// What the one that waits for the listener to stop was sent.
    pub stopped: Option<Delivery<()>>,
}

/// Handles an event of a listener.
pub fn listener_handler<C>(ctx: &mut QListenerCtx<C>, event: ListenerEvent<C>) -> (res:
    ListenerOutcome<C>)
    requires
        old(ctx)@.accepts(event),
    ensures
        final(ctx)@ == old(ctx)@.handle(event),
        res.status == QUIC_STATUS_SUCCESS,
        match res.accepted {
            Some(sent) => {
                &&& old(ctx)@.connections.waiting == Some(sent.channel())
                &&& old(ctx)@.answers(event) == Some(sent.value())
            },
            None => old(ctx)@.answers(event) is None,
        },
        match res.stopped {
            Some(sent) => event is StopComplete && old(ctx)@.stopping == Some(sent.channel()),
            None => !(event is StopComplete),
        },
{
    let status = QUIC_STATUS_SUCCESS;
    let mut accepted = None;
    let mut stopped = None;
    match event {
        ListenerEvent::NewConnection { connection } => {
            accepted = ctx.on_new_connection(connection);
        },
        ListenerEvent::StopComplete => {
            ctx.state = State::Stopped;
            let (a, s) = ctx.on_stop_complete();
            accepted = a;
            stopped = Some(s);
        },
        ListenerEvent::Unknown { .. } => {},
    }
    ListenerOutcome { status, accepted, stopped }
}

/// A listener as its user sees it.
#[verifier::reject_recursive_types(C)]
pub struct QListener<C> {
    pub ctx: QListenerCtx<C>,
}

impl<C> QListener<C> {
    /// A listener that was not started, and the call that opens it with its callback.
    pub fn open(registration: Handle) -> (res: (Self, ListenerCall))
        ensures
            res.0.ctx@ == QListenerCtxView::<C>::init(),
            res.1 == (ListenerCall::Open { registration }),
    {
        (QListener { ctx: QListenerCtx::new() }, ListenerCall::Open { registration })
    }

    /// Records the start, and returns the call that starts the listener, which is made after
    /// this.
    pub fn start<'a, A>(&mut self, alpn: &'a [Buffer<'a>], local_address: A) -> (res:
        ListenerStart<'a, A>)
        requires
            old(self).ctx@.state == State::Idle,
        ensures
            final(self).ctx@ == old(self).ctx@.start(),
            res == (ListenerStart { alpn, local_address }),
    {
        self.ctx.state = State::Started;
        ListenerStart { alpn, local_address }
    }

    /// The next connection, or the receiver of it; `None` once the listener has stopped.
    pub fn accept(&mut self) -> (res: Option<QReceiver<Result<C, QError>>>)
        requires
            old(self).ctx@.can_accept(),
        ensures
            res is None <==> old(self).ctx@.state == State::Stopped,
            match res {
                Some(rx) => {
                    &&& rx.ready() == old(self).ctx@.connections.pop_result()
                    &&& rx.channel() is Some
                        <==> old(self).ctx@.connections.pop_result() is None
                    &&& final(self).ctx@ == (QListenerCtxView {
                        connections: old(self).ctx@.connections.pop(rx.channel()),
                        ..old(self).ctx@
                    })
                },
                None => final(self).ctx@ == old(self).ctx@,
            },
    {
        if self.ctx.state == State::Stopped {
            return None;
        }
        Some(self.ctx.ch.pop())
    }

    /// Whether `accept` can be called.
    pub fn can_accept(&self) -> (res: bool)
        ensures
            res == self.ctx@.can_accept(),
    {
        self.ctx.state == State::Stopped || (self.ctx.state != State::Idle
            && self.ctx.ch.can_pop())
    }

    /// What the receiver of a connection gives to the one that waited: the connection, or
    /// `None` if the listener stopped.
    pub fn accepted(res: Result<C, QError>) -> (connection: Option<C>)
        ensures
            connection == match res {
                Ok(c) => Some(c),
                Err(_) => None,
            },
    {
        match res {
            Ok(c) => Some(c),
            Err(_) => None,
        }
    }

    /// What the wait on `rx` comes to, once `sent` was sent to it.
    pub fn accepted_by(
        rx: QReceiver<Result<C, QError>>,
        sent: Delivery<Result<C, QError>>,
    ) -> (connection: Option<C>)
        requires
            rx.channel() == Some(sent.channel()),
        ensures
            connection == match sent.value() {
                Ok(c) => Some(c),
                Err(_) => None,
            },
    {
        Self::accepted(rx.received(sent))
    }

    /// Records the wish to stop, and returns the receiver of the end and the call that stops the
    /// listener, which is made after this.
    pub fn stop(&mut self) -> (res: (QReceiver<()>, ListenerCall))
        requires
            old(self).ctx@.state == State::Started,
            old(self).ctx@.stopping is None,
        ensures
            res.0.channel() is Some,
            final(self).ctx@ == old(self).ctx@.stop(res.0.channel()),
            res.1 == ListenerCall::Stop,
    {
        self.ctx.state = State::StopRequested;
        (self.ctx.sig_stop.reset(), ListenerCall::Stop)
    }

    /// Where the listener is in its life.
    pub fn state(&self) -> (res: State)
        ensures
            res == self.ctx@.state,
    {
        self.ctx.state
    }
}

} // verus!
