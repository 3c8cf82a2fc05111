//! Connections: what their events do, and what their users wait and poll for.
use std::task::{Poll, Waker};

use crate::api::Handle;
use crate::channel::{Channel, ChannelView};
use crate::error::Error;
use crate::oneshot::{Delivery, QReceiver};
use crate::sync::{QResetChannel, QWakableSig, QWakableSigView};
use crate::task::Woken;
use crate::transport::{
    ConnectionCall, ConnectionStart, CONNECTION_SHUTDOWN_FLAG_NONE, QUIC_STATUS_SUCCESS,
    STREAM_OPEN_FLAG_UNIDIRECTIONAL,
};

use vstd::prelude::*;

verus! {

/// How the wait for a connection ended.
#[derive(Debug, Clone, Copy, PartialEq)]
pub enum ConnStatus {
    /// The connection is there.
    Connected,
    /// The transport gave up, with an error code of the protocol and a status.
    Transport(u64, u32),
}

/// An event of a connection. `S` is a stream that the peer has started.
pub enum ConnectionEvent<S> {
    /// The connection is there.
    Connected,
    /// The transport shuts the connection down.
    ShutdownInitiatedByTransport { error_code: u64, status: u32 },
    /// The peer shuts the connection down, with an error code of the application.
    ShutdownInitiatedByPeer { error_code: u64 },
    /// The connection is over.
    ShutdownComplete,
    /// The peer has started a stream.
    PeerStreamStarted { stream: S, flags: u32 },
    /// The connection was resumed.
    Resumed,
    /// A ticket to resume the connection arrived.
    ResumptionTicketReceived,
    /// An event of another type.
    Unknown { event_type: u32 },
}

/// Whether a stream that was opened with `flags` is unidirectional.
pub open spec fn is_uni(flags: u32) -> bool {
    flags & STREAM_OPEN_FLAG_UNIDIRECTIONAL != 0
}

/// What the callback of a connection and the users of the connection share.
#[verifier::reject_recursive_types(S)]
pub struct QConnectionCtx<S> {
    strm_ch: Channel<S>,
    strm_uni_ch: Channel<S>,
    shtdwn_sig: QWakableSig<()>,
    /// Gets how the wait for the connection ended.
    conn_ch: QResetChannel<ConnStatus>,
    /// The receiver of an accepted connection, until a user waits on it.
    proceed_rx: Option<QReceiver<ConnStatus>>,
}

/// What a `QConnectionCtx` holds.
pub struct QConnectionCtxView<S> {
    /// Bidirectional streams of the peer that nobody has accepted yet.
    pub streams: ChannelView<S>,
    /// Unidirectional streams of the peer that nobody has accepted yet.
    pub uni_streams: ChannelView<S>,
    /// The end of the connection.
    pub shutdown: QWakableSigView<()>,
    /// The channel of the receiver that waits for the connection, if there is one.
    pub connecting: Option<int>,
    /// The receiver that a user of an accepted connection takes.
    pub proceed: Option<QReceiver<ConnStatus>>,
}

impl<S> QConnectionCtxView<S> {
    /// A connection without any event.
    pub open spec fn init() -> Self {
        QConnectionCtxView {
            streams: ChannelView::init(),
            uni_streams: ChannelView::init(),
            shutdown: QWakableSigView::init(),
            connecting: None,
            proceed: None,
        }
    }

    /// What holds of a connection after any events and calls.
    pub open spec fn wf(self) -> bool {
        &&& self.shutdown.wf()
        // The end of a connection is always told.
        &&& !self.shutdown.is_closed
        // What ends the bidirectional streams ends the unidirectional ones too.
        &&& self.uni_streams.open ==> self.streams.open
    }

    /// Whether the transport can give `event` to the connection in this state.
    pub open spec fn accepts(self, event: ConnectionEvent<S>) -> bool {
        match event {
            ConnectionEvent::Connected => self.connecting is Some,
            ConnectionEvent::ShutdownComplete => self.shutdown.can_set(),
            ConnectionEvent::PeerStreamStarted { stream: _, flags } => if is_uni(flags) {
                self.uni_streams.open
            } else {
                self.streams.open
            },
            _ => true,
        }
    }

    /// After `event`.
    pub open spec fn handle(self, event: ConnectionEvent<S>) -> Self {
        match event {
            ConnectionEvent::Connected => QConnectionCtxView { connecting: None, ..self },
            ConnectionEvent::ShutdownInitiatedByTransport { .. } => QConnectionCtxView {
                connecting: None,
                streams: self.streams.close(),
                uni_streams: self.uni_streams.close(),
                ..self
            },
            ConnectionEvent::ShutdownInitiatedByPeer { .. } => QConnectionCtxView {
                uni_streams: self.uni_streams.close(),
                ..self
            },
            ConnectionEvent::ShutdownComplete => QConnectionCtxView {
                streams: self.streams.close(),
                uni_streams: self.uni_streams.close(),
                shutdown: self.shutdown.set(()),
                ..self
            },
            ConnectionEvent::PeerStreamStarted { stream, flags } => if is_uni(flags) {
                QConnectionCtxView { uni_streams: self.uni_streams.send(stream), ..self }
            } else {
                QConnectionCtxView { streams: self.streams.send(stream), ..self }
            },
            ConnectionEvent::Resumed => self,
            ConnectionEvent::ResumptionTicketReceived => self,
            ConnectionEvent::Unknown { .. } => self,
        }
    }

    /// The tasks that `event` wakes through the signals of the connection.
    pub open spec fn wakes(self, event: ConnectionEvent<S>) -> Seq<Waker> {
        match event {
            ConnectionEvent::ShutdownComplete => self.shutdown.set_wakes(),
            _ => Seq::empty(),
        }
    }

    /// What `event` sends to the one that waits for the connection, if it sends something.
    pub open spec fn answers(self, event: ConnectionEvent<S>) -> Option<ConnStatus> {
        match event {
            ConnectionEvent::Connected => Some(ConnStatus::Connected),
            ConnectionEvent::ShutdownInitiatedByTransport { error_code, status } => {
                if self.connecting is Some {
                    Some(ConnStatus::Transport(error_code, status))
                } else {
                    None
                }
            },
            _ => None,
        }
    }
}

impl<S> QConnectionCtxView<S> {
    /// The call that a user's wish to shut the connection down comes to: none while one is
    /// pending.
    pub open spec fn shutdown_call(self, ec: u64) -> Option<ConnectionCall> {
        if self.shutdown.frontend_pending {
            None
        } else {
            Some(
                ConnectionCall::Shutdown { flags: CONNECTION_SHUTDOWN_FLAG_NONE, error_code: ec },
            )
        }
    }

    /// After a user wished to shut the connection down.
    pub open spec fn begin_shutdown(self) -> Self {
        QConnectionCtxView { shutdown: self.shutdown.set_frontend_pending(), ..self }
    }

    /// What polling for the end of the connection returns.
    pub open spec fn shutdown_result(self) -> Poll<()> {
        if self.shutdown.data is Some || self.shutdown.is_closed {
            Poll::Ready(())
        } else {
            Poll::Pending
        }
    }
}

impl<S> View for QConnectionCtx<S> {
    type V = QConnectionCtxView<S>;

    closed spec fn view(&self) -> QConnectionCtxView<S> {
        QConnectionCtxView {
            streams: self.strm_ch@,
            uni_streams: self.strm_uni_ch@,
            shutdown: self.shtdwn_sig@,
            connecting: self.conn_ch@,
            proceed: self.proceed_rx,
        }
    }
}

impl<S> QConnectionCtx<S> {
    /// A connection without any event.
    pub fn new() -> (res: Self)
        ensures
            res@ == QConnectionCtxView::<S>::init(),
    {
        QConnectionCtx {
            strm_ch: Channel::new(),
            strm_uni_ch: Channel::new(),
            shtdwn_sig: QWakableSig::default(),
            conn_ch: QResetChannel::new(),
            proceed_rx: None,
        }
    }

    /// The receiver of how the wait for the connection ends.
    pub fn prepare_connect(&mut self) -> (res: QReceiver<ConnStatus>)
        requires
            old(self)@.connecting is None,
        ensures
            res.channel() is Some,
            final(self)@ == (QConnectionCtxView { connecting: res.channel(), ..old(self)@ }),
    {
        self.conn_ch.reset()
    }

    /// The wait for the connection ended, with the error code and the status in `ec` if it
    /// failed.
    pub fn on_connected(&mut self, ec: Option<(u64, u32)>) -> (sent: Delivery<ConnStatus>)
        requires
            old(self)@.connecting is Some,
        ensures
            final(self)@ == (QConnectionCtxView { connecting: None, ..old(self)@ }),
            old(self)@.connecting == Some(sent.channel()),
            sent.value() == match ec {
                Some((ec, status)) => ConnStatus::Transport(ec, status),
                None => ConnStatus::Connected,
            },
    {
        let status = match ec {
            Some((ec, status)) => ConnStatus::Transport(ec, status),
            None => ConnStatus::Connected,
        };
        self.conn_ch.set(status)
    }

    /// The transport shuts the connection down: the wait for it fails, and no stream follows.
    pub fn on_shutdown_initiated_by_transport(&mut self, ec: u64, status: u32) -> (sent: Option<
        Delivery<ConnStatus>,
    >)
        ensures
            final(self)@ == old(self)@.handle(
                ConnectionEvent::ShutdownInitiatedByTransport { error_code: ec, status },
            ),
            match sent {
                Some(d) => {
                    &&& old(self)@.connecting == Some(d.channel())
                    &&& d.value() == ConnStatus::Transport(ec, status)
                },
                None => old(self)@.connecting is None,
            },
    {
        let sent = if self.conn_ch.can_set() {
            Some(self.conn_ch.set(ConnStatus::Transport(ec, status)))
        } else {
            None
        };
        self.strm_ch.close();
        self.strm_uni_ch.close();
        sent
    }

    /// The peer shuts the connection down: no unidirectional stream follows.
    pub fn on_shutdown_initiated_by_peer(&mut self, ec: u64)
        ensures
            final(self)@ == old(self)@.handle(
                ConnectionEvent::ShutdownInitiatedByPeer { error_code: ec },
            ),
    {
        self.strm_uni_ch.close();
    }

    /// The connection is over. This can come without a shutdown by the transport or the peer,
    /// when a user shut the connection down.
    pub fn on_shutdown_complete(&mut self) -> (woken: Woken)
        requires
            old(self)@.shutdown.can_set(),
        ensures
            final(self)@ == old(self)@.handle(ConnectionEvent::ShutdownComplete),
            woken@ == old(self)@.shutdown.set_wakes(),
    {
        self.strm_ch.close();
        self.strm_uni_ch.close();
        self.shtdwn_sig.set(())
    }

    /// The peer has started `stream`.
    pub fn on_peer_stream_started(&mut self, stream: S, uni: bool)
        requires
            uni ==> old(self)@.uni_streams.open,
            !uni ==> old(self)@.streams.open,
        ensures
            final(self)@ == if uni {
                QConnectionCtxView {
                    uni_streams: old(self)@.uni_streams.send(stream),
                    ..old(self)@
                }
            } else {
                QConnectionCtxView { streams: old(self)@.streams.send(stream), ..old(self)@ }
            },
    {
        if uni {
            self.strm_uni_ch.send(stream);
        } else {
            self.strm_ch.send(stream);
        }
    }

    /// Whether the transport can give `event` to the connection in this state.
    pub fn accepts(&self, event: &ConnectionEvent<S>) -> (res: bool)
        ensures
            res == self@.accepts(*event),
    {
        match event {
            ConnectionEvent::Connected => self.conn_ch.can_set(),
            ConnectionEvent::ShutdownComplete => self.shtdwn_sig.can_set(),
            ConnectionEvent::PeerStreamStarted { stream: _, flags } => {
                if *flags & STREAM_OPEN_FLAG_UNIDIRECTIONAL != 0 {
                    self.strm_uni_ch.is_open()
                } else {
                    self.strm_ch.is_open()
                }
            },
            _ => true,
        }
    }
}

/// What handling an event of a connection comes to.
pub struct ConnectionOutcome {
    /// The status that the transport is given.
    pub status: u32,
    /// The tasks that were woken.
    pub woken: Woken,
    /// What the one that waits for the connection was sent.
    pub connected: Option<Delivery<ConnStatus>>,
}

/// Handles an event of a connection.
pub fn qconnection_callback_handler<S>(
    ctx: &mut QConnectionCtx<S>,
    event: ConnectionEvent<S>,
) -> (res: ConnectionOutcome)
    requires
        old(ctx)@.accepts(event),
    ensures
        final(ctx)@ == old(ctx)@.handle(event),
        !(event is PeerStreamStarted) ==> final(ctx)@.streams.queue == old(ctx)@.streams.queue
            && final(ctx)@.uni_streams.queue == old(ctx)@.uni_streams.queue,
        !(event is ShutdownInitiatedByTransport || event is ShutdownComplete)
            ==> final(ctx)@.streams.open == old(ctx)@.streams.open,
        !(event is ShutdownInitiatedByTransport || event is ShutdownComplete
            || event is ShutdownInitiatedByPeer) ==> final(ctx)@.uni_streams.open
            == old(ctx)@.uni_streams.open,
        !(event is ShutdownComplete) ==> final(ctx)@.shutdown == old(ctx)@.shutdown,
        final(ctx)@.proceed == old(ctx)@.proceed,
        res.status == QUIC_STATUS_SUCCESS,
        res.woken@ == old(ctx)@.wakes(event),
        match res.connected {
            Some(sent) => {
                &&& old(ctx)@.connecting == Some(sent.channel())
                &&& old(ctx)@.answers(event) == Some(sent.value())
            },
            None => old(ctx)@.answers(event) is None,
        },
{
    let status = QUIC_STATUS_SUCCESS;
    let mut woken = Woken::none();
    let mut connected = None;
    match event {
        ConnectionEvent::Connected => {
            connected = Some(ctx.on_connected(None));
        },
        ConnectionEvent::ShutdownInitiatedByTransport { error_code, status } => {
            connected = ctx.on_shutdown_initiated_by_transport(error_code, status);
        },
        ConnectionEvent::ShutdownInitiatedByPeer { error_code } => {
            ctx.on_shutdown_initiated_by_peer(error_code);
        },
        ConnectionEvent::ShutdownComplete => {
            woken = ctx.on_shutdown_complete();
        },
        ConnectionEvent::PeerStreamStarted { stream, flags } => {
            let uni = flags & STREAM_OPEN_FLAG_UNIDIRECTIONAL != 0;
            ctx.on_peer_stream_started(stream, uni);
        },
        ConnectionEvent::Resumed => {},
        ConnectionEvent::ResumptionTicketReceived => {},
        ConnectionEvent::Unknown { .. } => {},
    }
    ConnectionOutcome { status, woken, connected }
}

/// What the end of the wait for a connection means to the one that waited.
pub open spec fn connect_result_spec(status: ConnStatus) -> Result<(), Error> {
    match status {
        ConnStatus::Connected => Ok(()),
        ConnStatus::Transport(_, s) => Err(Error::Os(s as i32)),
    }
}

/// A connection as its users see it.
#[verifier::reject_recursive_types(S)]
pub struct QConnection<S> {
    pub ctx: QConnectionCtx<S>,
}

impl<S> QConnection<S> {
    /// A connection of a peer that a listener has accepted, and the calls that set its callback
    /// and its configuration, in this order. Its receiver is there from the beginning, for
    /// `proceed`. The calls are made before the callback of the listener returns.
    pub fn attach(configuration: Handle) -> (res: (Self, ConnectionCall, ConnectionCall))
        ensures
            res.0.ctx@.connecting is Some,
            match res.0.ctx@.proceed {
                Some(rx) => rx.channel() == res.0.ctx@.connecting,
                None => false,
            },
            res.0.ctx@ == (QConnectionCtxView {
                connecting: res.0.ctx@.connecting,
                proceed: res.0.ctx@.proceed,
                ..QConnectionCtxView::<S>::init()
            }),
            res.1 == ConnectionCall::SetCallback,
            res.2 == (ConnectionCall::SetConfiguration { configuration }),
    {
        let mut ctx = QConnectionCtx::new();
        let rx = ctx.prepare_connect();
        ctx.proceed_rx = Some(rx);
        (
            QConnection { ctx },
            ConnectionCall::SetCallback,
            ConnectionCall::SetConfiguration { configuration },
        )
    }

    /// A connection of this side, and the call that opens it with its callback.
    pub fn open(registration: Handle) -> (res: (Self, ConnectionCall))
        ensures
            res.0.ctx@ == QConnectionCtxView::<S>::init(),
            res.1 == (ConnectionCall::Open { registration }),
    {
        (QConnection { ctx: QConnectionCtx::new() }, ConnectionCall::Open { registration })
    }

    /// The receiver of how the wait for an accepted connection ends. It can be taken once.
    pub fn proceed(&mut self) -> (res: QReceiver<ConnStatus>)
        requires
            old(self).ctx@.proceed is Some,
        ensures
            old(self).ctx@.proceed == Some(res),
            final(self).ctx@ == (QConnectionCtxView { proceed: None, ..old(self).ctx@ }),
    {
        self.ctx.proceed_rx.take().unwrap()
    }

    /// Whether `proceed` can be called.
    pub fn can_proceed(&self) -> (res: bool)
        ensures
            res == (self.ctx@.proceed is Some),
    {
        self.ctx.proceed_rx.is_some()
    }

    /// The receiver of how the wait for a connection of this side ends, and the call that starts
    /// the connection, which is made after this.
    pub fn start<'a>(
        &mut self,
        configuration: Handle,
        server_name: &'a str,
        server_port: u16,
    ) -> (res: (QReceiver<ConnStatus>, ConnectionStart<'a>))
        requires
            old(self).ctx@.connecting is None,
        ensures
            res.0.channel() is Some,
            final(self).ctx@ == (QConnectionCtxView {
                connecting: res.0.channel(),
                ..old(self).ctx@
            }),
            res.1 == (ConnectionStart { configuration, server_name, server_port }),
    {
        let rx = self.ctx.prepare_connect();
        (rx, ConnectionStart { configuration, server_name, server_port })
    }

    /// Whether `start` can be called.
    pub fn can_start(&self) -> (res: bool)
        ensures
            res == (self.ctx@.connecting is None),
    {
        !self.ctx.conn_ch.can_set()
    }

    /// What the end of the wait means to the one that waited: a connection, or the status that
    /// the transport gave up with, as the operating system's code.
    pub fn connect_result(status: ConnStatus) -> (res: Result<(), Error>)
        ensures
            res == connect_result_spec(status),
            res is Ok <==> status == ConnStatus::Connected,
    {
        match status {
            ConnStatus::Connected => Ok(()),
            ConnStatus::Transport(_, s) => {
                #[verifier::truncate]
                let code: i32 = s as i32;
                Err(Error::from_raw_os_error(code))
            },
        }
    }

    /// What the wait on `rx` comes to, once `sent` was sent to it.
    pub fn connected(rx: QReceiver<ConnStatus>, sent: Delivery<ConnStatus>) -> (res: Result<
        (),
        Error,
    >)
        requires
            rx.channel() == Some(sent.channel()),
        ensures
            res == connect_result_spec(sent.value()),
    {
        Self::connect_result(rx.received(sent))
    }

    /// The call that sends a ticket to resume the connection.
    pub fn send_resumption_ticket(&self, flags: u32) -> (res: ConnectionCall)
        ensures
            res == (ConnectionCall::SendResumptionTicket { flags }),
    {
        ConnectionCall::SendResumptionTicket { flags }
    }

    /// Polls for the next bidirectional stream of the peer. `Ready(None)` means that none
    /// follows.
    pub fn poll_accept(&mut self, waker: Waker) -> (res: Poll<Option<S>>)
        ensures
            final(self).ctx@ == (QConnectionCtxView {
                streams: final(self).ctx@.streams,
                ..old(self).ctx@
            }),
            old(self).ctx@.streams.polls(waker, res, final(self).ctx@.streams),
    {
        self.ctx.strm_ch.poll_recv(waker)
    }

    /// Polls for the next unidirectional stream of the peer. `Ready(None)` means that none
    /// follows.
    pub fn poll_accept_uni(&mut self, waker: Waker) -> (res: Poll<Option<S>>)
        ensures
            final(self).ctx@ == (QConnectionCtxView {
                uni_streams: final(self).ctx@.uni_streams,
                ..old(self).ctx@
            }),
            old(self).ctx@.uni_streams.polls(waker, res, final(self).ctx@.uni_streams),
    {
        self.ctx.strm_uni_ch.poll_recv(waker)
    }

    /// The call that shuts the connection down with `ec`.
    pub fn shutdown_only(&self, ec: u64) -> (res: ConnectionCall)
        ensures
            res == (ConnectionCall::Shutdown {
                flags: CONNECTION_SHUTDOWN_FLAG_NONE,
                error_code: ec,
            }),
    {
        ConnectionCall::Shutdown { flags: CONNECTION_SHUTDOWN_FLAG_NONE, error_code: ec }
    }

    /// Polls for the end of the connection.
    pub fn poll_shutdown(&mut self, waker: Waker) -> (res: Poll<()>)
        ensures
            final(self).ctx@ == (QConnectionCtxView {
                shutdown: old(self).ctx@.shutdown.poll(waker),
                ..old(self).ctx@
            }),
            res == old(self).ctx@.shutdown_result(),
            res is Pending <==> old(self).ctx@.shutdown.data is None
                && !old(self).ctx@.shutdown.is_closed,
    {
        match self.ctx.shtdwn_sig.poll(waker) {
            Poll::Ready(_) => Poll::Ready(()),
            Poll::Pending => Poll::Pending,
        }
    }

    /// Begins the shutdown of the connection and returns the call that does it, unless a
    /// shutdown is pending. Its end is polled for with `poll_shutdown`.
    pub fn shutdown(&mut self, ec: u64) -> (res: Option<ConnectionCall>)
        ensures
            final(self).ctx@ == old(self).ctx@.begin_shutdown(),
            res == old(self).ctx@.shutdown_call(ec),
            old(self).ctx@.shutdown.frontend_pending ==> res is None,
            !old(self).ctx@.shutdown.frontend_pending ==> (res matches Some(
                ConnectionCall::Shutdown { flags, error_code },
            ) && error_code == ec && flags == CONNECTION_SHUTDOWN_FLAG_NONE),
    {
        if self.ctx.shtdwn_sig.is_frontend_pending() {
            return None;
        }
        self.ctx.shtdwn_sig.set_frontend_pending();
        Some(self.shutdown_only(ec))
    }
}

} // verus!
