//! Streams: what their events do, and what their users poll for.
use std::io::ErrorKind;
use std::task::{Poll, Waker};

use crate::buffer::{concatenation, Buffer, QBytesMut};
use crate::channel::{Channel, ChannelView};
use crate::error::Error;
use crate::oneshot::{Delivery, QReceiver};
use crate::sync::{QSignal, QWakableQueue, QWakableQueueView, QWakableSig, QWakableSigView};
use crate::task::Woken;
use crate::transport::{
    StreamCall, QUIC_STATUS_SUCCESS, STREAM_SHUTDOWN_FLAG_GRACEFUL, STREAM_SHUTDOWN_FLAG_NONE,
};

use vstd::prelude::*;

verus! {

/// How a send ended.
#[derive(Debug, Clone, Copy)]
pub enum SentPayload {
    Success,
    Canceled,
}

/// How a start ended.
#[derive(Debug, Clone, Copy)]
pub enum StartPayload {
    Success,
}

/// An event of a stream.
pub enum StreamEvent<'a> {
    /// The start of the stream came to its end.
    StartComplete,
    /// A send came to its end, and its buffer is free again.
    SendComplete { canceled: bool },
    /// Bytes arrived.
    Receive { buffers: &'a [Buffer<'a>] },
    /// The peer ended its sending side.
    PeerSendShutdown,
    /// The peer aborted its sending side.
    PeerSendAborted { error_code: u64 },
    /// The peer aborted its receiving side.
    PeerReceiveAborted { error_code: u64 },
    /// The end of this side's sending was acknowledged.
    SendShutdownComplete,
    /// The stream is over.
    ShutdownComplete,
    /// An event of another type.
    Unknown { event_type: u32 },
}

/// What the callback of a stream and the users of the stream share. `B` is the buffer that a
/// send holds on to.
#[verifier::reject_recursive_types(B)]
pub struct QStreamCtx<B> {
    start_sig: QWakableQueue<StartPayload>,
    receive_ch: Channel<QBytesMut>,
    send_sig: QWakableSig<SentPayload>,
    send_shtdwn_sig: QWakableSig<()>,
    drain_sig: QSignal,
    is_drained: bool,
    /// The transport reads the buffer in the background, so it is held until the send ends.
    pending_buf: Option<B>,
}

/// What a `QStreamCtx` holds.
pub struct QStreamCtxView<B> {
    /// Ends of the start that nobody has polled yet.
    pub start: QWakableQueueView<StartPayload>,
    /// Chunks that nobody has polled yet; open while more can arrive.
    pub received: ChannelView<QBytesMut>,
    /// The end of the send.
    pub send: QWakableSigView<SentPayload>,
    /// The end of this side's sending.
    pub send_shutdown: QWakableSigView<()>,
    /// The channel of the receiver that waits for the end of the stream, if there is one.
    pub drain: Option<int>,
    /// Whether the stream is over.
    pub is_drained: bool,
    /// The buffer of the send that has not ended.
    pub pending_buf: Option<B>,
}

impl<B> QStreamCtxView<B> {
    /// A stream without any event.
    pub open spec fn init() -> Self {
        QStreamCtxView {
            start: QWakableQueueView::init(),
            received: ChannelView::init(),
            send: QWakableSigView::init(),
            send_shutdown: QWakableSigView::init(),
            drain: None,
            is_drained: false,
            pending_buf: None,
        }
    }

    /// What holds of a stream after any events and calls.
    pub open spec fn wf(self) -> bool {
        &&& self.start.wf()
        &&& self.send.wf()
        &&& self.send_shutdown.wf()
        // A start and a send are always answered; the end of the stream ends the rest.
        &&& !self.start.is_closed
        &&& !self.send.is_closed
        &&& self.send_shutdown.is_closed == self.is_drained
        &&& self.is_drained ==> !self.received.open
        // Nobody waits for an end that has come.
        &&& self.is_drained ==> self.drain is None
        // A buffer is held exactly while its send is pending, and that send has no end yet.
        &&& self.pending_buf is Some <==> self.send.frontend_pending
        &&& self.send.frontend_pending ==> self.send.data is None
    }

    /// Whether the transport can give `event` to the stream in this state.
    pub open spec fn accepts(self, event: StreamEvent) -> bool {
        match event {
            StreamEvent::StartComplete => !self.start.is_closed,
            StreamEvent::SendComplete { .. } => self.pending_buf is Some && self.send.can_set(),
            StreamEvent::Receive { buffers } => buffers@.len() > 0 ==> self.received.open,
            StreamEvent::SendShutdownComplete => self.send_shutdown.can_set(),
            _ => true,
        }
    }

    /// After the start came to its end.
    pub open spec fn start_complete(self) -> Self {
        QStreamCtxView { start: self.start.insert(StartPayload::Success), ..self }
    }

    /// After a send came to its end.
    pub open spec fn send_complete(self, canceled: bool) -> Self {
        QStreamCtxView {
            pending_buf: None,
            send: self.send.set(
                if canceled {
                    SentPayload::Canceled
                } else {
                    SentPayload::Success
                },
            ),
            ..self
        }
    }

    /// Whether this state came to be `next` when `buffers` arrived: their bytes are queued as
    /// one chunk, unless there is no buffer.
    pub open spec fn receives(self, buffers: Seq<Buffer>, next: Self) -> bool {
        if buffers.len() == 0 {
            next == self
        } else {
            let chunk = next.received.queue.last();
            &&& chunk.bytes() == concatenation(buffers)
            &&& next == (QStreamCtxView { received: self.received.send(chunk), ..self })
        }
    }

    /// After the peer ended or aborted its sending side: what has arrived can still be polled.
    pub open spec fn peer_send_ended(self) -> Self {
        QStreamCtxView { received: self.received.close(), ..self }
    }

    /// After the end of this side's sending was acknowledged.
    pub open spec fn send_shutdown_complete(self) -> Self {
        QStreamCtxView { send_shutdown: self.send_shutdown.set(()), ..self }
    }

    /// After the end of the stream.
    pub open spec fn shutdown_complete(self) -> Self {
        QStreamCtxView {
            received: self.received.close(),
            send_shutdown: self.send_shutdown.close(),
            is_drained: true,
            drain: None,
            ..self
        }
    }

    /// Whether `event` turns this state into `next`.
    pub open spec fn handles(self, event: StreamEvent, next: Self) -> bool {
        match event {
            StreamEvent::StartComplete => next == self.start_complete(),
            StreamEvent::SendComplete { canceled } => next == self.send_complete(canceled),
            StreamEvent::Receive { buffers } => self.receives(buffers@, next),
            StreamEvent::PeerSendShutdown => next == self.peer_send_ended(),
            StreamEvent::PeerSendAborted { .. } => next == self.peer_send_ended(),
            StreamEvent::SendShutdownComplete => next == self.send_shutdown_complete(),
            StreamEvent::ShutdownComplete => next == self.shutdown_complete(),
            StreamEvent::PeerReceiveAborted { .. } => next == self,
            StreamEvent::Unknown { .. } => next == self,
        }
    }

    /// The tasks that `event` wakes.
    pub open spec fn wakes(self, event: StreamEvent) -> Seq<Waker> {
        match event {
            StreamEvent::StartComplete => self.start.pending(),
            StreamEvent::SendComplete { .. } => self.send.set_wakes(),
            StreamEvent::SendShutdownComplete => self.send_shutdown.set_wakes(),
            StreamEvent::ShutdownComplete => self.send_shutdown.close_wakes(),
            _ => Seq::empty(),
        }
    }

    /// The channel that `event` sends the end of the stream to, if it sends it.
    pub open spec fn drains(self, event: StreamEvent) -> Option<int> {
        match event {
            StreamEvent::ShutdownComplete => self.drain,
            _ => None,
        }
    }

    /// What polling for the end of the start returns.
    pub open spec fn start_result(self) -> Poll<Result<(), Error>> {
        match self.start.poll_result() {
            Poll::Ready(Some(_)) => Poll::Ready(Ok(())),
            Poll::Ready(None) => Poll::Ready(Err(Error::Kind(ErrorKind::BrokenPipe))),
            Poll::Pending => Poll::Pending,
        }
    }

    /// What polling for the end of the send returns.
    pub open spec fn send_result(self) -> Poll<Result<(), Error>> {
        match self.send.data {
            Some(SentPayload::Success) => Poll::Ready(Ok(())),
            Some(SentPayload::Canceled) => {
                Poll::Ready(Err(Error::Kind(ErrorKind::ConnectionAborted)))
            },
            None => if self.send.is_closed {
                Poll::Ready(Err(Error::Kind(ErrorKind::BrokenPipe)))
            } else {
                Poll::Pending
            },
        }
    }

    /// What polling for room for the next send returns.
    pub open spec fn ready_result(self) -> Poll<Result<(), Error>> {
        if self.send.frontend_pending {
            self.send_result()
        } else {
            Poll::Ready(Ok(()))
        }
    }

    /// What polling for the end of this side's sending returns.
    pub open spec fn shutdown_result(self) -> Poll<Result<(), Error>> {
        if self.send_shutdown.data is Some || self.send_shutdown.is_closed {
            Poll::Ready(Ok(()))
        } else {
            Poll::Pending
        }
    }

    /// Whether a send can be begun: none is pending.
    pub open spec fn can_send(self) -> bool {
        !self.send.frontend_pending && self.pending_buf is None
    }

    /// After a send of `buffer` was begun, and the end of the last one was forgotten.
    pub open spec fn send_only(self, buffer: B) -> Self {
        QStreamCtxView {
            send: self.send.begin(),
            pending_buf: Some(buffer),
            ..self
        }
    }
}

impl<B> View for QStreamCtx<B> {
    type V = QStreamCtxView<B>;

    closed spec fn view(&self) -> QStreamCtxView<B> {
        QStreamCtxView {
            start: self.start_sig@,
            received: self.receive_ch@,
            send: self.send_sig@,
            send_shutdown: self.send_shtdwn_sig@,
            drain: self.drain_sig@,
            is_drained: self.is_drained,
            pending_buf: self.pending_buf,
        }
    }
}

impl<B> QStreamCtx<B> {
    /// A stream without any event.
    pub fn new() -> (res: Self)
        ensures
            res@ == QStreamCtxView::<B>::init(),
    {
        QStreamCtx {
            start_sig: QWakableQueue::default(),
            receive_ch: Channel::new(),
            send_sig: QWakableSig::default(),
            send_shtdwn_sig: QWakableSig::default(),
            drain_sig: QSignal::new(),
            is_drained: false,
            pending_buf: None,
        }
    }

    /// The start came to its end.
    pub fn on_start_complete(&mut self) -> (woken: Woken)
        requires
            !old(self)@.start.is_closed,
        ensures
            final(self)@ == old(self)@.start_complete(),
            woken@ == old(self)@.start.pending(),
    {
        self.start_sig.insert(StartPayload::Success)
    }

    /// The send came to its end: its buffer is released, and its end can be polled.
    pub fn on_send_complete(&mut self, canceled: bool) -> (woken: Woken)
        requires
            old(self)@.pending_buf is Some,
            old(self)@.send.can_set(),
        ensures
            final(self)@ == old(self)@.send_complete(canceled),
            woken@ == old(self)@.send.set_wakes(),
    {
        let payload = if canceled {
            SentPayload::Canceled
        } else {
            SentPayload::Success
        };
        self.pending_buf = None;
        self.send_sig.set(payload)
    }

    /// Bytes arrived. An event without a buffer is ignored: nobody expects an empty chunk.
    pub fn on_receive(&mut self, buffs: &[Buffer])
        requires
            buffs@.len() > 0 ==> old(self)@.received.open,
        ensures
            old(self)@.receives(buffs@, final(self)@),
    {
        if buffs.len() == 0 {
            return;
        }
        let chunk = QBytesMut::from_buffs(buffs);
        self.receive_ch.send(chunk);
        assert(self@.received.queue.last() == chunk);
    }

    /// The peer ended its sending side. What has arrived can still be polled.
    pub fn on_peer_send_shutdown(&mut self)
        ensures
            final(self)@ == old(self)@.peer_send_ended(),
    {
        self.receive_ch.close();
    }

    /// The peer aborted its sending side.
    pub fn on_peer_send_abort(&mut self, error_code: u64)
        ensures
            final(self)@ == old(self)@.peer_send_ended(),
    {
        self.receive_ch.close();
    }

    /// The end of this side's sending was acknowledged.
    pub fn on_send_shutdown_complete(&mut self) -> (woken: Woken)
        requires
            old(self)@.send_shutdown.can_set(),
        ensures
            final(self)@ == old(self)@.send_shutdown_complete(),
            woken@ == old(self)@.send_shutdown.set_wakes(),
    {
        self.send_shtdwn_sig.set(())
    }

    /// The stream is over: all of its channels end, and the one that waits for this is told.
    pub fn on_shutdown_complete(&mut self) -> (res: (Woken, Option<Delivery<()>>))
        ensures
            final(self)@ == old(self)@.shutdown_complete(),
            res.0@ == old(self)@.send_shutdown.close_wakes(),
            match res.1 {
                Some(sent) => old(self)@.drain == Some(sent.channel()),
                None => old(self)@.drain is None,
            },
    {
        self.receive_ch.close();
        let woken = self.send_shtdwn_sig.close();
        self.is_drained = true;
        if self.drain_sig.can_set() {
            (woken, Some(self.drain_sig.set(())))
        } else {
            (woken, None)
        }
    }

    /// Whether the transport can give `event` to the stream in this state.
    pub fn accepts(&self, event: &StreamEvent) -> (res: bool)
        ensures
            res == self@.accepts(*event),
    {
        match event {
            StreamEvent::StartComplete => !self.start_sig.is_closed(),
            StreamEvent::SendComplete { .. } => {
                self.pending_buf.is_some() && self.send_sig.can_set()
            },
            StreamEvent::Receive { buffers } => buffers.len() == 0 || self.receive_ch.is_open(),
            StreamEvent::SendShutdownComplete => self.send_shtdwn_sig.can_set(),
            _ => true,
        }
    }
}

/// What handling an event of a stream comes to.
pub struct StreamOutcome {
    /// The status that the transport is given.
    pub status: u32,
    /// The tasks that were woken.
    pub woken: Woken,
    /// What the one that waits for the end of the stream was sent.
    pub drained: Option<Delivery<()>>,
}

/// Handles an event of a stream.
pub fn qstream_handler_callback<B>(ctx: &mut QStreamCtx<B>, event: StreamEvent) -> (res:
    StreamOutcome)
    requires
        old(ctx)@.accepts(event),
    ensures
        old(ctx)@.handles(event, final(ctx)@),
        !(event is StartComplete) ==> final(ctx)@.start == old(ctx)@.start,
        !(event is SendComplete) ==> final(ctx)@.send == old(ctx)@.send && final(ctx)@.pending_buf
            == old(ctx)@.pending_buf,
        !(event is Receive) ==> final(ctx)@.received.queue == old(ctx)@.received.queue,
        !(event is PeerSendShutdown || event is PeerSendAborted || event is ShutdownComplete)
            ==> final(ctx)@.received.open == old(ctx)@.received.open,
        !(event is SendShutdownComplete || event is ShutdownComplete) ==> final(ctx)@.send_shutdown
            == old(ctx)@.send_shutdown,
        !(event is ShutdownComplete) ==> final(ctx)@.is_drained == old(ctx)@.is_drained
            && final(ctx)@.drain == old(ctx)@.drain,
        res.status == QUIC_STATUS_SUCCESS,
        res.woken@ == old(ctx)@.wakes(event),
        match res.drained {
            Some(sent) => old(ctx)@.drains(event) == Some(sent.channel()),
            None => old(ctx)@.drains(event) is None,
        },
{
    let status = QUIC_STATUS_SUCCESS;
    let mut woken = Woken::none();
    let mut drained = None;
    match event {
        StreamEvent::StartComplete => {
            woken = ctx.on_start_complete();
        },
        StreamEvent::SendComplete { canceled } => {
            woken = ctx.on_send_complete(canceled);
        },
        StreamEvent::Receive { buffers } => {
            ctx.on_receive(buffers);
        },
        StreamEvent::PeerSendShutdown => {
            ctx.on_peer_send_shutdown();
        },
        StreamEvent::PeerSendAborted { error_code } => {
            ctx.on_peer_send_abort(error_code);
        },
        StreamEvent::SendShutdownComplete => {
            woken = ctx.on_send_shutdown_complete();
        },
        StreamEvent::ShutdownComplete => {
            let (w, d) = ctx.on_shutdown_complete();
            woken = w;
            drained = d;
        },
        StreamEvent::PeerReceiveAborted { .. } => {},
        StreamEvent::Unknown { .. } => {},
    }
    StreamOutcome { status, woken, drained }
}

/// A stream as its users see it.
#[verifier::reject_recursive_types(B)]
pub struct QStream<B> {
    pub ctx: QStreamCtx<B>,
}

impl<B> QStream<B> {
    /// A stream that the peer has started, and the call that sets its callback.
    pub fn attach() -> (res: (Self, StreamCall))
        ensures
            res.0.ctx@ == QStreamCtxView::<B>::init(),
            res.1 == StreamCall::SetCallback,
    {
        (QStream { ctx: QStreamCtx::new() }, StreamCall::SetCallback)
    }

    /// A stream of this side, and the call that opens it.
    pub fn open(flags: u32) -> (res: (Self, StreamCall))
        ensures
            res.0.ctx@ == QStreamCtxView::<B>::init(),
            res.1 == (StreamCall::Open { flags }),
    {
        (QStream { ctx: QStreamCtx::new() }, StreamCall::Open { flags })
    }

    /// The call that starts the stream. Its end is polled for with `poll_start`.
    pub fn start_only(&self, flags: u32) -> (res: StreamCall)
        ensures
            res == (StreamCall::Start { flags }),
    {
        StreamCall::Start { flags }
    }

    /// Polls for the end of the start.
    pub fn poll_start(&mut self, waker: Waker) -> (res: Poll<Result<(), Error>>)
        requires
            old(self).ctx@.start.can_poll(),
        ensures
            final(self).ctx@ == (QStreamCtxView {
                start: old(self).ctx@.start.poll(waker),
                ..old(self).ctx@
            }),
            res == old(self).ctx@.start_result(),
            res is Pending <==> old(self).ctx@.start.data.len() == 0
                && !old(self).ctx@.start.is_closed,
            old(self).ctx@.start.data.len() > 0 ==> res == Poll::Ready(Ok::<(), Error>(())),
    {
        match self.ctx.start_sig.poll(waker) {
            Poll::Ready(op) => match op {
                Some(_) => Poll::Ready(Ok(())),
                None => Poll::Ready(Err(Error::Kind(ErrorKind::BrokenPipe))),
            },
            Poll::Pending => Poll::Pending,
        }
    }

    /// Whether `poll_start` can be called: one poll can be pending at a time.
    pub fn can_poll_start(&self) -> (res: bool)
        ensures
            res == self.ctx@.start.can_poll(),
    {
        self.ctx.start_sig.can_poll()
    }

    /// Polls for the next chunk of received bytes. `Ready(None)` is the end of the peer's
    /// sending.
    pub fn poll_receive(&mut self, waker: Waker) -> (res: Poll<Option<QBytesMut>>)
        ensures
            final(self).ctx@ == (QStreamCtxView {
                received: final(self).ctx@.received,
                ..old(self).ctx@
            }),
            old(self).ctx@.received.polls(waker, res, final(self).ctx@.received),
    {
        self.ctx.receive_ch.poll_recv(waker)
    }

    /// Begins a send: `buffer` is held until the send ends, and the call that sends it is
    /// returned.
    pub fn send_only(&mut self, buffer: B, flags: u32) -> (res: StreamCall)
        requires
            old(self).ctx@.can_send(),
        ensures
            final(self).ctx@ == old(self).ctx@.send_only(buffer),
            res == (StreamCall::Send { flags }),
    {
        self.ctx.send_sig.begin();
        self.ctx.pending_buf = Some(buffer);
        StreamCall::Send { flags }
    }

    /// Whether `send_only` can be called.
    pub fn can_send(&self) -> (res: bool)
        ensures
            res == self.ctx@.can_send(),
    {
        !self.ctx.send_sig.is_frontend_pending() && self.ctx.pending_buf.is_none()
    }

    /// The buffer of the send that has not ended.
    pub fn pending_buf(&self) -> (res: Option<&B>)
        ensures
            match res {
                Some(b) => self.ctx@.pending_buf == Some(*b),
                None => self.ctx@.pending_buf is None,
            },
    {
        self.ctx.pending_buf.as_ref()
    }

    /// Polls for the end of the send.
    pub fn poll_send(&mut self, waker: Waker) -> (res: Poll<Result<(), Error>>)
        ensures
            final(self).ctx@ == (QStreamCtxView {
                send: old(self).ctx@.send.poll(waker),
                ..old(self).ctx@
            }),
            res == old(self).ctx@.send_result(),
            res is Pending <==> old(self).ctx@.send.data is None
                && !old(self).ctx@.send.is_closed,
            res == Poll::Ready(Ok::<(), Error>(())) <==> old(self).ctx@.send.data == Some(
                SentPayload::Success,
            ),
    {
        match self.ctx.send_sig.poll(waker) {
            Poll::Ready(op) => match op {
                Some(e) => match e {
                    SentPayload::Success => Poll::Ready(Ok(())),
                    SentPayload::Canceled => {
                        Poll::Ready(Err(Error::Kind(ErrorKind::ConnectionAborted)))
                    },
                },
                None => Poll::Ready(Err(Error::Kind(ErrorKind::BrokenPipe))),
            },
            Poll::Pending => Poll::Pending,
        }
    }

    /// Polls for room for the next send: there is room unless a send is pending.
    pub fn poll_ready_send(&mut self, waker: Waker) -> (res: Poll<Result<(), Error>>)
        ensures
            final(self).ctx@ == if old(self).ctx@.send.frontend_pending {
                QStreamCtxView { send: old(self).ctx@.send.poll(waker), ..old(self).ctx@ }
            } else {
                old(self).ctx@
            },
            res == old(self).ctx@.ready_result(),
            !old(self).ctx@.send.frontend_pending ==> res == Poll::Ready(Ok::<(), Error>(())),
            old(self).ctx@.send.frontend_pending ==> (res is Pending <==> old(self).ctx@.send.data
                is None && !old(self).ctx@.send.is_closed),
    {
        if !self.ctx.send_sig.is_frontend_pending() {
            return Poll::Ready(Ok(()));
        }
        self.poll_send(waker)
    }

    /// Begins a shutdown, and returns the call that does it. Its end is polled for with
    /// `poll_shutdown`.
    pub fn shutdown_only(&mut self, flags: u32) -> (res: StreamCall)
        requires
            old(self).ctx@.send_shutdown.can_reset(),
        ensures
            final(self).ctx@ == (QStreamCtxView {
                send_shutdown: old(self).ctx@.send_shutdown.reset(),
                ..old(self).ctx@
            }),
            res == (StreamCall::Shutdown { flags, error_code: 0 }),
    {
        self.ctx.send_shtdwn_sig.reset();
        StreamCall::Shutdown { flags, error_code: 0 }
    }

    /// Whether a shutdown can be begun.
    pub fn can_shutdown(&self) -> (res: bool)
        ensures
            res == self.ctx@.send_shutdown.can_reset(),
    {
        self.ctx.send_shtdwn_sig.can_reset()
    }

    /// Polls for the end of this side's sending.
    pub fn poll_shutdown(&mut self, waker: Waker) -> (res: Poll<Result<(), Error>>)
        ensures
            final(self).ctx@ == (QStreamCtxView {
                send_shutdown: old(self).ctx@.send_shutdown.poll(waker),
                ..old(self).ctx@
            }),
            res == old(self).ctx@.shutdown_result(),
            res is Pending <==> old(self).ctx@.send_shutdown.data is None
                && !old(self).ctx@.send_shutdown.is_closed,
            res is Ready ==> res == Poll::Ready(Ok::<(), Error>(())),
    {
        match self.ctx.send_shtdwn_sig.poll(waker) {
            Poll::Ready(_) => Poll::Ready(Ok(())),
            Poll::Pending => Poll::Pending,
        }
    }

    /// Begins the shutdown of this side's sending. It is not called if the last send said that
    /// nothing follows.
    pub fn shutdown(&mut self) -> (res: StreamCall)
        requires
            old(self).ctx@.send_shutdown.can_reset(),
        ensures
            final(self).ctx@ == (QStreamCtxView {
                send_shutdown: old(self).ctx@.send_shutdown.reset(),
                ..old(self).ctx@
            }),
            res == (StreamCall::Shutdown { flags: STREAM_SHUTDOWN_FLAG_NONE, error_code: 0 }),
    {
        self.shutdown_only(STREAM_SHUTDOWN_FLAG_NONE)
    }

    /// The call that shuts the stream down with `error_code`. Nobody waits for its end.
    pub fn stop_sending(&self, error_code: u64) -> (res: StreamCall)
        ensures
            res == (StreamCall::Shutdown { flags: STREAM_SHUTDOWN_FLAG_GRACEFUL, error_code }),
    {
        StreamCall::Shutdown { flags: STREAM_SHUTDOWN_FLAG_GRACEFUL, error_code }
    }

    /// The receiver of the end of the stream, or `None` if the stream is over.
    pub fn drain(&mut self) -> (res: Option<QReceiver<()>>)
        requires
            old(self).ctx@.is_drained || old(self).ctx@.drain is None,
        ensures
            res is None <==> old(self).ctx@.is_drained,
            match res {
                Some(rx) => {
                    &&& rx.channel() is Some
                    &&& final(self).ctx@ == (QStreamCtxView {
                        drain: rx.channel(),
                        ..old(self).ctx@
                    })
                },
                None => final(self).ctx@ == old(self).ctx@,
            },
    {
        if self.ctx.is_drained {
            return None;
        }
        Some(self.ctx.drain_sig.reset())
    }

    /// Whether `drain` can be called: one receiver can wait at a time.
    pub fn can_drain(&self) -> (res: bool)
        ensures
            res == (self.ctx@.is_drained || self.ctx@.drain is None),
    {
        self.ctx.is_drained || !self.ctx.drain_sig.can_set()
    }
}

} // verus!
