//! Streams and connections in the shape that HTTP/3 asks for.
use std::io::ErrorKind;
use std::task::{Poll, Waker};

use h3::quic::{InvalidStreamId, StreamId};

use crate::buffer::QBytesMut;
use crate::conn::{QConnection, QConnectionCtxView};
use crate::error::Error;
use crate::stream::{QStream, QStreamCtxView};
use crate::transport::{
    ConnectionCall, StreamCall, CONNECTION_SHUTDOWN_FLAG_NONE, SEND_FLAG_NONE,
    STREAM_OPEN_FLAG_NONE, STREAM_OPEN_FLAG_UNIDIRECTIONAL, STREAM_SHUTDOWN_FLAG_GRACEFUL,
};

use vstd::prelude::*;

verus! {

/// `h3::quic::StreamId`, carried as an opaque value.
#[verifier::external_type_specification]
#[verifier::external_body]
pub struct ExStreamId(StreamId);

/// `h3::quic::InvalidStreamId`, the error of a number that is too large for a stream.
#[verifier::external_type_specification]
#[verifier::external_body]
pub struct ExInvalidStreamId(InvalidStreamId);

/// The largest number of a stream, which is what a variable-length integer can hold.
pub const MAX_STREAM_ID: u64 = 0x3fff_ffff_ffff_ffff;

/// The identifier that `h3` makes of the number of a stream.
pub uninterp spec fn stream_id_of(id: u64) -> StreamId;

/// Calls `StreamId::try_from`, which makes an identifier of every number but those that are too
/// large.
#[verifier::external_body]
fn stream_id(id: u64) -> (res: Result<StreamId, InvalidStreamId>)
    ensures
        res is Ok <==> id <= MAX_STREAM_ID,
        res matches Ok(s) ==> s == stream_id_of(id),
{
    StreamId::try_from(id)
}

/// An error of a stream or a connection.
#[derive(Debug)]
pub struct H3Error {
    status: Error,
    error_code: Option<u64>,
}

impl H3Error {
    /// What went wrong.
    pub closed spec fn status(self) -> Error {
        self.status
    }

    /// The code of the protocol, if there is one.
    pub closed spec fn error_code(self) -> Option<u64> {
        self.error_code
    }

    pub fn new(status: Error, ec: Option<u64>) -> (res: Self)
        ensures
            res.status() == status,
            res.error_code() == ec,
    {
        H3Error { status, error_code: ec }
    }

    /// Whether `kind` is that of a timeout.
    pub fn kind_is_timeout(kind: ErrorKind) -> (res: bool)
        ensures
            res == (kind == ErrorKind::TimedOut),
    {
        match kind {
            ErrorKind::TimedOut => true,
            _ => false,
        }
    }

    /// Whether the error is a timeout. Of an operating system's code, the operating system
    /// decides.
    pub fn is_timeout(&self) -> (res: bool)
        ensures
            self.status() matches Error::Kind(kind) ==> res == (kind == ErrorKind::TimedOut),
    {
        H3Error::kind_is_timeout(self.status.kind())
    }

    /// The code of the protocol, if there is one.
    pub fn err_code(&self) -> (res: Option<u64>)
        ensures
            res == self.error_code(),
    {
        self.error_code
    }
}

/// Whether `res` is `inner` with its error, if it is one, as an error of HTTP/3 without a code.
pub open spec fn wraps<T>(inner: Poll<Result<T, Error>>, res: Poll<Result<T, H3Error>>) -> bool {
    match inner {
        Poll::Ready(Ok(v)) => res == Poll::<Result<T, H3Error>>::Ready(Ok(v)),
        Poll::Ready(Err(e)) => {
            &&& res matches Poll::Ready(Err(h))
            &&& h.status() == e
            &&& h.error_code() is None
        },
        Poll::Pending => res is Pending,
    }
}

fn wrap<T>(inner: Poll<Result<T, Error>>) -> (res: Poll<Result<T, H3Error>>)
    ensures
        wraps(inner, res),
{
    match inner {
        Poll::Ready(Ok(v)) => Poll::Ready(Ok(v)),
        Poll::Ready(Err(e)) => Poll::Ready(Err(H3Error::new(e, None))),
        Poll::Pending => Poll::Pending,
    }
}

/// A stream. `S` is the handle that its users and its callback share it by.
#[derive(Debug)]
#[verifier::reject_recursive_types(S)]
pub struct H3Stream<S> {
    inner: S,
    shutdown: bool,
}

impl<S> H3Stream<S> {
    /// The handle of the stream.
    pub closed spec fn inner(self) -> S {
        self.inner
    }

    /// Whether the end of the sending side was asked for.
    pub closed spec fn finished(self) -> bool {
        self.shutdown
    }

    /// The call that ending the sending side comes to: the shutdown the first time, and nothing
    /// after that.
    pub open spec fn finish_call(self) -> Option<StreamCall> {
        if self.finished() {
            None
        } else {
            Some(StreamCall::Shutdown { flags: STREAM_SHUTDOWN_FLAG_GRACEFUL, error_code: 0 })
        }
    }

    pub fn new(s: S) -> (res: Self)
        ensures
            res.inner() == s,
            !res.finished(),
    {
        H3Stream { inner: s, shutdown: false }
    }

    pub fn get_ref(&self) -> (res: &S)
        ensures
            *res == self.inner(),
    {
        &self.inner
    }

    /// Whether the end of the sending side was asked for.
    pub fn is_finished(&self) -> (res: bool)
        ensures
            res == self.finished(),
    {
        self.shutdown
    }

    /// The identifier of the stream that the transport has given the number `id`.
    pub fn get_id(id: u64) -> (res: StreamId)
        requires
            id <= MAX_STREAM_ID,
        ensures
            res == stream_id_of(id),
    {
        stream_id(id).unwrap()
    }

    /// Polls for room for the next send.
    pub fn poll_ready<B>(stream: &mut QStream<B>, waker: Waker) -> (res: Poll<Result<(), H3Error>>)
        ensures
            final(stream).ctx@ == if old(stream).ctx@.send.frontend_pending {
                QStreamCtxView { send: old(stream).ctx@.send.poll(waker), ..old(stream).ctx@ }
            } else {
                old(stream).ctx@
            },
            wraps(old(stream).ctx@.ready_result(), res),
            !old(stream).ctx@.send.frontend_pending ==> res == Poll::Ready(Ok::<(), H3Error>(())),
            old(stream).ctx@.send.frontend_pending ==> (res is Pending
                <==> old(stream).ctx@.send.data is None && !old(stream).ctx@.send.is_closed),
    {
        wrap(stream.poll_ready_send(waker))
    }

    /// Begins to send `data`, and returns the call that does it.
    pub fn send_data<B>(stream: &mut QStream<B>, data: B) -> (res: StreamCall)
        requires
            old(stream).ctx@.can_send(),
        ensures
            final(stream).ctx@ == old(stream).ctx@.send_only(data),
            res == (StreamCall::Send { flags: SEND_FLAG_NONE }),
    {
        stream.send_only(data, SEND_FLAG_NONE)
    }

    /// Ends the sending side. The first call begins the shutdown and returns the call that does
    /// it; every call registers `waker` for the end, which is not waited for.
    pub fn poll_finish<B>(&mut self, stream: &mut QStream<B>, waker: Waker) -> (res: (
        Option<StreamCall>,
        Poll<Result<(), H3Error>>,
    ))
        requires
            !old(self).finished() ==> old(stream).ctx@.send_shutdown.can_reset(),
        ensures
            final(self).finished(),
            final(self).inner() == old(self).inner(),
            res.0 == old(self).finish_call(),
            res.0 == if old(self).finished() {
                None
            } else {
                Some(
                    StreamCall::Shutdown { flags: STREAM_SHUTDOWN_FLAG_GRACEFUL, error_code: 0 },
                )
            },
            res.1 == Poll::<Result<(), H3Error>>::Ready(Ok(())),
            final(stream).ctx@ == (QStreamCtxView {
                send_shutdown: if old(self).finished() {
                    old(stream).ctx@.send_shutdown.poll(waker)
                } else {
                    old(stream).ctx@.send_shutdown.reset().poll(waker)
                },
                ..old(stream).ctx@
            }),
    {
        let mut call = None;
        if !self.shutdown {
            call = Some(stream.shutdown_only(STREAM_SHUTDOWN_FLAG_GRACEFUL));
            self.shutdown = true;
        }
        let _ = stream.poll_shutdown(waker);
        (call, Poll::Ready(Ok(())))
    }

    /// Polls for the next chunk of received bytes.
    pub fn poll_data<B>(stream: &mut QStream<B>, waker: Waker) -> (res: Poll<
        Result<Option<QBytesMut>, H3Error>,
    >)
        ensures
            final(stream).ctx@ == (QStreamCtxView {
                received: final(stream).ctx@.received,
                ..old(stream).ctx@
            }),
            match res {
                Poll::Ready(Ok(chunk)) => old(stream).ctx@.received.polls(
                    waker,
                    Poll::Ready(chunk),
                    final(stream).ctx@.received,
                ),
                Poll::Ready(Err(_)) => false,
                Poll::Pending => old(stream).ctx@.received.polls(
                    waker,
                    Poll::Pending,
                    final(stream).ctx@.received,
                ),
            },
    {
        match stream.poll_receive(waker) {
            Poll::Ready(chunk) => Poll::Ready(Ok(chunk)),
            Poll::Pending => Poll::Pending,
        }
    }

    /// The call that asks the peer to stop sending.
    pub fn stop_sending<B>(stream: &QStream<B>, error_code: u64) -> (res: StreamCall)
        ensures
            res == (StreamCall::Shutdown { flags: STREAM_SHUTDOWN_FLAG_GRACEFUL, error_code }),
    {
        stream.stop_sending(error_code)
    }
}

impl<S: Clone> H3Stream<S> {
    /// The sending and the receiving half of the stream, by two handles.
    pub fn split(self) -> (res: (Self, Self))
        ensures
            res.0 == self,
            cloned(self.inner(), res.1.inner()),
            !res.1.finished(),
    {
        let copy = self.inner.clone();
        (self, H3Stream::new(copy))
    }
}

/// Whether `res` is what polling for the start of a stream returns where the start itself gave
/// `start`: the stream by a handle that is a copy of `s` once it has started.
pub open spec fn started<S: Clone>(
    s: S,
    start: Poll<Result<(), Error>>,
    res: Poll<Result<H3Stream<S>, H3Error>>,
) -> bool {
    match start {
        Poll::Ready(Ok(_)) => {
            &&& res matches Poll::Ready(Ok(stream))
            &&& cloned(s, stream.inner())
            &&& !stream.finished()
        },
        Poll::Ready(Err(e)) => {
            &&& res matches Poll::Ready(Err(h))
            &&& h.status() == e
            &&& h.error_code() is None
        },
        Poll::Pending => res is Pending,
    }
}

/// A connection.
#[verifier::reject_recursive_types(S)]
pub struct H3Conn<S> {
    pub inner: QConnection<S>,
    /// The bidirectional stream that was opened and has not started, if there is one.
    pub bidi: Option<H3Stream<S>>,
    /// The unidirectional stream that was opened and has not started, if there is one.
    pub send: Option<H3Stream<S>>,
}

impl<S> H3Conn<S> {
    pub fn new(inner: QConnection<S>) -> (res: Self)
        ensures
            res.inner == inner,
            res.bidi is None,
            res.send is None,
    {
        H3Conn { inner, bidi: None, send: None }
    }

    /// The handle of the bidirectional stream that was opened and has not started.
    pub fn opening_bidi(&self) -> (res: Option<&S>)
        ensures
            match res {
                Some(s) => self.bidi matches Some(h) && h.inner() == *s,
                None => self.bidi is None,
            },
    {
        match &self.bidi {
            Some(h) => Some(h.get_ref()),
            None => None,
        }
    }

    /// The handle of the unidirectional stream that was opened and has not started.
    pub fn opening_send(&self) -> (res: Option<&S>)
        ensures
            match res {
                Some(s) => self.send matches Some(h) && h.inner() == *s,
                None => self.send is None,
            },
    {
        match &self.send {
            Some(h) => Some(h.get_ref()),
            None => None,
        }
    }

    /// A new stream, and the calls that open and start it, in this order.
    fn open_stream<B>(flags: u32) -> (res: (QStream<B>, StreamCall, StreamCall))
        ensures
            res.0.ctx@ == QStreamCtxView::<B>::init(),
            res.1 == (StreamCall::Open { flags }),
            res.2 == (StreamCall::Start { flags }),
    {
        let (stream, open) = QStream::open(flags);
        let start = stream.start_only(flags);
        (stream, open, start)
    }

    /// What polling for a started bidirectional stream begins with: a new stream, and the calls
    /// that open and start it, in this order, unless one was opened and has not started.
    pub fn begin_bidi<B>(&self) -> (res: Option<(QStream<B>, StreamCall, StreamCall)>)
        ensures
            match res {
                Some((stream, open, start)) => {
                    &&& stream.ctx@ == QStreamCtxView::<B>::init()
                    &&& opening_calls(self.bidi, STREAM_OPEN_FLAG_NONE) == Some((open, start))
                },
                None => opening_calls(self.bidi, STREAM_OPEN_FLAG_NONE) is None,
            },
    {
        if self.bidi.is_some() {
            None
        } else {
            Some(Self::open_stream(STREAM_OPEN_FLAG_NONE))
        }
    }

    /// As `begin_bidi`, for a unidirectional stream.
    pub fn begin_send<B>(&self) -> (res: Option<(QStream<B>, StreamCall, StreamCall)>)
        ensures
            match res {
                Some((stream, open, start)) => {
                    &&& stream.ctx@ == QStreamCtxView::<B>::init()
                    &&& opening_calls(self.send, STREAM_OPEN_FLAG_UNIDIRECTIONAL) == Some(
                        (open, start),
                    )
                },
                None => opening_calls(self.send, STREAM_OPEN_FLAG_UNIDIRECTIONAL) is None,
            },
    {
        if self.send.is_some() {
            None
        } else {
            Some(Self::open_stream(STREAM_OPEN_FLAG_UNIDIRECTIONAL))
        }
    }

    /// Polls for the next unidirectional stream of the peer.
    pub fn poll_accept_recv(&mut self, waker: Waker) -> (res: Poll<
        Result<Option<H3Stream<S>>, H3Error>,
    >)
        ensures
            final(self).inner.ctx@ == (QConnectionCtxView {
                uni_streams: final(self).inner.ctx@.uni_streams,
                ..old(self).inner.ctx@
            }),
            final(self).bidi == old(self).bidi,
            final(self).send == old(self).send,
            accepts_as(handles(res), res),
            res matches Poll::Ready(Ok(Some(h))) ==> !h.finished(),
            !(res matches Poll::Ready(Err(_))),
            old(self).inner.ctx@.uni_streams.polls(
                waker,
                handles(res),
                final(self).inner.ctx@.uni_streams,
            ),
    {
        let p = self.inner.poll_accept_uni(waker);
        accept_as(p)
    }

    /// Polls for the next bidirectional stream of the peer.
    pub fn poll_accept_bidi(&mut self, waker: Waker) -> (res: Poll<
        Result<Option<H3Stream<S>>, H3Error>,
    >)
        ensures
            final(self).inner.ctx@ == (QConnectionCtxView {
                streams: final(self).inner.ctx@.streams,
                ..old(self).inner.ctx@
            }),
            final(self).bidi == old(self).bidi,
            final(self).send == old(self).send,
            accepts_as(handles(res), res),
            res matches Poll::Ready(Ok(Some(h))) ==> !h.finished(),
            !(res matches Poll::Ready(Err(_))),
            old(self).inner.ctx@.streams.polls(
                waker,
                handles(res),
                final(self).inner.ctx@.streams,
            ),
    {
        let p = self.inner.poll_accept(waker);
        accept_as(p)
    }

    /// The call that closes the connection with an error code of HTTP/3.
    pub fn close(&self, code: u64) -> (res: ConnectionCall)
        ensures
            res == (ConnectionCall::Shutdown {
                flags: CONNECTION_SHUTDOWN_FLAG_NONE,
                error_code: code,
            }),
    {
        self.inner.shutdown_only(code)
    }
}

/// The calls that polling for a started stream begins with, where `kept` is the stream that was
/// opened and has not started: none if there is one, and else those that open and start a new
/// one.
pub open spec fn opening_calls<S>(kept: Option<H3Stream<S>>, flags: u32) -> Option<
    (StreamCall, StreamCall),
> {
    if kept is Some {
        None
    } else {
        Some((StreamCall::Open { flags }, StreamCall::Start { flags }))
    }
}

/// What a poll for a stream of the peer gave, with the stream by its handle.
pub open spec fn handles<S>(res: Poll<Result<Option<H3Stream<S>>, H3Error>>) -> Poll<Option<S>> {
    match res {
        Poll::Ready(Ok(Some(stream))) => Poll::Ready(Some(stream.inner())),
        Poll::Ready(_) => Poll::Ready(None),
        Poll::Pending => Poll::Pending,
    }
}

/// Whether `res` is `polled` with its stream, if there is one, as one of HTTP/3.
pub open spec fn accepts_as<S>(
    polled: Poll<Option<S>>,
    res: Poll<Result<Option<H3Stream<S>>, H3Error>>,
) -> bool {
    match polled {
        Poll::Ready(Some(s)) => {
            &&& res matches Poll::Ready(Ok(Some(stream)))
            &&& stream.inner() == s
            &&& !stream.finished()
        },
        Poll::Ready(None) => res matches Poll::Ready(Ok(None)),
        Poll::Pending => res is Pending,
    }
}

fn accept_as<S>(polled: Poll<Option<S>>) -> (res: Poll<Result<Option<H3Stream<S>>, H3Error>>)
    ensures
        accepts_as(polled, res),
{
    match polled {
        Poll::Ready(Some(s)) => Poll::Ready(Ok(Some(H3Stream::new(s)))),
        Poll::Ready(None) => Poll::Ready(Ok(None)),
        Poll::Pending => Poll::Pending,
    }
}

impl<S: Clone> H3Conn<S> {
    /// Polls for the start of `stream`, which has the handle `s`.
    pub fn poll_start_stream<B>(s: &S, stream: &mut QStream<B>, waker: Waker) -> (res: Poll<
        Result<H3Stream<S>, H3Error>,
    >)
        requires
            old(stream).ctx@.start.can_poll(),
        ensures
            final(stream).ctx@ == (QStreamCtxView {
                start: old(stream).ctx@.start.poll(waker),
                ..old(stream).ctx@
            }),
            started(*s, old(stream).ctx@.start_result(), res),
            res matches Poll::Ready(Ok(h)) ==> !h.finished() && cloned(*s, h.inner()),
            res is Pending <==> old(stream).ctx@.start_result() is Pending,
    {
        match stream.poll_start(waker) {
            Poll::Ready(Ok(())) => Poll::Ready(Ok(H3Stream::new(s.clone()))),
            Poll::Ready(Err(e)) => Poll::Ready(Err(H3Error::new(e, None))),
            Poll::Pending => Poll::Pending,
        }
    }

    /// Polls for a started stream. To open and to start are two steps of the transport, and a
    /// stream is handed out when it has started: one that was opened is kept in `cache` until
    /// then, and the next call polls for the start of that one. `opened` is the handle of a
    /// stream that was opened for this call, which is the case exactly if none was kept;
    /// `stream` is the one or the other.
    fn poll_open_inner<B>(
        cache: &mut Option<H3Stream<S>>,
        opened: Option<S>,
        stream: &mut QStream<B>,
        waker: Waker,
    ) -> (res: Poll<Result<H3Stream<S>, H3Error>>)
        requires
            *old(cache) is None <==> opened is Some,
            old(stream).ctx@.start.can_poll(),
        ensures
            opens(*old(cache), opened, old(stream).ctx@.start_result(), *final(cache), res),
            res matches Poll::Ready(Ok(h)) ==> !h.finished(),
            res is Pending <==> *final(cache) is Some,
            final(stream).ctx@ == (QStreamCtxView {
                start: old(stream).ctx@.start.poll(waker),
                ..old(stream).ctx@
            }),
    {
        match opened {
            None => {
                let kept = cache.take().unwrap();
                let res = Self::poll_start_stream(kept.get_ref(), stream, waker);
                if let Poll::Pending = &res {
                    *cache = Some(kept);
                }
                res
            },
            Some(s) => {
                let res = Self::poll_start_stream(&s, stream, waker);
                if let Poll::Pending = &res {
                    *cache = Some(H3Stream::new(s));
                }
                res
            },
        }
    }

    /// Polls for a started bidirectional stream; see `opens`. `opened` is the handle of a
    /// stream that was opened for this call, if `begin_bidi` gave one; `stream` is that stream or
    /// else the one that `opening_bidi` gives the handle of.
    pub fn poll_open_bidi<B>(
        &mut self,
        opened: Option<S>,
        stream: &mut QStream<B>,
        waker: Waker,
    ) -> (res: Poll<Result<H3Stream<S>, H3Error>>)
        requires
            old(self).bidi is None <==> opened is Some,
            old(stream).ctx@.start.can_poll(),
        ensures
            opens(
                old(self).bidi,
                opened,
                old(stream).ctx@.start_result(),
                final(self).bidi,
                res,
            ),
            res matches Poll::Ready(Ok(h)) ==> !h.finished(),
            res is Pending <==> final(self).bidi is Some,
            final(self).send == old(self).send,
            final(self).inner == old(self).inner,
            final(stream).ctx@ == (QStreamCtxView {
                start: old(stream).ctx@.start.poll(waker),
                ..old(stream).ctx@
            }),
    {
        Self::poll_open_inner(&mut self.bidi, opened, stream, waker)
    }

    /// Polls for a started unidirectional stream, as `poll_open_bidi` does for a bidirectional
    /// one.
    pub fn poll_open_send<B>(
        &mut self,
        opened: Option<S>,
        stream: &mut QStream<B>,
        waker: Waker,
    ) -> (res: Poll<Result<H3Stream<S>, H3Error>>)
        requires
            old(self).send is None <==> opened is Some,
            old(stream).ctx@.start.can_poll(),
        ensures
            opens(
                old(self).send,
                opened,
                old(stream).ctx@.start_result(),
                final(self).send,
                res,
            ),
            res matches Poll::Ready(Ok(h)) ==> !h.finished(),
            res is Pending <==> final(self).send is Some,
            final(self).bidi == old(self).bidi,
            final(self).inner == old(self).inner,
            final(stream).ctx@ == (QStreamCtxView {
                start: old(stream).ctx@.start.poll(waker),
                ..old(stream).ctx@
            }),
    {
        Self::poll_open_inner(&mut self.send, opened, stream, waker)
    }
}

/// Whether polling for a started stream turns what was kept, `before`, into `after` and returns
/// `res`: the stream is the one that was kept, or else the one that was opened for the poll; it
/// is kept exactly while its start is pending.
pub open spec fn opens<S: Clone>(
    before: Option<H3Stream<S>>,
    opened: Option<S>,
    start: Poll<Result<(), Error>>,
    after: Option<H3Stream<S>>,
    res: Poll<Result<H3Stream<S>, H3Error>>,
) -> bool {
    let s = match before {
        Some(kept) => kept.inner(),
        None => opened->0,
    };
    &&& started(s, start, res)
    &&& match after {
        Some(kept) => start is Pending && kept.inner() == s && (before matches Some(b) ==> kept
            == b) && (before is None ==> !kept.finished()),
        None => !(start is Pending),
    }
}

/// A stream that is handed out can be used to its end: whatever was kept or opened for it, it is
/// not finished, so that ending its sending side asks the transport for a graceful shutdown. It
/// is handed out exactly if its start succeeded; an error of the start is handed on as it is,
/// without a code; and a stream is kept exactly while its start is pending.
pub proof fn opened_stream_can_be_finished<S: Clone>(
    before: Option<H3Stream<S>>,
    opened: Option<S>,
    start: Poll<Result<(), Error>>,
    after: Option<H3Stream<S>>,
    res: Poll<Result<H3Stream<S>, H3Error>>,
)
    requires
        opens(before, opened, start, after, res),
    ensures
        res matches Poll::Ready(Ok(h)) ==> {
            &&& !h.finished()
            &&& h.finish_call() == Some(
                StreamCall::Shutdown { flags: STREAM_SHUTDOWN_FLAG_GRACEFUL, error_code: 0 },
            )
            &&& before matches Some(kept) ==> cloned(kept.inner(), h.inner())
            &&& before is None ==> cloned(opened->0, h.inner())
        },
        (res matches Poll::Ready(Ok(_))) <==> (start matches Poll::Ready(Ok(_))),
        start matches Poll::Ready(Err(e)) ==> (res matches Poll::Ready(Err(h)) && h.status() == e
            && h.error_code() is None),
        res is Pending <==> start is Pending,
        after is Some <==> start is Pending,
{
}

/// A stream of the peer is accepted as it is, and can be finished; no stream is made up or kept
/// back, and accepting fails with no error.
pub proof fn accepted_stream_can_be_finished<S>(
    polled: Poll<Option<S>>,
    res: Poll<Result<Option<H3Stream<S>>, H3Error>>,
)
    requires
        accepts_as(polled, res),
    ensures
        polled is Pending <==> res is Pending,
        polled matches Poll::Ready(Some(s)) ==> (res matches Poll::Ready(Ok(Some(h))) && h.inner()
            == s && !h.finished() && h.finish_call() is Some),
        polled == Poll::Ready(None::<S>) ==> (res matches Poll::Ready(Ok(None))),
        handles(res) == polled,
        !(res matches Poll::Ready(Err(_))),
{
}

/// An error keeps what went wrong and gets no code, and nothing else becomes an error.
pub proof fn wrapped_error_keeps_its_status<T>(
    inner: Poll<Result<T, Error>>,
    res: Poll<Result<T, H3Error>>,
)
    requires
        wraps(inner, res),
    ensures
        inner is Pending <==> res is Pending,
        inner matches Poll::Ready(Ok(v)) ==> res == Poll::Ready(Ok::<T, H3Error>(v)),
        res matches Poll::Ready(Err(h)) ==> inner == Poll::Ready(Err::<T, Error>(h.status()))
            && h.error_code() is None,
{
}

/// Finishing asks for the shutdown once: of two streams that differ in whether this was done, one
/// is asked for it.
pub proof fn stream_is_finished_once<S>(h: H3Stream<S>)
    ensures
        h.finish_call() is Some <==> !h.finished(),
        h.finish_call() matches Some(call) ==> call == (StreamCall::Shutdown {
            flags: STREAM_SHUTDOWN_FLAG_GRACEFUL,
            error_code: 0,
        }),
{
}

} // verus!
