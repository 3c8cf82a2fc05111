//! Streams in the shape that HTTP/3 asks for, handed out before their start has ended.
use std::task::Poll;

use crate::conn::QConnection;
use crate::msh3::{H3Error, H3Stream};
use crate::stream::{QStream, QStreamCtxView};
use crate::transport::{
    StreamCall, SEND_FLAG_NONE, STREAM_OPEN_FLAG_NONE, STREAM_OPEN_FLAG_UNIDIRECTIONAL,
    STREAM_SHUTDOWN_FLAG_GRACEFUL,
};

use vstd::prelude::*;

verus! {

/// A connection.
#[verifier::reject_recursive_types(S)]
pub struct H3Conn<S> {
    pub inner: QConnection<S>,
}

impl<S> H3Conn<S> {
    pub fn new(inner: QConnection<S>) -> (res: Self)
        ensures
            res.inner == inner,
    {
        H3Conn { inner }
    }

    /// A new bidirectional stream, and the calls that open and start it, in this order.
    pub fn open_bidi<B>() -> (res: (QStream<B>, StreamCall, StreamCall))
        ensures
            res.0.ctx@ == QStreamCtxView::<B>::init(),
            res.1 == (StreamCall::Open { flags: STREAM_OPEN_FLAG_NONE }),
            res.2 == (StreamCall::Start { flags: SEND_FLAG_NONE }),
    {
        let (stream, open) = QStream::open(STREAM_OPEN_FLAG_NONE);
        let start = stream.start_only(SEND_FLAG_NONE);
        (stream, open, start)
    }

    /// A new unidirectional stream, and the calls that open and start it, in this order.
    pub fn open_send<B>() -> (res: (QStream<B>, StreamCall, StreamCall))
        ensures
            res.0.ctx@ == QStreamCtxView::<B>::init(),
            res.1 == (StreamCall::Open { flags: STREAM_OPEN_FLAG_UNIDIRECTIONAL }),
            res.2 == (StreamCall::Start { flags: STREAM_OPEN_FLAG_UNIDIRECTIONAL }),
    {
        let (stream, open) = QStream::open(STREAM_OPEN_FLAG_UNIDIRECTIONAL);
        let start = stream.start_only(STREAM_OPEN_FLAG_UNIDIRECTIONAL);
        (stream, open, start)
    }

    /// Hands out the stream with the handle `opened`, which was opened and whose start was
    /// asked for.
    pub fn poll_open(opened: S) -> (res: Poll<Result<H3Stream<S>, H3Error>>)
        ensures
            res matches Poll::Ready(Ok(stream)) && stream.inner() == opened && !stream.finished(),
    {
        Poll::Ready(Ok(H3Stream::new(opened)))
    }
}

/// Ends the sending side without a poll for the end: the first call begins the shutdown and
/// returns the call that does it. `finished` tells whether this was done.
pub fn poll_finish<B>(finished: &mut bool, stream: &mut QStream<B>) -> (res: (
    Option<StreamCall>,
    Poll<Result<(), H3Error>>,
))
    requires
        !*old(finished) ==> old(stream).ctx@.send_shutdown.can_reset(),
    ensures
        *final(finished),
        res.0 == if *old(finished) {
            None
        } else {
            Some(StreamCall::Shutdown { flags: STREAM_SHUTDOWN_FLAG_GRACEFUL, error_code: 0 })
        },
        res.1 == Poll::<Result<(), H3Error>>::Ready(Ok(())),
        final(stream).ctx@ == if *old(finished) {
            old(stream).ctx@
        } else {
            QStreamCtxView {
                send_shutdown: old(stream).ctx@.send_shutdown.reset(),
                ..old(stream).ctx@
            }
        },
{
    let mut call = None;
    if !*finished {
        call = Some(stream.shutdown_only(STREAM_SHUTDOWN_FLAG_GRACEFUL));
        *finished = true;
    }
    (call, Poll::Ready(Ok(())))
}

} // verus!
