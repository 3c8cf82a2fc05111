//! What streams, connections and listeners promise over several events and calls.
use std::io::ErrorKind;
use std::task::{Poll, Waker};

use crate::buffer::{concatenation, Buffer, QBytesMut};
use crate::channel::ChannelView;
use crate::conn::{connect_result_spec, is_uni, ConnStatus, ConnectionEvent, QConnectionCtxView};
use crate::error::Error;
use crate::listener::{ListenerEvent, QListenerCtxView, State};
use crate::msh3::{opening_calls, opens, started, H3Error, H3Stream};
use crate::stream::{QStreamCtxView, StreamEvent};
use crate::transport::StreamCall;

use vstd::prelude::*;

verus! {

/// What `n` polls of a channel that gave something leave, but for the waker.
pub open spec fn recv_times<T>(c: ChannelView<T>, n: nat) -> ChannelView<T>
    decreases n,
{
    if n == 0 {
        c
    } else {
        recv_times(c, (n - 1) as nat).take()
    }
}

proof fn channel_recv_times<T>(c: ChannelView<T>, n: nat)
    ensures
        n <= c.queue.len() ==> recv_times(c, n) == (ChannelView {
            queue: c.queue.skip(n as int),
            ..c
        }),
        n >= c.queue.len() ==> recv_times(c, n).queue.len() == 0 && recv_times(c, n).open == c.open,
    decreases n,
{
    if n == 0 {
        assert(c.queue.skip(0) =~= c.queue);
    } else {
        channel_recv_times(c, (n - 1) as nat);
        if n <= c.queue.len() {
            assert(c.queue.skip(n - 1).drop_first() =~= c.queue.skip(n as int));
        }
    }
}

/// Items leave a channel in the order in which they went in, also after it was closed; then a
/// closed channel has come to its end, and an open one has nothing yet.
pub proof fn channel_is_first_in_first_out<T>(c: ChannelView<T>, n: nat)
    ensures
        recv_times(c, n).recv_result() == if n < c.queue.len() {
            Poll::Ready(Some(c.queue[n as int]))
        } else if c.open {
            Poll::Pending
        } else {
            Poll::Ready(None)
        },
{
    channel_recv_times(c, n);
}

/// How many of the first `n` of `results` gave something.
pub open spec fn answered<T>(results: Seq<Poll<Option<T>>>, n: nat) -> nat
    decreases n,
{
    if n == 0 {
        0
    } else {
        answered(results, (n - 1) as nat) + if results[n - 1] is Ready {
            1nat
        } else {
            0nat
        }
    }
}

/// However often a channel is polled, and however often the runtime puts the task off, the polls
/// that give something give what the channel held, in order and each of it once, and then its
/// end; the others change nothing but the waker, and leave theirs. `states` are the channel
/// before each poll and after the last one.
pub proof fn polls_give_what_there_is<T>(
    states: Seq<ChannelView<T>>,
    wakers: Seq<Waker>,
    results: Seq<Poll<Option<T>>>,
    n: nat,
)
    requires
        n <= results.len(),
        states.len() == results.len() + 1,
        forall|i: int|
            0 <= i < results.len() ==> states[i].polls(
                wakers[i],
                #[trigger] results[i],
                states[i + 1],
            ),
    ensures
        states[n as int].queue == recv_times(states[0], answered(results, n)).queue,
        states[n as int].open == states[0].open,
        n < results.len() && results[n as int] is Ready ==> results[n as int] == recv_times(
            states[0],
            answered(results, n),
        ).recv_result(),
        n < results.len() && results[n as int] is Pending ==> states[n as int + 1].waker == Some(
            wakers[n as int],
        ),
    decreases n,
{
    channel_recv_times(states[0], answered(results, n));
    if n > 0 {
        polls_give_what_there_is(states, wakers, results, (n - 1) as nat);
        channel_recv_times(states[0], answered(results, (n - 1) as nat));
        assert(states[n - 1].polls(wakers[n - 1], results[n - 1], states[n as int]));
    }
    if n < results.len() {
        assert(states[n as int].polls(wakers[n as int], results[n as int], states[n as int + 1]));
    }
}

/// No wake-up is lost: the waker of a pending poll stays with the channel until something is sent
/// or the sender is dropped, which wakes it, and then there is something for the next poll. If
/// there was something before, the runtime has put the task off, and has woken it.
pub proof fn channel_wakes_its_poller<T>(
    c: ChannelView<T>,
    waker: Waker,
    next: ChannelView<T>,
    data: T,
)
    requires
        c.polls(waker, Poll::Pending, next),
    ensures
        next.waker == Some(waker),
        next.queue == c.queue && next.open == c.open,
        next.send(data).waker is None,
        next.send(data).recv_result() == Poll::Ready(Some(c.queue.push(data)[0])),
        next.close().waker is None,
        next.close().recv_result() is Ready,
{
}

/// Every event that a stream accepts keeps what holds of a stream.
pub proof fn stream_events_keep_wf<B>(
    v: QStreamCtxView<B>,
    event: StreamEvent,
    next: QStreamCtxView<B>,
)
    requires
        v.wf(),
        v.accepts(event),
        v.handles(event, next),
    ensures
        QStreamCtxView::<B>::init().wf(),
        next.wf(),
{
}

/// A stream can always be told the end of its start and its own end; the end of a send exactly
/// while a buffer is held, and the end of this side's sending unless the stream is over without
/// it.
pub proof fn stream_is_ready_for_its_events<B>(v: QStreamCtxView<B>, canceled: bool)
    requires
        v.wf(),
    ensures
        v.accepts(StreamEvent::StartComplete),
        v.accepts(StreamEvent::ShutdownComplete),
        v.accepts(StreamEvent::SendComplete { canceled }) <==> v.pending_buf is Some,
        v.accepts(StreamEvent::SendShutdownComplete) <==> !(v.is_drained
            && v.send_shutdown.data is None),
{
}

/// Every call of a user keeps what holds of a stream.
pub proof fn stream_calls_keep_wf<B>(
    v: QStreamCtxView<B>,
    waker: Waker,
    chunk: Poll<Option<QBytesMut>>,
    left: ChannelView<QBytesMut>,
    buffer: B,
    channel: Option<int>,
)
    requires
        v.wf(),
        v.received.polls(waker, chunk, left),
    ensures
        (QStreamCtxView { start: v.start.poll(waker), ..v }).wf(),
        (QStreamCtxView { received: left, ..v }).wf(),
        (QStreamCtxView { send: v.send.poll(waker), ..v }).wf(),
        (QStreamCtxView { send_shutdown: v.send_shutdown.poll(waker), ..v }).wf(),
        v.send_only(buffer).wf(),
        v.send_shutdown.can_reset() ==> (QStreamCtxView {
            send_shutdown: v.send_shutdown.reset(),
            ..v
        }).wf(),
        !v.is_drained ==> (QStreamCtxView { drain: channel, ..v }).wf(),
{
}

/// The bytes of several chunks, one after the other.
pub open spec fn chunk_bytes(chunks: Seq<QBytesMut>) -> Seq<u8>
    decreases chunks.len(),
{
    if chunks.len() == 0 {
        Seq::empty()
    } else {
        chunk_bytes(chunks.drop_last()) + chunks.last().bytes()
    }
}

/// No byte that arrives is lost, doubled or moved: what waits to be polled after an event is
/// what waited before, followed by the bytes of the event.
pub proof fn received_bytes_are_queued_in_order<B>(
    v: QStreamCtxView<B>,
    buffers: Seq<Buffer>,
    next: QStreamCtxView<B>,
)
    requires
        v.receives(buffers, next),
    ensures
        chunk_bytes(next.received.queue) == chunk_bytes(v.received.queue) + concatenation(buffers),
{
    if buffers.len() == 0 {
        assert(chunk_bytes(v.received.queue) + concatenation(buffers) =~= chunk_bytes(
            v.received.queue,
        ));
    } else {
        assert(next.received.queue.drop_last() =~= v.received.queue);
    }
}

proof fn chunk_bytes_from_the_front(chunks: Seq<QBytesMut>)
    requires
        chunks.len() > 0,
    ensures
        chunk_bytes(chunks) == chunks[0].bytes() + chunk_bytes(chunks.drop_first()),
    decreases chunks.len(),
{
    if chunks.len() == 1 {
        assert(chunks.drop_last() =~= Seq::empty());
        assert(chunks.drop_first() =~= Seq::empty());
        assert(chunk_bytes(Seq::empty()) =~= Seq::<u8>::empty());
        assert(Seq::<u8>::empty() + chunks[0].bytes() =~= chunks[0].bytes() + Seq::<u8>::empty());
    } else {
        chunk_bytes_from_the_front(chunks.drop_last());
        assert(chunks.drop_first().drop_last() =~= chunks.drop_last().drop_first());
        assert(chunk_bytes(chunks) =~= chunks[0].bytes() + chunk_bytes(chunks.drop_first()));
    }
}

/// A poll takes the first of the bytes that wait and leaves the others; one that gives no chunk
/// leaves all of them.
pub proof fn polled_bytes_come_from_the_front<B>(
    v: QStreamCtxView<B>,
    waker: Waker,
    res: Poll<Option<QBytesMut>>,
    left: ChannelView<QBytesMut>,
)
    requires
        v.received.polls(waker, res, left),
    ensures
        chunk_bytes(v.received.queue) == match res {
            Poll::Ready(Some(chunk)) => chunk.bytes() + chunk_bytes(left.queue),
            _ => chunk_bytes(left.queue),
        },
{
    if v.received.queue.len() > 0 {
        chunk_bytes_from_the_front(v.received.queue);
    }
}

/// What has arrived when the peer ends its sending can still be polled, in order; after that
/// comes the end.
pub proof fn pending_chunks_outlive_the_peers_sending<B>(v: QStreamCtxView<B>, n: nat)
    ensures
        recv_times(v.peer_send_ended().received, n).recv_result() == if n
            < v.received.queue.len() {
            Poll::Ready(Some(v.received.queue[n as int]))
        } else {
            Poll::Ready(None)
        },
{
    channel_is_first_in_first_out(v.peer_send_ended().received, n);
}

/// The buffer of a send is held from its beginning to its end. Until then there is no room for
/// another send, and those that poll for room or for the end wait; the end wakes them. Then the
/// end of this send can be polled, which succeeded unless it was canceled, and there is room for
/// the next one.
pub proof fn send_holds_its_buffer<B>(v: QStreamCtxView<B>, buffer: B, canceled: bool)
    requires
        v.wf(),
        v.pending_buf is None,
    ensures
        ({
            let begun = v.send_only(buffer);
            let ended = begun.send_complete(canceled);
            &&& begun.pending_buf == Some(buffer)
            &&& begun.accepts(StreamEvent::SendComplete { canceled })
            &&& !begun.can_send()
            &&& begun.ready_result() is Pending
            &&& begun.send_result() is Pending
            &&& begun.wakes(StreamEvent::SendComplete { canceled }) == begun.send.wakers
            &&& ended.pending_buf is None
            &&& ended.send_result() == Poll::Ready(
                if canceled {
                    Err(Error::Kind(ErrorKind::ConnectionAborted))
                } else {
                    Ok(())
                },
            )
            &&& ended.ready_result() == Poll::Ready(Ok::<(), Error>(()))
            &&& ended.can_send()
        }),
{
}

/// Nobody waits for the end of a stream in vain: a receiver that waits gets it with the event,
/// and once the stream is over there is nothing to wait for. All other polls end too.
pub proof fn stream_end_reaches_everybody<B>(v: QStreamCtxView<B>, n: nat)
    requires
        v.wf(),
    ensures
        v.drains(StreamEvent::ShutdownComplete) == v.drain,
        v.shutdown_complete().is_drained,
        v.shutdown_complete().drain is None,
        v.shutdown_complete().shutdown_result() == Poll::Ready(Ok::<(), Error>(())),
        v.wakes(StreamEvent::ShutdownComplete) == v.send_shutdown.wakers,
        n >= v.received.queue.len() ==> recv_times(v.shutdown_complete().received, n).recv_result() == Poll::Ready(None::<QBytesMut>),
{
    channel_is_first_in_first_out(v.shutdown_complete().received, n);
    if v.is_drained {
        assert(v.send_shutdown.wakers =~= Seq::empty());
    }
}

/// Every event that a connection accepts keeps what holds of a connection, and so do its users'
/// calls.
pub proof fn connection_keeps_wf<S>(
    v: QConnectionCtxView<S>,
    event: ConnectionEvent<S>,
    waker: Waker,
    res: Poll<Option<S>>,
    streams: ChannelView<S>,
    uni_streams: ChannelView<S>,
)
    requires
        v.wf(),
    ensures
        QConnectionCtxView::<S>::init().wf(),
        v.accepts(event) ==> v.handle(event).wf(),
        v.begin_shutdown().wf(),
        (QConnectionCtxView { shutdown: v.shutdown.poll(waker), ..v }).wf(),
        v.streams.polls(waker, res, streams) ==> (QConnectionCtxView { streams, ..v }).wf(),
        v.uni_streams.polls(waker, res, uni_streams) ==> (QConnectionCtxView {
            uni_streams,
            ..v
        }).wf(),
{
}

/// The one that waits for a connection is answered once, by the connection or by the transport
/// that gives up, and not by anything else.
pub proof fn connecting_is_answered_once<S>(v: QConnectionCtxView<S>, event: ConnectionEvent<S>)
    requires
        v.accepts(event),
        v.connecting is Some,
    ensures
        v.answers(event) is Some <==> v.handle(event).connecting is None,
        v.answers(event) is Some <==> (event is Connected
            || event is ShutdownInitiatedByTransport),
        event is Connected ==> connect_result_spec(v.answers(event)->0) is Ok,
        event matches ConnectionEvent::ShutdownInitiatedByTransport { error_code, status }
            ==> v.answers(event) == Some(ConnStatus::Transport(error_code, status))
            && connect_result_spec(v.answers(event)->0) == Err::<(), Error>(
            Error::Os(status as i32),
        ),
{
}

/// A stream of the peer goes to the users that poll for its kind, behind the streams that are
/// there, and to nobody else.
pub proof fn peer_streams_are_sorted<S>(v: QConnectionCtxView<S>, stream: S, flags: u32)
    requires
        v.accepts(ConnectionEvent::PeerStreamStarted { stream, flags }),
    ensures
        ({
            let next = v.handle(ConnectionEvent::PeerStreamStarted { stream, flags });
            if is_uni(flags) {
                &&& next.uni_streams.queue == v.uni_streams.queue.push(stream)
                &&& next.streams == v.streams
            } else {
                &&& next.streams.queue == v.streams.queue.push(stream)
                &&& next.uni_streams == v.uni_streams
            }
        }),
{
}

/// The end of a connection reaches everybody: those that poll for it, and those that poll for
/// streams, once they have got the streams that are there. This holds of a connection that the
/// transport gave up too, as far as streams are concerned.
pub proof fn connection_end_reaches_everybody<S>(
    v: QConnectionCtxView<S>,
    error_code: u64,
    status: u32,
    n: nat,
)
    requires
        v.wf(),
        n >= v.streams.queue.len(),
        n >= v.uni_streams.queue.len(),
    ensures
        ({
            let over = v.handle(ConnectionEvent::ShutdownComplete);
            let lost = v.handle(
                ConnectionEvent::ShutdownInitiatedByTransport { error_code, status },
            );
            &&& v.accepts(ConnectionEvent::ShutdownComplete)
            &&& over.shutdown_result() == Poll::Ready(())
            &&& v.wakes(ConnectionEvent::ShutdownComplete) == v.shutdown.wakers
            &&& recv_times(over.streams, n).recv_result() == Poll::Ready(None::<S>)
            &&& recv_times(over.uni_streams, n).recv_result() == Poll::Ready(None::<S>)
            &&& recv_times(lost.streams, n).recv_result() == Poll::Ready(None::<S>)
            &&& recv_times(lost.uni_streams, n).recv_result() == Poll::Ready(None::<S>)
        }),
{
    let over = v.handle(ConnectionEvent::ShutdownComplete);
    let lost = v.handle(ConnectionEvent::ShutdownInitiatedByTransport { error_code, status });
    channel_is_first_in_first_out(over.streams, n);
    channel_is_first_in_first_out(over.uni_streams, n);
    channel_is_first_in_first_out(lost.streams, n);
    channel_is_first_in_first_out(lost.uni_streams, n);
    if v.shutdown.data is Some {
        assert(v.shutdown.wakers =~= Seq::empty());
    }
}

/// However often users wish to shut a connection down, the transport is asked once until it
/// answers.
pub proof fn shutdown_is_requested_once<S>(
    v: QConnectionCtxView<S>,
    event: ConnectionEvent<S>,
    first: u64,
    second: u64,
)
    requires
        v.accepts(event),
        !(event is ShutdownComplete),
    ensures
        v.begin_shutdown().shutdown_call(second) is None,
        v.begin_shutdown().handle(event).shutdown_call(second) is None,
        v.shutdown_call(first) is Some ==> !v.shutdown.frontend_pending,
{
}

/// Every event that a listener accepts keeps what holds of a listener, and so do the calls of
/// its user that are allowed.
pub proof fn listener_keeps_wf<C>(
    v: QListenerCtxView<C>,
    event: ListenerEvent<C>,
    channel: int,
    popped: Option<int>,
)
    requires
        v.wf(),
    ensures
        QListenerCtxView::<C>::init().wf(),
        v.accepts(event) ==> v.handle(event).wf(),
        v.state == State::Idle ==> v.start().wf(),
        v.state == State::Started ==> v.stop(Some(channel)).wf(),
        v.state != State::Idle && v.state != State::Stopped ==> (QListenerCtxView {
            connections: v.connections.pop(popped),
            ..v
        }).wf(),
{
}

/// A listener goes through its life in one order, and no connection arrives but while it is
/// started.
pub proof fn listener_lives_in_order<C>(v: QListenerCtxView<C>, event: ListenerEvent<C>)
    requires
        v.wf(),
        v.accepts(event),
    ensures
        event is NewConnection ==> v.state == State::Started && v.handle(event).state == v.state,
        event is StopComplete ==> v.state == State::StopRequested && v.handle(event).state
            == State::Stopped,
        v.handle(event).state == State::Stopped ==> v.handle(event).can_accept(),
{
}

/// The one that accepts when nothing is queued waits on `channel`, and the next connection is
/// sent to it.
pub proof fn next_connection_reaches_the_one_that_waits<C>(
    v: QListenerCtxView<C>,
    channel: int,
    connection: C,
)
    requires
        v.wf(),
        v.state == State::Started,
        v.connections.pop_result() is None,
    ensures
        ({
            let waits = QListenerCtxView {
                connections: v.connections.pop(Some(channel)),
                ..v
            };
            let event = ListenerEvent::NewConnection { connection };
            &&& waits.connections.waiting == Some(channel)
            &&& waits.accepts(event)
            &&& waits.answers(event) == Some(Ok::<C, u32>(connection))
            &&& waits.handle(event).connections.waiting is None
            &&& waits.handle(event).connections.items.len() == 0
        }),
{
}

/// The one that waits for a connection when the listener stops is told that there is none.
pub proof fn stopping_ends_the_wait<C>(v: QListenerCtxView<C>)
    requires
        v.wf(),
        v.accepts(ListenerEvent::StopComplete),
        v.connections.waiting is Some,
    ensures
        v.answers(ListenerEvent::StopComplete) == Some(Err::<C, u32>(0)),
        v.handle(ListenerEvent::StopComplete).connections.waiting is None,
        v.handle(ListenerEvent::StopComplete).stopping is None,
{
}

/// A listener on a channel keeps what holds of it, and the connections that arrived before it
/// stopped can still be accepted, in order.
pub proof fn channel_listener_keeps_wf<C>(
    v: crate::channel_listener::QListenerCtxView<C>,
    event: ListenerEvent<C>,
    waker: Waker,
    res: Poll<Option<C>>,
    connections: ChannelView<C>,
    n: nat,
)
    requires
        v.wf(),
        v.accepts(event),
    ensures
        crate::channel_listener::QListenerCtxView::<C>::init().wf(),
        v.handle(event).wf(),
        v.connections.polls(waker, res, connections)
            ==> (crate::channel_listener::QListenerCtxView { connections, ..v }).wf(),
        v.state == State::Idle ==> v.start().wf(),
        v.state == State::Started ==> v.stop().wf(),
        event is StopComplete ==> recv_times(v.handle(event).connections, n).recv_result() == if n < v.connections.queue.len() {
            Poll::Ready(Some(v.connections.queue[n as int]))
        } else {
            Poll::Ready(None)
        },
{
    channel_is_first_in_first_out(v.handle(event).connections, n);
}

/// A stream that was opened is handed out once, when it has started. The first poll opens and
/// starts it, both with `flags`; while the start is pending it is kept, and the later polls open
/// nothing and poll for the start of that stream; the poll that finds the start ended hands the
/// stream out, or the error of the start without a code, and keeps nothing, so that the next one
/// opens a new stream. `kept` is what is kept before each poll and after the last one, which is
/// the first that finds the start ended.
pub proof fn opened_stream_is_handed_out_once<S: Clone>(
    opened: S,
    flags: u32,
    kept: Seq<Option<H3Stream<S>>>,
    starts: Seq<Poll<Result<(), Error>>>,
    results: Seq<Poll<Result<H3Stream<S>, H3Error>>>,
    k: nat,
)
    requires
        kept.len() == k + 2,
        starts.len() == k + 1,
        results.len() == k + 1,
        kept[0] is None,
        forall|i: int|
            0 <= i <= k ==> opens(
                kept[i],
                if i == 0 {
                    Some(opened)
                } else {
                    None
                },
                #[trigger] starts[i],
                kept[i + 1],
                results[i],
            ),
        forall|i: int| 0 <= i < k ==> (#[trigger] results[i]) is Pending,
        results[k as int] is Ready,
    ensures
        opening_calls(kept[0], flags) == Some(
            (StreamCall::Open { flags }, StreamCall::Start { flags }),
        ),
        forall|i: int|
            1 <= i <= k ==> {
                &&& (#[trigger] kept[i]) == kept[1]
                &&& kept[i] matches Some(h) && h.inner() == opened && !h.finished()
                &&& opening_calls(kept[i], flags) is None
                &&& starts[i - 1] is Pending
            },
        started(opened, starts[k as int], results[k as int]),
        kept[k as int + 1] is None,
        opening_calls(kept[k as int + 1], flags) is Some,
{
    opened_stream_is_kept(opened, kept, starts, results, k, k);
    assert forall|i: int| 1 <= i <= k implies {
        &&& (#[trigger] kept[i]) == kept[1]
        &&& kept[i] matches Some(h) && h.inner() == opened && !h.finished()
        &&& opening_calls(kept[i], flags) is None
        &&& starts[i - 1] is Pending
    } by {
        opened_stream_is_kept(opened, kept, starts, results, k, i as nat);
        assert(results[i - 1] is Pending);
        assert(starts[i - 1] is Pending);
    }
    assert(!(starts[k as int] is Pending));
}

proof fn opened_stream_is_kept<S: Clone>(
    opened: S,
    kept: Seq<Option<H3Stream<S>>>,
    starts: Seq<Poll<Result<(), Error>>>,
    results: Seq<Poll<Result<H3Stream<S>, H3Error>>>,
    k: nat,
    i: nat,
)
    requires
        i <= k,
        kept[0] is None,
        forall|j: int|
            0 <= j <= k ==> opens(
                kept[j],
                if j == 0 {
                    Some(opened)
                } else {
                    None
                },
                #[trigger] starts[j],
                kept[j + 1],
                results[j],
            ),
        forall|j: int| 0 <= j < k ==> (#[trigger] results[j]) is Pending,
    ensures
        i > 0 ==> kept[i as int] == kept[1] && (kept[1] matches Some(h) && h.inner() == opened
            && !h.finished()),
    decreases i,
{
    if i > 0 {
        opened_stream_is_kept(opened, kept, starts, results, k, (i - 1) as nat);
        assert(results[i - 1] is Pending);
        assert(starts[i - 1] is Pending);
    }
}

} // verus!
