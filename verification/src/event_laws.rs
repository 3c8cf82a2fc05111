//! What streams, connections and listeners promise over any run of events, said of what goes in
//! and what comes out.
use std::io::ErrorKind;
use std::task::{Poll, Waker};

use crate::buffer::concatenation;
use crate::channel::ChannelView;
use crate::conn::{connect_result_spec, is_uni, ConnStatus, ConnectionEvent, QConnectionCtxView};
use crate::error::Error;
use crate::laws::chunk_bytes;
use crate::listener::{ListenerEvent, QListenerCtxView, State};
use crate::stream::{QStreamCtxView, StreamEvent};
use crate::sync::QError;
use crate::transport::{ConnectionCall, CONNECTION_SHUTDOWN_FLAG_NONE};

use vstd::prelude::*;

verus! {

/// A poll of a channel gives the item that has waited longest and takes out that one alone; it
/// gives the end only of a closed channel with nothing left; and one that gives nothing takes
/// nothing. No poll opens or closes the channel.
pub proof fn channel_poll_takes_one_item<T>(
    c: ChannelView<T>,
    waker: Waker,
    res: Poll<Option<T>>,
    next: ChannelView<T>,
)
    requires
        c.polls(waker, res, next),
    ensures
        next.open == c.open,
        match res {
            Poll::Ready(Some(item)) => c.queue == seq![item] + next.queue,
            Poll::Ready(None) => c.queue.len() == 0 && !c.open && next.queue == c.queue,
            Poll::Pending => next.queue == c.queue && next.waker == Some(waker),
        },
{
    if let Poll::Ready(Some(item)) = res {
        assert(c.queue =~= seq![item] + next.queue);
    }
}

/// An item that is sent comes out after all that wait, and no item comes or goes when a channel
/// is closed. Both wake the task whose poll is pending. A new channel is open and empty.
pub proof fn channel_send_adds_one_item<T>(c: ChannelView<T>, data: T)
    ensures
        c.send(data).queue == c.queue + seq![data],
        c.send(data).open == c.open,
        c.send(data).waker is None,
        c.close().queue == c.queue,
        !c.close().open,
        c.close().waker is None,
        ChannelView::<T>::init().queue.len() == 0,
        ChannelView::<T>::init().open,
        ChannelView::<T>::init().waker is None,
{
    assert(c.send(data).queue =~= c.queue + seq![data]);
}

/// Whether `states` are those of a stream before each of `events` and after the last one.
pub open spec fn stream_run<B>(states: Seq<QStreamCtxView<B>>, events: Seq<StreamEvent>) -> bool {
    &&& states.len() == events.len() + 1
    &&& forall|i: int|
        0 <= i < events.len() ==> states[i].accepts(#[trigger] events[i]) && states[i].handles(
            events[i],
            states[i + 1],
        )
}

/// Whether `event` ends the peer's sending.
pub open spec fn ends_receiving(event: StreamEvent) -> bool {
    event is PeerSendShutdown || event is PeerSendAborted || event is ShutdownComplete
}

/// Whether `event` ends the wait for the end of this side's sending.
pub open spec fn ends_sending(event: StreamEvent) -> bool {
    event is SendShutdownComplete || event is ShutdownComplete
}

/// An event changes what it is about and nothing else: the start, the send, what was received,
/// the end of this side's sending and the end of the stream do not interfere. It wakes those that
/// poll for what it is about.
pub proof fn stream_event_minds_its_own_business<B>(
    v: QStreamCtxView<B>,
    event: StreamEvent,
    next: QStreamCtxView<B>,
)
    requires
        v.handles(event, next),
    ensures
        !(event is StartComplete) ==> next.start == v.start,
        !(event is SendComplete) ==> next.send == v.send && next.pending_buf == v.pending_buf,
        !(event is Receive) && !ends_receiving(event) ==> next.received == v.received,
        !ends_sending(event) ==> next.send_shutdown == v.send_shutdown,
        !(event is ShutdownComplete) ==> next.is_drained == v.is_drained && next.drain == v.drain
            && v.drains(event) is None,
        !(event is StartComplete || event is SendComplete || ends_sending(event)) ==> v.wakes(
            event,
        ).len() == 0,
        event is StartComplete ==> v.wakes(event) == (match v.start.waker {
            Some(w) => seq![w],
            None => Seq::<Waker>::empty(),
        }) && next.start.waker is None && next.start.is_closed == v.start.is_closed,
        event is SendComplete && v.send.data is None ==> v.wakes(event) == v.send.wakers
            && next.send.wakers.len() == 0 && next.send.is_closed == v.send.is_closed,
        event is SendShutdownComplete && v.send_shutdown.data is None ==> v.wakes(event)
            == v.send_shutdown.wakers && next.send_shutdown.wakers.len() == 0,
        event is ShutdownComplete && !v.send_shutdown.is_closed ==> v.wakes(event)
            == v.send_shutdown.wakers && next.send_shutdown.wakers.len() == 0,
        event is SendShutdownComplete ==> next.send_shutdown.is_closed
            == v.send_shutdown.is_closed,
        event is ShutdownComplete ==> v.drains(event) == v.drain && next.drain is None
            && next.is_drained && next.send_shutdown.data == v.send_shutdown.data,
{
}

/// A new stream waits for all that can happen: it has not started, holds no buffer, has room for
/// a send, has received nothing and can receive, and is not over.
pub proof fn new_stream_waits<B>()
    ensures
        ({
            let v = QStreamCtxView::<B>::init();
            &&& v.start_result() is Pending && v.start.waker is None
            &&& v.pending_buf is None && v.can_send()
            &&& v.ready_result() == Poll::Ready(Ok::<(), Error>(()))
            &&& v.send_result() is Pending && v.send.wakers.len() == 0
            &&& v.shutdown_result() is Pending && v.send_shutdown.can_reset()
            &&& v.received.queue.len() == 0 && v.received.open
            &&& !v.is_drained && v.drain is None
        }),
{
}

/// What a stream can be told does not hang on what has nothing to do with it: bytes while the peer
/// has not ended its sending, and an event without bytes, an end, an abort or an unknown event at
/// any time.
pub proof fn stream_can_be_told<B>(v: QStreamCtxView<B>, event: StreamEvent)
    ensures
        event matches StreamEvent::Receive { buffers } ==> (v.accepts(event) <==> buffers@.len()
            == 0 || v.received.open),
        event is PeerSendShutdown || event is PeerSendAborted || event is PeerReceiveAborted
            || event is ShutdownComplete || event is Unknown ==> v.accepts(event),
        event is StartComplete ==> (v.accepts(event) <==> !v.start.is_closed),
        event is SendComplete ==> (v.accepts(event) <==> v.pending_buf is Some && (v.send.data
            is Some || !v.send.is_closed)),
        event is SendShutdownComplete ==> (v.accepts(event) <==> v.send_shutdown.data is Some
            || !v.send_shutdown.is_closed),
{
}

/// Those that poll for an answer that can no more come are told that the pipe is broken; but the
/// end of this side's sending has come with the end of the stream.
pub proof fn answer_that_cannot_come_is_an_error<B>(v: QStreamCtxView<B>)
    ensures
        v.start.data.len() == 0 && v.start.is_closed ==> v.start_result() == Poll::Ready(
            Err::<(), Error>(Error::Kind(ErrorKind::BrokenPipe)),
        ),
        v.send.data is None && v.send.is_closed ==> v.send_result() == Poll::Ready(
            Err::<(), Error>(Error::Kind(ErrorKind::BrokenPipe)),
        ),
        v.send_shutdown.is_closed ==> v.shutdown_result() == Poll::Ready(Ok::<(), Error>(())),
{
}

/// The start of a stream is polled for until it is told, whatever else happens; then it has
/// succeeded, and this is told once.
pub proof fn start_is_awaited<B>(
    states: Seq<QStreamCtxView<B>>,
    events: Seq<StreamEvent>,
    n: nat,
    after: QStreamCtxView<B>,
    waker: Waker,
)
    requires
        stream_run(states, events),
        n <= events.len(),
        states[0].start_result() is Pending,
        forall|i: int| 0 <= i < n ==> !((#[trigger] events[i]) is StartComplete),
    ensures
        states[n as int].start_result() is Pending,
        states[n as int].handles(StreamEvent::StartComplete, after) ==> after.start_result()
            == Poll::Ready(Ok::<(), Error>(())) && (QStreamCtxView {
            start: after.start.poll(waker),
            ..after
        }).start_result() is Pending,
    decreases n,
{
    if n > 0 {
        start_is_awaited(states, events, (n - 1) as nat, after, waker);
        let i = n - 1;
        assert(states[i].handles(events[i], states[i + 1]));
        assert(!(events[i] is StartComplete));
    }
}

/// The buffer of a send is held, and those that poll for its end or for room wait, until the end
/// of the send is told, whatever else happens. The end is told as it was, and releases the buffer.
pub proof fn send_is_awaited<B>(
    v: QStreamCtxView<B>,
    buffer: B,
    states: Seq<QStreamCtxView<B>>,
    events: Seq<StreamEvent>,
    n: nat,
    canceled: bool,
    after: QStreamCtxView<B>,
)
    requires
        v.wf(),
        stream_run(states, events),
        states[0] == v.send_only(buffer),
        n <= events.len(),
        forall|i: int| 0 <= i < n ==> !((#[trigger] events[i]) is SendComplete),
    ensures
        ({
            let now = states[n as int];
            &&& now.pending_buf == Some(buffer)
            &&& now.send_result() is Pending
            &&& now.ready_result() is Pending
            &&& !now.can_send()
            &&& now.accepts(StreamEvent::SendComplete { canceled })
            &&& now.handles(StreamEvent::SendComplete { canceled }, after) ==> {
                &&& after.pending_buf is None
                &&& after.can_send()
                &&& after.ready_result() == Poll::Ready(Ok::<(), Error>(()))
                &&& canceled ==> after.send_result() == Poll::Ready(
                    Err::<(), Error>(Error::Kind(ErrorKind::ConnectionAborted)),
                )
                &&& !canceled ==> after.send_result() == Poll::Ready(Ok::<(), Error>(()))
            }
        }),
        v.send_only(buffer).start == v.start,
        v.send_only(buffer).received == v.received,
        v.send_only(buffer).send_shutdown == v.send_shutdown,
        v.send_only(buffer).send.wakers == v.send.wakers,
        v.send_only(buffer).is_drained == v.is_drained,
        v.send_only(buffer).drain == v.drain,
{
    send_part_is_kept(states, events, n);
}

proof fn send_part_is_kept<B>(
    states: Seq<QStreamCtxView<B>>,
    events: Seq<StreamEvent>,
    n: nat,
)
    requires
        stream_run(states, events),
        n <= events.len(),
        forall|i: int| 0 <= i < n ==> !((#[trigger] events[i]) is SendComplete),
    ensures
        states[n as int].send == states[0].send,
        states[n as int].pending_buf == states[0].pending_buf,
    decreases n,
{
    if n > 0 {
        send_part_is_kept(states, events, (n - 1) as nat);
        let i = n - 1;
        assert(states[i].handles(events[i], states[i + 1]));
        assert(!(events[i] is SendComplete));
    }
}

/// The end of this side's sending is polled for until it is acknowledged or the stream is over,
/// whatever arrives and whatever the peer ends. Then it has succeeded.
pub proof fn shutdown_is_awaited<B>(
    v: QStreamCtxView<B>,
    states: Seq<QStreamCtxView<B>>,
    events: Seq<StreamEvent>,
    n: nat,
    end: StreamEvent,
    after: QStreamCtxView<B>,
    waker: Waker,
)
    requires
        v.send_shutdown.can_reset(),
        stream_run(states, events),
        states[0] == (QStreamCtxView { send_shutdown: v.send_shutdown.reset(), ..v }),
        n <= events.len(),
        forall|i: int| 0 <= i < n ==> !ends_sending(#[trigger] events[i]),
    ensures
        states[n as int].shutdown_result() is Pending,
        (QStreamCtxView {
            send_shutdown: states[n as int].send_shutdown.poll(waker),
            ..states[n as int]
        }).shutdown_result() is Pending,
        ends_sending(end) && states[n as int].handles(end, after) ==> after.shutdown_result()
            == Poll::Ready(Ok::<(), Error>(())),
{
    shutdown_part_is_kept(states, events, n);
}

proof fn shutdown_part_is_kept<B>(
    states: Seq<QStreamCtxView<B>>,
    events: Seq<StreamEvent>,
    n: nat,
)
    requires
        stream_run(states, events),
        n <= events.len(),
        forall|i: int| 0 <= i < n ==> !ends_sending(#[trigger] events[i]),
    ensures
        states[n as int].send_shutdown == states[0].send_shutdown,
    decreases n,
{
    if n > 0 {
        shutdown_part_is_kept(states, events, (n - 1) as nat);
        let i = n - 1;
        assert(states[i].handles(events[i], states[i + 1]));
        assert(!ends_sending(events[i]));
    }
}

/// The answers to those that poll a stream depend on nothing but what they poll for: two streams
/// that agree in this give the same.
pub proof fn stream_answers_what_was_asked<B>(v: QStreamCtxView<B>, w: QStreamCtxView<B>)
    ensures
        v.start == w.start ==> v.start_result() == w.start_result(),
        v.send == w.send ==> v.send_result() == w.send_result() && v.ready_result()
            == w.ready_result(),
        v.send_shutdown == w.send_shutdown ==> v.shutdown_result() == w.shutdown_result(),
{
}

/// The bytes that the first `n` of `events` brought, one after the other.
pub open spec fn arrived(events: Seq<StreamEvent>, n: nat) -> Seq<u8>
    decreases n,
{
    if n == 0 {
        Seq::empty()
    } else {
        arrived(events, (n - 1) as nat) + match events[n - 1] {
            StreamEvent::Receive { buffers } => concatenation(buffers@),
            _ => Seq::empty(),
        }
    }
}

/// All bytes that arrive wait to be polled, in the order in which they came, whatever else
/// happens between; and bytes can arrive until the peer's sending ends, and not after.
#[verifier::spinoff_prover]
pub proof fn arriving_bytes_wait_in_order<B>(
    states: Seq<QStreamCtxView<B>>,
    events: Seq<StreamEvent>,
    n: nat,
)
    requires
        stream_run(states, events),
        n <= events.len(),
    ensures
        chunk_bytes(states[n as int].received.queue) == chunk_bytes(states[0].received.queue)
            + arrived(events, n),
        states[n as int].received.open <==> states[0].received.open && forall|i: int|
            0 <= i < n ==> !ends_receiving(#[trigger] events[i]),
    decreases n,
{
    let q = states[0].received.queue;
    if n == 0 {
        assert(chunk_bytes(q) + arrived(events, n) =~= chunk_bytes(q));
    } else {
        arriving_bytes_wait_in_order(states, events, (n - 1) as nat);
        let i = n - 1;
        let v = states[i];
        let next = states[i + 1];
        assert(v.handles(events[i], next));
        assert(chunk_bytes(next.received.queue) == chunk_bytes(v.received.queue)
            + match events[i] {
            StreamEvent::Receive { buffers } => concatenation(buffers@),
            _ => Seq::empty(),
        }) by {
            match events[i] {
                StreamEvent::Receive { buffers } => {
                    crate::laws::received_bytes_are_queued_in_order(v, buffers@, next);
                },
                _ => {
                    assert(chunk_bytes(v.received.queue) + Seq::<u8>::empty() =~= chunk_bytes(
                        v.received.queue,
                    ));
                },
            }
        }
        assert(chunk_bytes(states[n as int].received.queue) =~= chunk_bytes(q) + arrived(
            events,
            n,
        ));
        if states[n as int].received.open {
            assert forall|j: int| 0 <= j < n implies !ends_receiving(#[trigger] events[j]) by {
                if j == i {
                } else {
                    assert(v.received.open);
                }
            }
        } else if states[0].received.open {
            if v.received.open {
                assert(ends_receiving(events[i]));
            }
        }
    }
}

/// A stream is over once it was told so, and not before; it then answers those that wait for its
/// end at once.
pub proof fn stream_is_over_when_told<B>(
    states: Seq<QStreamCtxView<B>>,
    events: Seq<StreamEvent>,
    n: nat,
)
    requires
        stream_run(states, events),
        n <= events.len(),
        !states[0].is_drained,
    ensures
        states[n as int].is_drained <==> exists|i: int|
            0 <= i < n && (#[trigger] events[i]) is ShutdownComplete,
        !states[n as int].is_drained ==> states[n as int].drain == states[0].drain,
    decreases n,
{
    if n > 0 {
        stream_is_over_when_told(states, events, (n - 1) as nat);
        let i = n - 1;
        assert(states[i].handles(events[i], states[i + 1]));
        if states[i].is_drained {
            let j = choose|j: int| 0 <= j < i && (#[trigger] events[j]) is ShutdownComplete;
            assert(events[j] is ShutdownComplete);
        }
        if states[n as int].is_drained && !states[i].is_drained {
            assert(events[i] is ShutdownComplete);
        }
    }
}

/// Whether `states` are those of a connection before each of `events` and after the last one.
pub open spec fn connection_run<S>(
    states: Seq<QConnectionCtxView<S>>,
    events: Seq<ConnectionEvent<S>>,
) -> bool {
    &&& states.len() == events.len() + 1
    &&& forall|i: int|
        0 <= i < events.len() ==> states[i].accepts(#[trigger] events[i]) && states[i + 1]
            == states[i].handle(events[i])
}

/// Whether `event` ends the bidirectional streams of the peer.
pub open spec fn ends_streams<S>(event: ConnectionEvent<S>) -> bool {
    event is ShutdownInitiatedByTransport || event is ShutdownComplete
}

/// Whether `event` ends the unidirectional streams of the peer.
pub open spec fn ends_uni_streams<S>(event: ConnectionEvent<S>) -> bool {
    ends_streams(event) || event is ShutdownInitiatedByPeer
}

/// The streams of one direction that the first `n` of `events` brought, in order.
pub open spec fn streams_started<S>(events: Seq<ConnectionEvent<S>>, uni: bool, n: nat) -> Seq<S>
    decreases n,
{
    if n == 0 {
        Seq::empty()
    } else {
        let before = streams_started(events, uni, (n - 1) as nat);
        match events[n - 1] {
            ConnectionEvent::PeerStreamStarted { stream, flags } => if (flags % 2 == 1) == uni {
                before.push(stream)
            } else {
                before
            },
            _ => before,
        }
    }
}

/// The lowest bit of the flags tells the direction of a stream.
pub proof fn direction_is_the_lowest_bit(flags: u32)
    ensures
        is_uni(flags) <==> flags % 2 == 1,
{
    assert(flags & 1 != 0 <==> flags % 2 == 1) by (bit_vector);
}

/// Each stream that the peer starts waits among those of its direction, in the order in which
/// they came, whatever else happens between. Streams of a direction can come until an event ends
/// them: a connection that was not shut down takes streams of both.
#[verifier::spinoff_prover]
pub proof fn streams_wait_by_direction<S>(
    states: Seq<QConnectionCtxView<S>>,
    events: Seq<ConnectionEvent<S>>,
    n: nat,
    stream: S,
    flags: u32,
)
    requires
        connection_run(states, events),
        n <= events.len(),
    ensures
        states[n as int].streams.queue == states[0].streams.queue + streams_started(
            events,
            false,
            n,
        ),
        states[n as int].uni_streams.queue == states[0].uni_streams.queue + streams_started(
            events,
            true,
            n,
        ),
        states[n as int].streams.open <==> states[0].streams.open && forall|i: int|
            0 <= i < n ==> !ends_streams(#[trigger] events[i]),
        states[n as int].uni_streams.open <==> states[0].uni_streams.open && forall|i: int|
            0 <= i < n ==> !ends_uni_streams(#[trigger] events[i]),
        states[n as int].accepts(ConnectionEvent::PeerStreamStarted { stream, flags }) <==> if flags
            % 2 == 1 {
            states[n as int].uni_streams.open
        } else {
            states[n as int].streams.open
        },
    decreases n,
{
    direction_is_the_lowest_bit(flags);
    let now = states[n as int];
    if n == 0 {
        assert(now.streams.queue + Seq::<S>::empty() =~= now.streams.queue);
        assert(now.uni_streams.queue + Seq::<S>::empty() =~= now.uni_streams.queue);
    } else {
        streams_wait_by_direction(states, events, (n - 1) as nat, stream, flags);
        let i = n - 1;
        let v = states[i];
        assert(states[i + 1] == v.handle(events[i]));
        if let ConnectionEvent::PeerStreamStarted { stream, flags } = events[i] {
            direction_is_the_lowest_bit(flags);
        }
        assert(now.streams.queue =~= states[0].streams.queue + streams_started(events, false, n));
        assert(now.uni_streams.queue =~= states[0].uni_streams.queue + streams_started(
            events,
            true,
            n,
        ));
        if now.streams.open {
            assert forall|j: int| 0 <= j < n implies !ends_streams(#[trigger] events[j]) by {
                if j < i {
                    assert(v.streams.open);
                }
            }
        } else if v.streams.open {
            assert(ends_streams(events[i]));
        }
        if now.uni_streams.open {
            assert forall|j: int| 0 <= j < n implies !ends_uni_streams(#[trigger] events[j]) by {
                if j < i {
                    assert(v.uni_streams.open);
                }
            }
        } else if v.uni_streams.open {
            assert(ends_uni_streams(events[i]));
        }
    }
}

/// A connection without any event takes streams of both directions and has none, nobody waits
/// for it, and it is not over.
pub proof fn new_connection_waits<S>()
    ensures
        ({
            let v = QConnectionCtxView::<S>::init();
            &&& v.streams.queue.len() == 0 && v.streams.open
            &&& v.uni_streams.queue.len() == 0 && v.uni_streams.open
            &&& v.connecting is None && v.proceed is None
            &&& v.shutdown_result() is Pending && !v.shutdown.frontend_pending
        }),
{
}

/// What a connection can be told does not hang on what has nothing to do with it: that it is there
/// while somebody waits for it, its end unless the wait for that was given up, and all but
/// streams at any time.
pub proof fn connection_can_be_told<S>(v: QConnectionCtxView<S>, event: ConnectionEvent<S>)
    ensures
        event is Connected ==> (v.accepts(event) <==> v.connecting is Some),
        event is ShutdownComplete ==> (v.accepts(event) <==> v.shutdown.data is Some
            || !v.shutdown.is_closed),
        event is ShutdownInitiatedByTransport || event is ShutdownInitiatedByPeer || event
            is Resumed || event is ResumptionTicketReceived || event is Unknown ==> v.accepts(
            event,
        ),
        v.shutdown.is_closed ==> v.shutdown_result() == Poll::Ready(()),
{
}

/// The one that waits for a connection waits until it is connected or the transport gives up,
/// whatever else happens; then it is told which, and nobody waits any more.
pub proof fn connection_is_awaited<S>(
    states: Seq<QConnectionCtxView<S>>,
    events: Seq<ConnectionEvent<S>>,
    n: nat,
    error_code: u64,
    status: u32,
)
    requires
        connection_run(states, events),
        n <= events.len(),
        states[0].connecting is Some,
        forall|i: int|
            0 <= i < n ==> !((#[trigger] events[i]) is Connected)
                && !(events[i] is ShutdownInitiatedByTransport),
    ensures
        ({
            let now = states[n as int];
            let lost = ConnectionEvent::ShutdownInitiatedByTransport { error_code, status };
            &&& now.connecting == states[0].connecting
            &&& now.proceed == states[0].proceed
            &&& now.accepts(ConnectionEvent::Connected)
            &&& now.answers(ConnectionEvent::Connected) == Some(ConnStatus::Connected)
            &&& now.handle(ConnectionEvent::Connected).connecting is None
            &&& now.answers(lost) == Some(ConnStatus::Transport(error_code, status))
            &&& now.handle(lost).connecting is None
        }),
        forall|i: int| 0 <= i < n ==> states[i].answers(#[trigger] events[i]) is None,
    decreases n,
{
    if n > 0 {
        connection_is_awaited(states, events, (n - 1) as nat, error_code, status);
        let i = n - 1;
        assert(states[i + 1] == states[i].handle(events[i]));
        assert(!(events[i] is Connected));
    }
}

/// Where nobody waits for a connection, nobody is told that the transport gave up; the receiver
/// of an accepted connection stays with it whatever happens.
pub proof fn nobody_is_told_unasked<S>(v: QConnectionCtxView<S>, event: ConnectionEvent<S>)
    requires
        v.accepts(event),
    ensures
        v.connecting is None ==> v.answers(event) is None && v.handle(event).connecting is None,
        v.handle(event).proceed == v.proceed,
{
}

/// What the one that waited is told is success exactly if the connection is there; else it is the
/// status of the transport, bit by bit.
pub proof fn failed_connection_gives_its_status(status: ConnStatus)
    ensures
        connect_result_spec(status) is Ok <==> status == ConnStatus::Connected,
        status matches ConnStatus::Transport(_, s) ==> (connect_result_spec(status) matches Err(
            Error::Os(code),
        ) && code as u32 == s),
{
    if let ConnStatus::Transport(_, s) = status {
        assert((s as i32) as u32 == s) by (bit_vector);
    }
}

/// The end of a connection is polled for until it is told, whatever else happens; then it has
/// come, and all that polled for it are woken.
pub proof fn connection_end_is_awaited<S>(
    states: Seq<QConnectionCtxView<S>>,
    events: Seq<ConnectionEvent<S>>,
    n: nat,
    waker: Waker,
)
    requires
        connection_run(states, events),
        n <= events.len(),
        states[0].shutdown.data is None,
        !states[0].shutdown.is_closed,
        forall|i: int| 0 <= i < n ==> !((#[trigger] events[i]) is ShutdownComplete),
    ensures
        ({
            let now = states[n as int];
            &&& now.shutdown == states[0].shutdown
            &&& now.shutdown_result() is Pending
            &&& (QConnectionCtxView { shutdown: now.shutdown.poll(waker), ..now }).shutdown_result()
                is Pending
            &&& now.accepts(ConnectionEvent::ShutdownComplete)
            &&& now.wakes(ConnectionEvent::ShutdownComplete) == states[0].shutdown.wakers
            &&& now.handle(ConnectionEvent::ShutdownComplete).shutdown_result() == Poll::Ready(())
            &&& now.handle(ConnectionEvent::ShutdownComplete).shutdown.wakers.len() == 0
        }),
        forall|i: int| 0 <= i < n ==> states[i].wakes(#[trigger] events[i]).len() == 0,
    decreases n,
{
    if n > 0 {
        connection_end_is_awaited(states, events, (n - 1) as nat, waker);
        let i = n - 1;
        assert(states[i + 1] == states[i].handle(events[i]));
        assert(!(events[i] is ShutdownComplete));
    }
}

/// The transport is told the very code that a user shuts the connection down with, and other
/// codes give other calls; while a shutdown is pending it is told nothing. Only the wish is
/// recorded.
pub proof fn shutdown_passes_its_code_on<S>(v: QConnectionCtxView<S>, ec: u64, other: u64)
    ensures
        v.shutdown_call(ec) is None <==> v.shutdown.frontend_pending,
        v.shutdown_call(ec) matches Some(call) ==> {
            &&& call matches ConnectionCall::Shutdown { flags, error_code }
            &&& error_code == ec
            &&& flags == CONNECTION_SHUTDOWN_FLAG_NONE
        },
        !v.shutdown.frontend_pending && ec != other ==> v.shutdown_call(ec) != v.shutdown_call(
            other,
        ),
        v.begin_shutdown().shutdown.frontend_pending,
        v.begin_shutdown().shutdown.data == v.shutdown.data,
        v.begin_shutdown().shutdown.wakers == v.shutdown.wakers,
        v.begin_shutdown().shutdown.is_closed == v.shutdown.is_closed,
        v.begin_shutdown().streams == v.streams,
        v.begin_shutdown().uni_streams == v.uni_streams,
        v.begin_shutdown().connecting == v.connecting,
        v.begin_shutdown().proceed == v.proceed,
{
}

/// Whether `states` are those of a listener before each of `events` and after the last one.
pub open spec fn listener_run<C>(
    states: Seq<QListenerCtxView<C>>,
    events: Seq<ListenerEvent<C>>,
) -> bool {
    &&& states.len() == events.len() + 1
    &&& forall|i: int|
        0 <= i < events.len() ==> states[i].accepts(#[trigger] events[i]) && states[i + 1]
            == states[i].handle(events[i])
}

/// The connections that the first `n` of `events` brought, in order.
pub open spec fn connections_opened<C>(events: Seq<ListenerEvent<C>>, n: nat) -> Seq<C>
    decreases n,
{
    if n == 0 {
        Seq::empty()
    } else {
        let before = connections_opened(events, (n - 1) as nat);
        match events[n - 1] {
            ListenerEvent::NewConnection { connection } => before.push(connection),
            _ => before,
        }
    }
}

/// The connections that peers open while nobody waits are queued, each once and in the order in
/// which they came. They come exactly while the listener is started, and each can be accepted.
#[verifier::spinoff_prover]
pub proof fn connections_wait_in_order<C>(
    states: Seq<QListenerCtxView<C>>,
    events: Seq<ListenerEvent<C>>,
    n: nat,
    connection: C,
)
    requires
        listener_run(states, events),
        n <= events.len(),
        states[0].wf(),
        states[0].connections.waiting is None,
    ensures
        ({
            let now = states[n as int];
            let all = states[0].connections.items + connections_opened(events, n);
            &&& now.connections.items == all
            &&& now.connections.waiting is None
            &&& now.wf()
            &&& now.accepts(ListenerEvent::NewConnection { connection }) <==> now.state
                == State::Started
            &&& now.accepts(ListenerEvent::StopComplete) <==> now.state == State::StopRequested
            &&& now.answers(ListenerEvent::NewConnection { connection }) is None
            &&& now.state == State::Started && all.len() > 0 ==> now.can_accept()
                && now.connections.pop_result() == Some(Ok::<C, QError>(all[0]))
        }),
    decreases n,
{
    if n == 0 {
        let items = states[0].connections.items;
        assert(items + Seq::<C>::empty() =~= items);
    } else {
        connections_wait_in_order(states, events, (n - 1) as nat, connection);
        let i = n - 1;
        assert(states[i].accepts(events[i]) && states[i + 1] == states[i].handle(events[i]));
        assert(states[n as int].connections.items =~= states[0].connections.items
            + connections_opened(events, n));
    }
}

/// A connection that is opened while somebody waits is theirs, and is not queued as well; the end
/// of the listener tells them that there is none. A listener that has stopped stays so, is asked
/// nothing more, and has told the one that waited for it.
pub proof fn listener_answers_the_one_that_waits<C>(v: QListenerCtxView<C>, connection: C)
    requires
        v.wf(),
    ensures
        ({
            let new = ListenerEvent::NewConnection { connection };
            let over = v.handle(ListenerEvent::StopComplete);
            &&& v.connections.waiting is Some ==> {
                &&& v.answers(new) == Some(Ok::<C, QError>(connection))
                &&& v.handle(new).connections.waiting is None
                &&& v.handle(new).connections.items == v.connections.items
                &&& v.answers(ListenerEvent::StopComplete) == Some(Err::<C, QError>(0))
            }
            &&& v.handle(new).state == v.state
            &&& v.handle(new).stopping == v.stopping
            &&& v.accepts(ListenerEvent::StopComplete) ==> {
                &&& over.state == State::Stopped
                &&& over.stopping is None
                &&& over.connections.waiting is None
                &&& over.connections.is_closed && over.connections.ec == 0
                &&& over.connections.items == v.connections.items
                &&& !over.accepts(new)
                &&& !over.accepts(ListenerEvent::StopComplete)
            }
        }),
        forall|event_type: u32| !v.accepts(ListenerEvent::Unknown { event_type }),
{
}

/// A listener is asked to start and to stop by its user, which changes nothing of its
/// connections; it can be accepted from once it is started. A new one is idle and has none.
pub proof fn listener_is_started_and_stopped_by_its_user<C>(v: QListenerCtxView<C>, channel: int)
    ensures
        v.start().state == State::Started,
        v.start().connections == v.connections,
        v.start().stopping == v.stopping,
        v.stop(Some(channel)).state == State::StopRequested,
        v.stop(Some(channel)).connections == v.connections,
        v.stop(Some(channel)).stopping == Some(channel),
        v.state == State::Idle ==> !v.can_accept(),
        v.state == State::Stopped ==> v.can_accept(),
        v.state == State::Started || v.state == State::StopRequested ==> (v.can_accept()
            <==> v.connections.items.len() > 0 || v.connections.is_closed
            || v.connections.waiting is None),
        QListenerCtxView::<C>::init().state == State::Idle,
        QListenerCtxView::<C>::init().connections.items.len() == 0,
        QListenerCtxView::<C>::init().connections.waiting is None,
        !QListenerCtxView::<C>::init().connections.is_closed,
        QListenerCtxView::<C>::init().stopping is None,
{
}

/// The connections of a listener on a channel wait in the order in which they came, while it is
/// started; its end closes the channel, and only that does.
pub proof fn channel_listener_keeps_its_connections<C>(
    v: crate::channel_listener::QListenerCtxView<C>,
    connection: C,
)
    requires
        v.wf(),
    ensures
        ({
            let new = ListenerEvent::NewConnection { connection };
            let over = v.handle(ListenerEvent::StopComplete);
            &&& v.accepts(new) <==> v.state == State::Started
            &&& v.handle(new).connections.queue == v.connections.queue + seq![connection]
            &&& v.handle(new).connections.open == v.connections.open
            &&& v.handle(new).state == v.state
            &&& v.accepts(ListenerEvent::StopComplete) <==> v.state == State::StopRequested
            &&& over.connections.queue == v.connections.queue
            &&& !over.connections.open
            &&& over.state == State::Stopped
            &&& v.start().connections == v.connections && v.start().state == State::Started
            &&& v.stop().connections == v.connections && v.stop().state == State::StopRequested
        }),
        forall|event_type: u32| !v.accepts(ListenerEvent::Unknown { event_type }),
        crate::channel_listener::QListenerCtxView::<C>::init().state == State::Idle,
        crate::channel_listener::QListenerCtxView::<C>::init().connections.open,
        crate::channel_listener::QListenerCtxView::<C>::init().connections.queue.len() == 0,
{
    assert(v.connections.queue.push(connection) =~= v.connections.queue + seq![connection]);
}

} // verus!
