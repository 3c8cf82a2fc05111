use std::io::ErrorKind;
use std::sync::atomic::{AtomicUsize, Ordering};
use std::sync::Arc;
use std::task::{Poll, Wake, Waker};

use msquic_h3::buffer::{Buffer, QBuffRef, QVecBuffer};
use msquic_h3::error::Error;
use msquic_h3::oneshot::Sending;
use msquic_h3::stream::{qstream_handler_callback, QStream, StreamEvent};
use msquic_h3::transport::StreamCall;

struct Counter(AtomicUsize);

impl Wake for Counter {
    fn wake(self: Arc<Self>) {
        self.0.fetch_add(1, Ordering::SeqCst);
    }
}

fn counter() -> (Arc<Counter>, Waker) {
    let c = Arc::new(Counter(AtomicUsize::new(0)));
    (c.clone(), Waker::from(c))
}

fn count(c: &Arc<Counter>) -> usize {
    c.0.load(Ordering::SeqCst)
}

type Stream = QStream<QVecBuffer>;

fn attach() -> Stream {
    let (s, call) = Stream::attach();
    assert!(matches!(call, StreamCall::SetCallback));
    s
}


/// Gives the stream an event that it accepts, and tells whether its end was sent to somebody.
fn give(s: &mut Stream, event: StreamEvent) -> bool {
    assert!(s.ctx.accepts(&event));
    let outcome = qstream_handler_callback(&mut s.ctx, event);
    assert_eq!(outcome.status, 0);
    outcome.drained.is_some()
}

fn receive(s: &mut Stream, parts: &[&str]) {
    let owned: Vec<QVecBuffer> = parts.iter().map(|p| QVecBuffer::from(*p)).collect();
    let refs: Vec<QBuffRef> = owned.iter().map(QBuffRef::from).collect();
    let buffers: Vec<Buffer> = refs.iter().map(Buffer::from).collect();
    give(s, StreamEvent::Receive { buffers: &buffers });
}

fn polled(s: &mut Stream, w: &Waker) -> Poll<Option<Vec<u8>>> {
    match s.poll_receive(w.clone()) {
        Poll::Ready(Some(chunk)) => Poll::Ready(Some(chunk.0.to_vec())),
        Poll::Ready(None) => Poll::Ready(None),
        Poll::Pending => Poll::Pending,
    }
}

fn kind(res: Poll<Result<(), Error>>) -> Option<ErrorKind> {
    match res {
        Poll::Ready(Err(e)) => Some(e.kind()),
        _ => None,
    }
}

fn is_ok(res: Poll<Result<(), Error>>) -> bool {
    matches!(res, Poll::Ready(Ok(())))
}

#[test]
fn start_is_polled_until_it_is_complete() {
    let (c, w) = counter();
    let (mut s, call) = Stream::open(1);
    assert!(matches!(call, StreamCall::Open { flags: 1 }));
    assert!(matches!(s.start_only(3), StreamCall::Start { flags: 3 }));
    assert!(s.can_poll_start());
    assert!(s.poll_start(w.clone()).is_pending());
    assert!(!s.can_poll_start());
    give(&mut s, StreamEvent::StartComplete);
    assert_eq!(count(&c), 1);
    assert!(s.can_poll_start());
    assert!(is_ok(s.poll_start(w.clone())));
    // the end of the start is given out once
    assert!(s.poll_start(w).is_pending());
}

#[test]
fn received_chunks_come_in_order() {
    let (c, w) = counter();
    let mut s = attach();
    assert_eq!(polled(&mut s, &w), Poll::Pending);
    receive(&mut s, &["hello", " ", "world"]);
    assert_eq!(count(&c), 1);
    receive(&mut s, &["second"]);
    // an event without a buffer is no chunk
    receive(&mut s, &[]);
    assert_eq!(polled(&mut s, &w), Poll::Ready(Some(b"hello world".to_vec())));
    assert_eq!(polled(&mut s, &w), Poll::Ready(Some(b"second".to_vec())));
    assert_eq!(polled(&mut s, &w), Poll::Pending);
}

#[test]
fn chunks_outlive_the_peers_shutdown() {
    for event in [StreamEvent::PeerSendShutdown, StreamEvent::PeerSendAborted { error_code: 7 }] {
        let (_, w) = counter();
        let mut s = attach();
        receive(&mut s, &["a"]);
        receive(&mut s, &["b"]);
        give(&mut s, event);
        assert_eq!(polled(&mut s, &w), Poll::Ready(Some(b"a".to_vec())));
        assert_eq!(polled(&mut s, &w), Poll::Ready(Some(b"b".to_vec())));
        assert_eq!(polled(&mut s, &w), Poll::Ready(None));
        assert_eq!(polled(&mut s, &w), Poll::Ready(None));
        // nothing can arrive any more, but an empty event
        let owned = QVecBuffer::from("c");
        let r = QBuffRef::from(&owned);
        let buffers = [Buffer::from(&r)];
        assert!(!s.ctx.accepts(&StreamEvent::Receive { buffers: &buffers }));
        assert!(s.ctx.accepts(&StreamEvent::Receive { buffers: &[] }));
    }
}

#[test]
fn end_of_the_peers_sending_wakes_the_receiver() {
    let (c, w) = counter();
    let mut s = attach();
    assert_eq!(polled(&mut s, &w), Poll::Pending);
    give(&mut s, StreamEvent::PeerSendShutdown);
    assert_eq!(count(&c), 1);
    assert_eq!(polled(&mut s, &w), Poll::Ready(None));
}

#[test]
fn buffer_is_held_until_the_send_ends() {
    let (c, w) = counter();
    let mut s = attach();
    assert!(is_ok(s.poll_ready_send(w.clone())));
    assert!(!s.ctx.accepts(&StreamEvent::SendComplete { canceled: false }));
    assert!(s.can_send());
    let call = s.send_only(QVecBuffer::from("data"), 4);
    assert!(matches!(call, StreamCall::Send { flags: 4 }));
    assert_eq!(s.pending_buf().unwrap(), &QVecBuffer::from("data"));
    assert!(!s.can_send());
    assert!(s.poll_ready_send(w.clone()).is_pending());
    assert!(s.poll_send(w.clone()).is_pending());
    give(&mut s, StreamEvent::SendComplete { canceled: false });
    assert_eq!(count(&c), 2);
    assert!(s.pending_buf().is_none());
    assert!(s.can_send());
    assert!(is_ok(s.poll_ready_send(w.clone())));
    assert!(is_ok(s.poll_send(w)));
}

#[test]
fn each_send_has_its_own_end() {
    let (c, w) = counter();
    let mut s = attach();
    for (i, canceled) in [false, true, false].into_iter().enumerate() {
        assert!(s.can_send());
        s.send_only(QVecBuffer::from("data"), 0);
        assert!(s.poll_ready_send(w.clone()).is_pending());
        give(&mut s, StreamEvent::SendComplete { canceled });
        assert_eq!(count(&c), i + 1);
        let expected = if canceled { Some(ErrorKind::ConnectionAborted) } else { None };
        assert_eq!(kind(s.poll_send(w.clone())), expected);
        assert!(is_ok(s.poll_ready_send(w.clone())));
    }
}

#[test]
fn canceled_send_is_an_abort() {
    let (_, w) = counter();
    let mut s = attach();
    s.send_only(QVecBuffer::from("data"), 0);
    give(&mut s, StreamEvent::SendComplete { canceled: true });
    assert_eq!(kind(s.poll_send(w)), Some(ErrorKind::ConnectionAborted));
}

#[test]
fn shutdown_ends_with_its_acknowledgement() {
    let (c, w) = counter();
    let mut s = attach();
    assert!(s.can_shutdown());
    let call = s.shutdown();
    assert!(matches!(call, StreamCall::Shutdown { flags: 0, error_code: 0 }));
    assert!(s.poll_shutdown(w.clone()).is_pending());
    // not while somebody waits for the last one
    assert!(!s.can_shutdown());
    give(&mut s, StreamEvent::SendShutdownComplete);
    assert_eq!(count(&c), 1);
    assert!(is_ok(s.poll_shutdown(w.clone())));
    assert!(s.can_shutdown());
    let call = s.shutdown_only(1);
    assert!(matches!(call, StreamCall::Shutdown { flags: 1, error_code: 0 }));
    assert!(s.poll_shutdown(w).is_pending());
    let call = s.stop_sending(9);
    assert!(matches!(call, StreamCall::Shutdown { flags: 1, error_code: 9 }));
}

#[test]
fn end_of_the_stream_reaches_everybody() {
    let (c, w) = counter();
    let mut s = attach();
    receive(&mut s, &["last"]);
    assert!(s.poll_shutdown(w.clone()).is_pending());
    assert!(s.can_drain());
    let mut rx = s.drain().unwrap();
    assert!(!s.can_drain());
    assert_eq!(rx.poll(w.clone(), Sending::Unknown), Poll::Pending);
    assert!(give(&mut s, StreamEvent::ShutdownComplete));
    assert_eq!(count(&c), 2);
    assert_eq!(rx.poll(w.clone(), Sending::Unknown), Poll::Ready(Some(())));
    assert!(is_ok(s.poll_shutdown(w.clone())));
    assert_eq!(polled(&mut s, &w), Poll::Ready(Some(b"last".to_vec())));
    assert_eq!(polled(&mut s, &w), Poll::Ready(None));
    // the stream is over
    assert!(s.can_drain());
    assert!(s.drain().is_none());
    assert!(!s.can_shutdown());
    assert!(!s.ctx.accepts(&StreamEvent::SendShutdownComplete));
}

#[test]
fn end_of_the_stream_needs_nobody_that_waits() {
    let mut s = attach();
    assert!(!give(&mut s, StreamEvent::ShutdownComplete));
    assert!(s.drain().is_none());
}

#[test]
fn other_stream_events_change_nothing() {
    let (c, w) = counter();
    let mut s = attach();
    assert!(s.poll_shutdown(w.clone()).is_pending());
    give(&mut s, StreamEvent::PeerReceiveAborted { error_code: 3 });
    give(&mut s, StreamEvent::Unknown { event_type: 99 });
    assert_eq!(count(&c), 0);
    assert!(s.poll_shutdown(w.clone()).is_pending());
    assert_eq!(polled(&mut s, &w), Poll::Pending);
}

#[test]
fn used_up_budget_loses_no_chunk() {
    let runtime = tokio::runtime::Builder::new_current_thread().build().unwrap();
    runtime.block_on(async {
        let mut s = attach();
        for _ in 0..1000 {
            receive(&mut s, &["x"]);
        }
        let mut received = 0;
        let mut put_off = 0;
        std::future::poll_fn(|cx| loop {
            match s.poll_receive(cx.waker().clone()) {
                Poll::Ready(_) => received += 1,
                Poll::Pending => {
                    put_off += 1;
                    return Poll::Pending;
                }
            }
            if received == 1000 {
                return Poll::Ready(());
            }
        })
        .await;
        assert_eq!(received, 1000);
        assert!(put_off > 0);
    });
}
