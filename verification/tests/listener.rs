use std::sync::atomic::{AtomicUsize, Ordering};
use std::sync::Arc;
use std::task::{Poll, Wake, Waker};

use msquic_h3::api::Handle;
use msquic_h3::buffer::{QBufferVec, QVecBuffer};
use msquic_h3::channel_listener;
use msquic_h3::listener::{listener_handler, ListenerEvent, ListenerOutcome, QListener, State};
use msquic_h3::oneshot::Sending;
use msquic_h3::transport::ListenerCall;

struct Counter(AtomicUsize);

impl Wake for Counter {
    fn wake(self: Arc<Self>) {
        self.0.fetch_add(1, Ordering::SeqCst);
    }
}

fn counter() -> (Arc<Counter>, Waker) {
    let c = Arc::new(Counter(AtomicUsize::new(0)));
    (c.clone(), Waker::from(c))
}

type Listener = QListener<u32>;

fn open() -> Listener {
    Listener::open(Handle { h: 2 }).0
}

fn give(l: &mut Listener, event: ListenerEvent<u32>) -> ListenerOutcome<u32> {
    assert!(l.ctx.accepts(&event));
    let outcome = listener_handler(&mut l.ctx, event);
    assert_eq!(outcome.status, 0);
    outcome
}

#[test]
fn listener_goes_through_its_states() {
    let mut l = open();
    assert_eq!(l.state(), State::Idle);
    assert!(!l.can_accept());
    assert!(!l.ctx.accepts(&ListenerEvent::NewConnection { connection: 1 }));
    l.start(&[], 4567);
    assert_eq!(l.state(), State::Started);
    assert!(!l.ctx.accepts(&ListenerEvent::StopComplete));
    assert!(!l.ctx.accepts(&ListenerEvent::Unknown { event_type: 2 }));
    let (rx, call) = l.stop();
    assert!(matches!(call, ListenerCall::Stop));
    assert_eq!(l.state(), State::StopRequested);
    assert!(!l.ctx.accepts(&ListenerEvent::NewConnection { connection: 1 }));
    let outcome = give(&mut l, ListenerEvent::StopComplete);
    assert!(outcome.stopped.is_some());
    assert!(outcome.accepted.is_none());
    assert_eq!(l.state(), State::Stopped);
    assert!(rx.is_pending());
    assert!(l.can_accept());
    assert!(l.accept().is_none());
}

#[test]
fn connections_are_accepted_in_order() {
    let mut l = open();
    l.start(&[], 4567);
    assert!(give(&mut l, ListenerEvent::NewConnection { connection: 1 }).accepted.is_none());
    assert!(give(&mut l, ListenerEvent::NewConnection { connection: 2 }).accepted.is_none());
    for expected in [1, 2] {
        assert!(l.can_accept());
        let res = match l.accept().unwrap().into_inner() {
            Ok(res) => res,
            Err(_) => panic!("not there"),
        };
        assert_eq!(Listener::accepted(res), Some(expected));
    }
    let rx = l.accept().unwrap();
    assert!(!l.can_accept());
    let sent = give(&mut l, ListenerEvent::NewConnection { connection: 3 }).accepted.unwrap();
    assert_eq!(Listener::accepted_by(rx, sent), Some(3));
    assert_eq!(Listener::accepted(Err(0)), None);
}

#[test]
fn stopping_ends_the_wait_for_a_connection() {
    let (_, w) = counter();
    let mut l = open();
    l.start(&[], 4567);
    let rx = l.accept().unwrap();
    let (mut stopped, _) = l.stop();
    assert_eq!(stopped.poll(w.clone(), Sending::Unknown), Poll::Pending);
    let outcome = give(&mut l, ListenerEvent::StopComplete);
    assert_eq!(Listener::accepted_by(rx, outcome.accepted.unwrap()), None);
    assert_eq!(stopped.poll(w, Sending::Unknown), Poll::Ready(Some(())));
}

#[test]
fn stopped_listener_forgets_what_nobody_accepted() {
    let mut l = open();
    l.start(&[], 4567);
    give(&mut l, ListenerEvent::NewConnection { connection: 1 });
    let _ = l.stop();
    give(&mut l, ListenerEvent::StopComplete);
    assert!(l.accept().is_none());
}

#[test]
fn channel_listener_gives_out_what_is_queued() {
    let (c, w) = counter();
    let (mut l, call): (channel_listener::QListener<u32>, _) =
        channel_listener::QListener::open(Handle { h: 8 });
    assert!(matches!(call, ListenerCall::Open { registration: Handle { h: 8 } }));
    assert_eq!(l.state(), State::Idle);
    assert!(!l.ctx.accepts(&ListenerEvent::NewConnection { connection: 1 }));
    l.start(&[], 4567);
    assert_eq!(l.state(), State::Started);
    assert_eq!(l.accept(w.clone()), Poll::Pending);
    for connection in [1, 2, 3] {
        let event = ListenerEvent::NewConnection { connection };
        assert!(l.ctx.accepts(&event));
        assert_eq!(channel_listener::listener_handler(&mut l.ctx, event), 0);
    }
    assert_eq!(c.0.load(Ordering::SeqCst), 1);
    assert_eq!(l.accept(w.clone()), Poll::Ready(Some(1)));
    assert!(!l.ctx.accepts(&ListenerEvent::StopComplete));
    assert!(!l.ctx.accepts(&ListenerEvent::Unknown { event_type: 9 }));
    assert!(matches!(l.stop(), ListenerCall::Stop));
    assert_eq!(l.state(), State::StopRequested);
    assert!(!l.is_stopped());
    assert!(l.ctx.accepts(&ListenerEvent::StopComplete));
    assert_eq!(channel_listener::listener_handler(&mut l.ctx, ListenerEvent::StopComplete), 0);
    assert!(l.is_stopped());
    assert_eq!(l.state(), State::Stopped);
    // what was queued outlives the stop
    assert_eq!(l.accept(w.clone()), Poll::Ready(Some(2)));
    assert_eq!(l.accept(w.clone()), Poll::Ready(Some(3)));
    assert_eq!(l.accept(w), Poll::Ready(None));
}

#[test]
fn listener_tells_what_the_transport_is_to_do() {
    let (mut l, call) = Listener::open(Handle { h: 2 });
    assert!(matches!(call, ListenerCall::Open { registration: Handle { h: 2 } }));
    let args = [QVecBuffer::from("h3")];
    let alpn = QBufferVec::from(args.as_slice());
    let call = l.start(alpn.as_buffers(), "0.0.0.0:4568");
    assert_eq!(call.alpn.len(), 1);
    assert_eq!(call.alpn[0].length(), 2);
    assert_eq!(call.local_address, "0.0.0.0:4568");
}
