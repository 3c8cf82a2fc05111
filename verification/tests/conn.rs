use std::sync::atomic::{AtomicUsize, Ordering};
use std::sync::Arc;
use std::task::{Poll, Wake, Waker};

use msquic_h3::api::Handle;
use msquic_h3::conn::{
    qconnection_callback_handler, ConnStatus, ConnectionEvent, ConnectionOutcome, QConnection,
};
use msquic_h3::oneshot::Sending;
use msquic_h3::transport::ConnectionCall;

struct Counter(AtomicUsize);

impl Wake for Counter {
    fn wake(self: Arc<Self>) {
        self.0.fetch_add(1, Ordering::SeqCst);
    }
}

fn counter() -> (Arc<Counter>, Waker) {
    let c = Arc::new(Counter(AtomicUsize::new(0)));
    (c.clone(), Waker::from(c))
}

fn count(c: &Arc<Counter>) -> usize {
    c.0.load(Ordering::SeqCst)
}

type Conn = QConnection<u32>;

fn attach() -> Conn {
    Conn::attach(Handle { h: 5 }).0
}

fn open() -> Conn {
    Conn::open(Handle { h: 7 }).0
}

fn give(c: &mut Conn, event: ConnectionEvent<u32>) -> ConnectionOutcome {
    assert!(c.ctx.accepts(&event));
    let outcome = qconnection_callback_handler(&mut c.ctx, event);
    assert_eq!(outcome.status, 0);
    outcome
}

#[test]
fn start_is_answered_by_the_connection() {
    let mut c = open();
    assert!(!c.ctx.accepts(&ConnectionEvent::Connected));
    assert!(!c.can_proceed());
    assert!(c.can_start());
    let rx = c.start(Handle { h: 3 }, "localhost", 4567).0;
    assert!(!c.can_start());
    let outcome = give(&mut c, ConnectionEvent::Connected);
    let sent = outcome.connected.unwrap();
    assert!(Conn::connected(rx, sent).is_ok());
    // the answer is given once
    assert!(c.can_start());
    assert!(!c.ctx.accepts(&ConnectionEvent::Connected));
}

#[test]
fn start_is_answered_by_the_transports_shutdown() {
    let (_, w) = counter();
    let mut c = open();
    let mut rx = c.start(Handle { h: 3 }, "localhost", 4567).0;
    assert!(rx.poll(w.clone(), Sending::Unknown).is_pending());
    let event = ConnectionEvent::ShutdownInitiatedByTransport { error_code: 2, status: 110 };
    let outcome = give(&mut c, event);
    assert!(outcome.connected.is_some());
    let status = match rx.poll(w.clone(), Sending::Unknown) {
        Poll::Ready(Some(status)) => status,
        _ => panic!("no status"),
    };
    assert_eq!(status, ConnStatus::Transport(2, 110));
    assert_eq!(Conn::connect_result(status).unwrap_err().raw_os_error(), Some(110));
    let status = ConnStatus::Transport(0, 0x8041_0006);
    assert_eq!(
        Conn::connect_result(status).unwrap_err().raw_os_error(),
        Some(0x8041_0006u32 as i32)
    );
    assert!(Conn::connect_result(ConnStatus::Connected).is_ok());
    // no stream follows
    assert_eq!(c.poll_accept(w.clone()), Poll::Ready(None));
    assert_eq!(c.poll_accept_uni(w), Poll::Ready(None));
}

#[test]
fn failed_start_is_told_to_the_one_that_waits() {
    let mut c = open();
    let rx = c.start(Handle { h: 3 }, "localhost", 4567).0;
    let event = ConnectionEvent::ShutdownInitiatedByTransport { error_code: 0, status: 62 };
    let sent = give(&mut c, event).connected.unwrap();
    assert_eq!(Conn::connected(rx, sent).unwrap_err().raw_os_error(), Some(62));
}

#[test]
fn accepted_connection_can_be_waited_for() {
    let mut c = attach();
    assert!(c.can_proceed());
    assert!(!c.can_start());
    let sent = give(&mut c, ConnectionEvent::Connected).connected.unwrap();
    let rx = c.proceed();
    assert!(!c.can_proceed());
    assert!(Conn::connected(rx, sent).is_ok());
}

#[test]
fn streams_of_the_peer_are_sorted_by_direction() {
    let (n, w) = counter();
    let mut c = attach();
    assert_eq!(c.poll_accept(w.clone()), Poll::Pending);
    assert_eq!(c.poll_accept_uni(w.clone()), Poll::Pending);
    give(&mut c, ConnectionEvent::PeerStreamStarted { stream: 1, flags: 0 });
    give(&mut c, ConnectionEvent::PeerStreamStarted { stream: 2, flags: 1 });
    assert_eq!(count(&n), 2);
    give(&mut c, ConnectionEvent::PeerStreamStarted { stream: 3, flags: 2 });
    give(&mut c, ConnectionEvent::PeerStreamStarted { stream: 4, flags: 5 });
    assert_eq!(c.poll_accept(w.clone()), Poll::Ready(Some(1)));
    assert_eq!(c.poll_accept(w.clone()), Poll::Ready(Some(3)));
    assert_eq!(c.poll_accept(w.clone()), Poll::Pending);
    assert_eq!(c.poll_accept_uni(w.clone()), Poll::Ready(Some(2)));
    assert_eq!(c.poll_accept_uni(w.clone()), Poll::Ready(Some(4)));
    assert_eq!(c.poll_accept_uni(w), Poll::Pending);
}

#[test]
fn peers_shutdown_ends_the_unidirectional_streams() {
    let (_, w) = counter();
    let mut c = attach();
    give(&mut c, ConnectionEvent::PeerStreamStarted { stream: 2, flags: 1 });
    give(&mut c, ConnectionEvent::ShutdownInitiatedByPeer { error_code: 5 });
    assert!(!c.ctx.accepts(&ConnectionEvent::PeerStreamStarted { stream: 6, flags: 1 }));
    assert!(c.ctx.accepts(&ConnectionEvent::PeerStreamStarted { stream: 6, flags: 0 }));
    assert_eq!(c.poll_accept_uni(w.clone()), Poll::Ready(Some(2)));
    assert_eq!(c.poll_accept_uni(w.clone()), Poll::Ready(None));
    assert_eq!(c.poll_accept(w), Poll::Pending);
}

#[test]
fn shutdown_is_asked_for_once() {
    let (n, w) = counter();
    let mut c = attach();
    let call = c.shutdown(17);
    assert!(matches!(call, Some(ConnectionCall::Shutdown { flags: 0, error_code: 17 })));
    assert!(c.shutdown(18).is_none());
    assert_eq!(c.poll_shutdown(w.clone()), Poll::Pending);
    assert_eq!(c.poll_shutdown(w.clone()), Poll::Pending);
    give(&mut c, ConnectionEvent::ShutdownComplete);
    assert_eq!(count(&n), 2);
    assert_eq!(c.poll_shutdown(w.clone()), Poll::Ready(()));
    assert_eq!(c.poll_accept(w.clone()), Poll::Ready(None));
    assert_eq!(c.poll_accept_uni(w), Poll::Ready(None));
    // a shutdown without waiting is another call
    let call = c.shutdown_only(3);
    assert!(matches!(call, ConnectionCall::Shutdown { flags: 0, error_code: 3 }));
}

#[test]
fn other_connection_events_change_nothing() {
    let (n, w) = counter();
    let mut c = attach();
    assert_eq!(c.poll_shutdown(w.clone()), Poll::Pending);
    for event in [
        ConnectionEvent::Resumed,
        ConnectionEvent::ResumptionTicketReceived,
        ConnectionEvent::Unknown { event_type: 1000 },
    ] {
        assert!(give(&mut c, event).connected.is_none());
    }
    assert_eq!(count(&n), 0);
    assert!(c.can_proceed());
    assert_eq!(c.poll_accept(w), Poll::Pending);
    let call = c.send_resumption_ticket(1);
    assert!(matches!(call, ConnectionCall::SendResumptionTicket { flags: 1 }));
}

#[test]
fn connection_tells_what_the_transport_is_to_do() {
    let (_, first, second) = Conn::attach(Handle { h: 5 });
    assert!(matches!(first, ConnectionCall::SetCallback));
    assert!(matches!(
        second,
        ConnectionCall::SetConfiguration { configuration: Handle { h: 5 } }
    ));
    let (mut c, call) = Conn::open(Handle { h: 7 });
    assert!(matches!(call, ConnectionCall::Open { registration: Handle { h: 7 } }));
    let (rx, call) = c.start(Handle { h: 3 }, "localhost", 4567);
    assert!(rx.is_pending());
    assert_eq!(call.configuration, Handle { h: 3 });
    assert_eq!(call.server_name, "localhost");
    assert_eq!(call.server_port, 4567);
}
