use std::io::ErrorKind;
use std::sync::Arc;
use std::task::{Poll, Wake, Waker};

use h3::quic::StreamId;

use msquic_h3::api::Handle;
use msquic_h3::buffer::{Buffer, QBuffRef, QVecBuffer};
use msquic_h3::conn::{qconnection_callback_handler, ConnectionEvent, QConnection};
use msquic_h3::error::Error;
use msquic_h3::msh3::{H3Conn, H3Error, H3Stream, MAX_STREAM_ID};
use msquic_h3::msh3_eager;
use msquic_h3::stream::{qstream_handler_callback, QStream, StreamEvent};
use msquic_h3::transport::{ConnectionCall, StreamCall};

struct Nobody;

impl Wake for Nobody {
    fn wake(self: Arc<Self>) {}
}

fn waker() -> Waker {
    Waker::from(Arc::new(Nobody))
}

type Name = &'static str;
type Stream = QStream<QVecBuffer>;

fn attach() -> Stream {
    let (s, call) = Stream::attach();
    assert!(matches!(call, StreamCall::SetCallback));
    s
}

type Conn = H3Conn<Name>;

fn give(s: &mut Stream, event: StreamEvent) {
    assert!(s.ctx.accepts(&event));
    let _ = qstream_handler_callback(&mut s.ctx, event);
}

#[test]
fn error_tells_a_timeout_and_its_code() {
    let e = H3Error::new(Error::Kind(ErrorKind::TimedOut), None);
    assert!(e.is_timeout());
    assert_eq!(e.err_code(), None);
    let e = H3Error::new(Error::Kind(ErrorKind::BrokenPipe), Some(0x101));
    assert!(!e.is_timeout());
    assert_eq!(e.err_code(), Some(0x101));
    assert!(H3Error::kind_is_timeout(ErrorKind::TimedOut));
    // no such file
    assert!(!H3Error::new(Error::from_raw_os_error(2), None).is_timeout());
}

#[test]
fn stream_gets_the_identifier_of_its_number() {
    assert_eq!(H3Stream::<Name>::get_id(4), StreamId::try_from(4).unwrap());
    assert_ne!(H3Stream::<Name>::get_id(4), H3Stream::<Name>::get_id(8));
    let largest = H3Stream::<Name>::get_id(MAX_STREAM_ID);
    assert_eq!(largest, StreamId::try_from((1u64 << 62) - 1).unwrap());
    assert!(StreamId::try_from(MAX_STREAM_ID + 1).is_err());
}

#[test]
fn stream_is_ready_again_when_its_send_has_ended() {
    let w = waker();
    let mut s = attach();
    assert!(matches!(H3Stream::<Name>::poll_ready(&mut s, w.clone()), Poll::Ready(Ok(()))));
    let call = H3Stream::<Name>::send_data(&mut s, QVecBuffer::from("mydata"));
    assert!(matches!(call, StreamCall::Send { flags: 0 }));
    assert_eq!(s.pending_buf().unwrap().data, b"mydata".to_vec());
    assert!(H3Stream::<Name>::poll_ready(&mut s, w.clone()).is_pending());
    give(&mut s, StreamEvent::SendComplete { canceled: false });
    assert!(matches!(H3Stream::<Name>::poll_ready(&mut s, w.clone()), Poll::Ready(Ok(()))));
    // the next sends are waited for in the same way
    for data in ["more", "and more"] {
        H3Stream::<Name>::send_data(&mut s, QVecBuffer::from(data));
        assert!(H3Stream::<Name>::poll_ready(&mut s, w.clone()).is_pending());
        give(&mut s, StreamEvent::SendComplete { canceled: false });
        assert!(matches!(H3Stream::<Name>::poll_ready(&mut s, w.clone()), Poll::Ready(Ok(()))));
    }
}

#[test]
fn finishing_asks_for_the_shutdown_once() {
    let w = waker();
    let mut s = attach();
    let mut h = H3Stream::new("stream");
    assert_eq!(*h.get_ref(), "stream");
    assert!(!h.is_finished());
    let (call, res) = h.poll_finish(&mut s, w.clone());
    assert!(h.is_finished());
    assert!(matches!(call, Some(StreamCall::Shutdown { flags: 1, error_code: 0 })));
    assert!(matches!(res, Poll::Ready(Ok(()))));
    let (call, res) = h.poll_finish(&mut s, w);
    assert!(call.is_none());
    assert!(matches!(res, Poll::Ready(Ok(()))));
    let call = H3Stream::<Name>::stop_sending(&s, 0x10c);
    assert!(matches!(call, StreamCall::Shutdown { flags: 1, error_code: 0x10c }));
}

#[test]
fn stream_data_is_polled_in_order() {
    let w = waker();
    let mut s = attach();
    assert!(H3Stream::<Name>::poll_data(&mut s, w.clone()).is_pending());
    let owned = QVecBuffer::from("body");
    let r = QBuffRef::from(&owned);
    give(&mut s, StreamEvent::Receive { buffers: &[Buffer::from(&r)] });
    give(&mut s, StreamEvent::PeerSendShutdown);
    match H3Stream::<Name>::poll_data(&mut s, w.clone()) {
        Poll::Ready(Ok(Some(chunk))) => assert_eq!(&chunk.0[..], b"body"),
        _ => panic!("no data"),
    }
    assert!(matches!(H3Stream::<Name>::poll_data(&mut s, w), Poll::Ready(Ok(None))));
}

#[test]
fn halves_of_a_stream_have_the_same_handle() {
    let mut s = attach();
    let mut h = H3Stream::new("stream");
    h.poll_finish(&mut s, waker());
    let (mut send, mut recv) = h.split();
    assert_eq!(*send.get_ref(), "stream");
    assert_eq!(*recv.get_ref(), "stream");
    assert!(send.poll_finish(&mut s, waker()).0.is_none());
    // the receiving half has asked for nothing, but the shutdown is still waited for
    assert!(!s.can_shutdown());
    give(&mut s, StreamEvent::SendShutdownComplete);
    assert!(recv.poll_finish(&mut s, waker()).0.is_some());
}

#[test]
fn opened_stream_is_kept_until_it_has_started() {
    let w = waker();
    let mut c = Conn::new(QConnection::open(Handle::new()).0);
    assert!(c.opening_bidi().is_none());
    let (mut s, open, start) = c.begin_bidi::<QVecBuffer>().unwrap();
    assert!(matches!(open, StreamCall::Open { flags: 0 }));
    assert!(matches!(start, StreamCall::Start { flags: 0 }));
    assert!(c.poll_open_bidi(Some("first"), &mut s, w.clone()).is_pending());
    assert_eq!(c.opening_bidi(), Some(&"first"));
    // nothing is opened while the start is pending, however often it is polled for
    assert!(c.begin_bidi::<QVecBuffer>().is_none());
    assert!(c.begin_send::<QVecBuffer>().is_some());
    assert!(c.opening_send().is_none());
    give(&mut s, StreamEvent::StartComplete);
    match c.poll_open_bidi(None, &mut s, w.clone()) {
        Poll::Ready(Ok(h)) => assert_eq!(*h.get_ref(), "first"),
        _ => panic!("not started"),
    }
    assert!(c.opening_bidi().is_none());

    // a stream that has started by the time of the poll is not kept
    assert!(c.begin_bidi::<QVecBuffer>().is_some());
    let (mut s, open, start) = c.begin_send::<QVecBuffer>().unwrap();
    assert!(matches!(open, StreamCall::Open { flags: 1 }));
    assert!(matches!(start, StreamCall::Start { flags: 1 }));
    give(&mut s, StreamEvent::StartComplete);
    match c.poll_open_send(Some("second"), &mut s, w.clone()) {
        Poll::Ready(Ok(h)) => assert_eq!(*h.get_ref(), "second"),
        _ => panic!("not started"),
    }
    assert!(c.opening_send().is_none());

    let (mut s, _, _) = c.begin_send::<QVecBuffer>().unwrap();
    assert!(c.poll_open_send(Some("third"), &mut s, w.clone()).is_pending());
    assert_eq!(c.opening_send(), Some(&"third"));
    give(&mut s, StreamEvent::StartComplete);
    assert!(matches!(Conn::poll_start_stream(&"third", &mut s, w), Poll::Ready(Ok(_))));
}

#[test]
fn streams_of_the_peer_are_accepted() {
    let w = waker();
    let mut c = Conn::new(QConnection::attach(Handle::new()).0);
    assert!(c.poll_accept_bidi(w.clone()).is_pending());
    assert!(c.poll_accept_recv(w.clone()).is_pending());
    for (stream, flags) in [("bidi", 0), ("uni", 1)] {
        let event = ConnectionEvent::PeerStreamStarted { stream, flags };
        assert!(c.inner.ctx.accepts(&event));
        let _ = qconnection_callback_handler(&mut c.inner.ctx, event);
    }
    match c.poll_accept_bidi(w.clone()) {
        Poll::Ready(Ok(Some(h))) => assert_eq!(*h.get_ref(), "bidi"),
        _ => panic!("no stream"),
    }
    match c.poll_accept_recv(w.clone()) {
        Poll::Ready(Ok(Some(h))) => assert_eq!(*h.get_ref(), "uni"),
        _ => panic!("no stream"),
    }
    let _ = qconnection_callback_handler(&mut c.inner.ctx, ConnectionEvent::ShutdownComplete);
    assert!(matches!(c.poll_accept_bidi(w.clone()), Poll::Ready(Ok(None))));
    assert!(matches!(c.poll_accept_recv(w), Poll::Ready(Ok(None))));
    let call = c.close(0x100);
    assert!(matches!(call, ConnectionCall::Shutdown { flags: 0, error_code: 0x100 }));
}

#[test]
fn eager_streams_are_handed_out_at_once() {
    let c: msh3_eager::H3Conn<Name> = msh3_eager::H3Conn::new(QConnection::open(Handle::new()).0);
    assert!(!c.inner.can_proceed());
    let (mut s, open, start) = msh3_eager::H3Conn::<Name>::open_bidi::<QVecBuffer>();
    assert!(matches!(open, StreamCall::Open { flags: 0 }));
    assert!(matches!(start, StreamCall::Start { flags: 0 }));
    match msh3_eager::H3Conn::poll_open("bidi") {
        Poll::Ready(Ok(h)) => assert_eq!(*h.get_ref(), "bidi"),
        _ => panic!("no stream"),
    }
    let (_, open, start) = msh3_eager::H3Conn::<Name>::open_send::<QVecBuffer>();
    assert!(matches!(open, StreamCall::Open { flags: 1 }));
    assert!(matches!(start, StreamCall::Start { flags: 1 }));

    let mut finished = false;
    let (call, res) = msh3_eager::poll_finish(&mut finished, &mut s);
    assert!(finished);
    assert!(matches!(call, Some(StreamCall::Shutdown { flags: 1, error_code: 0 })));
    assert!(matches!(res, Poll::Ready(Ok(()))));
    assert!(msh3_eager::poll_finish(&mut finished, &mut s).0.is_none());
}
