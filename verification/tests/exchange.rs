use std::sync::Arc;
use std::task::{Poll, Wake, Waker};

use msquic_h3::api::Handle;
use msquic_h3::buffer::{QBufferVec, QVecBuffer};
use msquic_h3::conn::{qconnection_callback_handler, ConnectionEvent, QConnection};
use msquic_h3::listener::{listener_handler, ListenerEvent, QListener};
use msquic_h3::oneshot::Sending;
use msquic_h3::stream::{qstream_handler_callback, QStream, StreamEvent};
use msquic_h3::transport::StreamCall;

struct Nobody;

impl Wake for Nobody {
    fn wake(self: Arc<Self>) {}
}

fn waker() -> Waker {
    Waker::from(Arc::new(Nobody))
}

type Stream = QStream<QVecBuffer>;

fn attach() -> Stream {
    let (s, call) = Stream::attach();
    assert!(matches!(call, StreamCall::SetCallback));
    s
}

type Conn = QConnection<Stream>;

fn stream_event(s: &mut Stream, event: StreamEvent) {
    assert!(s.ctx.accepts(&event));
    let _ = qstream_handler_callback(&mut s.ctx, event);
}

fn conn_event(c: &mut Conn, event: ConnectionEvent<Stream>) {
    assert!(c.ctx.accepts(&event));
    let _ = qconnection_callback_handler(&mut c.ctx, event);
}

/// Carries what `from` sends to `to`, and ends the sending side.
fn carry(from: &mut Stream, to: &mut Stream) {
    let sent = [QVecBuffer { data: from.pending_buf().unwrap().data.clone() }];
    let buffers = QBufferVec::from(sent.as_slice());
    stream_event(to, StreamEvent::Receive { buffers: buffers.as_buffers() });
    stream_event(to, StreamEvent::PeerSendShutdown);
    stream_event(from, StreamEvent::SendComplete { canceled: false });
    stream_event(from, StreamEvent::SendShutdownComplete);
}

fn payload(s: &mut Stream) -> String {
    match s.poll_receive(waker()) {
        Poll::Ready(Some(chunk)) => String::from_utf8(chunk.0.to_vec()).unwrap(),
        _ => panic!("nothing received"),
    }
}

#[test]
fn client_and_server_exchange() {
    let (mut listener, _): (QListener<Conn>, _) = QListener::open(Handle::new());
    listener.start(&[], "localhost:4567");
    let accepting = listener.accept().unwrap();

    let mut client = Conn::open(Handle::new()).0;
    let (mut connecting, _) = client.start(Handle::new(), "localhost", 4567);
    let event = ListenerEvent::NewConnection { connection: Conn::attach(Handle::new()).0 };
    assert!(listener.ctx.accepts(&event));
    let accepted = listener_handler(&mut listener.ctx, event).accepted.unwrap();
    let mut server = QListener::accepted_by(accepting, accepted).unwrap();
    conn_event(&mut server, ConnectionEvent::Connected);
    conn_event(&mut client, ConnectionEvent::Connected);
    let mut proceeding = server.proceed();
    for rx in [&mut connecting, &mut proceeding] {
        match rx.poll(waker(), Sending::Unknown) {
            Poll::Ready(Some(status)) => assert!(Conn::connect_result(status).is_ok()),
            _ => panic!("not connected"),
        }
    }

    let (mut st, _) = Stream::open(0);
    stream_event(&mut st, StreamEvent::StartComplete);
    assert!(matches!(st.poll_start(waker()), Poll::Ready(Ok(()))));
    let peer = attach();
    conn_event(&mut server, ConnectionEvent::PeerStreamStarted { stream: peer, flags: 0 });
    let mut s = match server.poll_accept(waker()) {
        Poll::Ready(Some(s)) => s,
        _ => panic!("no stream"),
    };

    st.send_only(QVecBuffer::from("hello"), 0);
    carry(&mut st, &mut s);
    assert!(matches!(st.poll_send(waker()), Poll::Ready(Ok(()))));
    assert_eq!(payload(&mut s), "hello");
    s.send_only(QVecBuffer::from("hello world"), 0);
    carry(&mut s, &mut st);
    assert_eq!(payload(&mut st), "hello world");
    assert!(matches!(st.poll_receive(waker()), Poll::Ready(None)));

    for stream in [&mut st, &mut s] {
        let mut rx = stream.drain().unwrap();
        stream_event(stream, StreamEvent::ShutdownComplete);
        assert!(matches!(rx.poll(waker(), Sending::Unknown), Poll::Ready(Some(()))));
    }
    for conn in [&mut client, &mut server] {
        assert!(conn.shutdown(0).is_some());
        conn_event(conn, ConnectionEvent::ShutdownComplete);
        assert_eq!(conn.poll_shutdown(waker()), Poll::Ready(()));
    }

    let (mut stopping, _) = listener.stop();
    let stopped = listener_handler(&mut listener.ctx, ListenerEvent::StopComplete);
    assert!(stopped.stopped.is_some());
    assert_eq!(stopping.poll(waker(), Sending::Unknown), Poll::Ready(Some(())));
    assert!(listener.accept().is_none());
}
