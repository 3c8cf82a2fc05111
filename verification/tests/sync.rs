use std::future::poll_fn;
use std::sync::atomic::{AtomicUsize, Ordering};
use std::sync::{Arc, Mutex};
use std::task::{Poll, Wake, Waker};
use std::time::Duration;

use msquic_h3::oneshot::{oneshot_channel, QReceiver, Sending};
use msquic_h3::sync::{QQueue, QResetChannel, QSignal, QWakableQueue, QWakableSig};

struct Counter(AtomicUsize);

impl Wake for Counter {
    fn wake(self: Arc<Self>) {
        self.0.fetch_add(1, Ordering::SeqCst);
    }
}

fn counter() -> (Arc<Counter>, Waker) {
    let c = Arc::new(Counter(AtomicUsize::new(0)));
    (c.clone(), Waker::from(c))
}

fn count(c: &Arc<Counter>) -> usize {
    c.0.load(Ordering::SeqCst)
}

fn runtime() -> tokio::runtime::Runtime {
    tokio::runtime::Builder::new_current_thread().enable_time().build().unwrap()
}

fn received<T>(rx: QReceiver<T>) -> T {
    match rx.into_inner() {
        Ok(data) => data,
        Err(rx) => rx.blocking_recv().unwrap(),
    }
}

#[test]
fn wake_test() {
    runtime().block_on(async {
        // set in same thread
        let mut wakable = QWakableQueue::default();
        let _ = wakable.insert(String::from("hello"));
        let fu = poll_fn(|cx| wakable.poll(cx.waker().clone()));
        let out = fu.await.unwrap();
        assert_eq!(out, "hello");
    });
}

#[test]
fn wake_test2() {
    runtime().block_on(async {
        // set from different task
        let wakable = Arc::new(Mutex::new(QWakableQueue::default()));
        let w_cp = wakable.clone();
        tokio::spawn(async move {
            tokio::time::sleep(Duration::from_millis(10)).await;
            let _ = w_cp.lock().unwrap().insert(String::from("hello"));
            let _ = w_cp.lock().unwrap().insert(String::from("hello2"));
        });
        let wakable_cp = wakable.clone();
        let fu = poll_fn(|cx| wakable_cp.lock().unwrap().poll(cx.waker().clone()));
        let out = fu.await.unwrap();
        assert_eq!(out, "hello");
        let fu2 = poll_fn(|cx| wakable.lock().unwrap().poll(cx.waker().clone()));
        let out2 = fu2.await.unwrap();
        assert_eq!(out2, "hello2");
    });
}

#[test]
fn wake_test3() {
    runtime().block_on(async {
        // close
        let wakable: Arc<Mutex<QWakableQueue<String>>> = Default::default();
        let w_cp = wakable.clone();
        tokio::spawn(async move {
            tokio::time::sleep(Duration::from_millis(10)).await;
            let _ = w_cp.lock().unwrap().close();
        });
        let fu = poll_fn(|cx| wakable.lock().unwrap().poll(cx.waker().clone()));
        let out = fu.await;
        assert!(out.is_none());
    });
}

#[test]
fn wakable_queue_wakes_the_pending_poll_once() {
    let (c, w) = counter();
    let mut q: QWakableQueue<u32> = QWakableQueue::default();
    assert!(q.can_poll());
    assert_eq!(q.poll(w.clone()), Poll::Pending);
    assert!(!q.can_poll());
    let _ = q.insert(1);
    assert_eq!(count(&c), 1);
    let _ = q.insert(2);
    assert_eq!(count(&c), 1);
    assert_eq!(q.poll(w.clone()), Poll::Ready(Some(1)));
    let _ = q.close();
    assert!(q.is_closed());
    assert_eq!(q.poll(w.clone()), Poll::Ready(Some(2)));
    assert_eq!(q.poll(w.clone()), Poll::Ready(None));
    assert_eq!(q.poll(w), Poll::Ready(None));
    let _ = q.close();
    assert_eq!(count(&c), 1);
}

#[test]
fn closing_a_wakable_queue_wakes_the_pending_poll() {
    let (c, w) = counter();
    let mut q: QWakableQueue<u32> = QWakableQueue::default();
    assert_eq!(q.poll(w.clone()), Poll::Pending);
    let _ = q.close();
    assert_eq!(count(&c), 1);
    assert_eq!(q.poll(w), Poll::Ready(None));
}

#[test]
fn signal_wakes_every_poller() {
    let (c1, w1) = counter();
    let (c2, w2) = counter();
    let mut s: QWakableSig<u32> = QWakableSig::default();
    assert!(!s.is_frontend_pending());
    s.set_frontend_pending();
    assert!(s.is_frontend_pending());
    assert_eq!(s.poll(w1.clone()), Poll::Pending);
    assert_eq!(s.poll(w2.clone()), Poll::Pending);
    assert!(!s.can_reset());
    let _ = s.set(7);
    assert_eq!((count(&c1), count(&c2)), (1, 1));
    assert!(!s.is_frontend_pending());
    // the first value stays
    let _ = s.set(8);
    assert_eq!(s.poll(w1.clone()), Poll::Ready(Some(7)));
    assert_eq!(s.poll(w2), Poll::Ready(Some(7)));
    assert!(s.can_reset());
    s.reset();
    assert_eq!(s.poll(w1), Poll::Pending);
    assert_eq!((count(&c1), count(&c2)), (1, 1));
}

#[test]
fn closed_signal_without_a_value_is_cancelled() {
    let (c, w) = counter();
    let mut s: QWakableSig<u32> = QWakableSig::default();
    assert_eq!(s.poll(w.clone()), Poll::Pending);
    let _ = s.close();
    assert_eq!(count(&c), 1);
    assert_eq!(s.poll(w), Poll::Ready(None));
    assert!(!s.can_set());
    let _ = s.close();
    assert_eq!(count(&c), 1);
}

#[test]
fn closed_signal_keeps_its_value() {
    let (_, w) = counter();
    let mut s: QWakableSig<u32> = QWakableSig::default();
    let _ = s.set(3);
    let _ = s.close();
    assert!(s.can_set());
    assert_eq!(s.poll(w), Poll::Ready(Some(3)));
}

#[test]
fn reset_channel_delivers_to_the_receiver_of_the_last_reset() {
    let mut ch: QResetChannel<u32> = QResetChannel::default();
    assert!(!ch.can_set());
    let rx = ch.reset();
    assert!(ch.can_set());
    let _ = ch.set(5);
    assert!(!ch.can_set());
    assert_eq!(received(rx), 5);
    let rx = ch.reset();
    let _ = ch.set(6);
    assert_eq!(received(rx), 6);
    let mut sig = QSignal::new();
    let rx = sig.reset();
    let _ = sig.set(());
    received(rx);
}

#[test]
fn oneshot_channel_delivers_its_value() {
    let (tx, rx) = oneshot_channel();
    let _ = tx.send("value");
    assert_eq!(received(rx), "value");
    assert_eq!(received(QReceiver::make_ready(9)), 9);
    // a dropped receiver is ignored
    let (tx, rx) = oneshot_channel();
    drop(rx);
    let _ = tx.send(1);
}

#[test]
fn polling_a_receiver_takes_its_value_once() {
    let (c, w) = counter();
    let mut rx = QReceiver::make_ready(4);
    assert!(rx.is_pending());
    assert_eq!(rx.poll(w.clone(), Sending::Unknown), Poll::Ready(Some(4)));
    assert!(!rx.is_pending());

    let (tx, mut rx) = oneshot_channel();
    assert_eq!(rx.poll(w.clone(), Sending::Unsent(&tx)), Poll::Pending);
    assert!(rx.is_pending());
    let sent = tx.send(5);
    assert_eq!(count(&c), 1);
    assert_eq!(rx.poll(w.clone(), Sending::Sent(&sent)), Poll::Ready(Some(5)));
    assert!(!rx.is_pending());

    // a sender that was dropped without sending
    let (tx, mut rx) = oneshot_channel::<u32>();
    assert_eq!(rx.poll(w.clone(), Sending::Unknown), Poll::Pending);
    drop(tx);
    assert_eq!(count(&c), 2);
    assert_eq!(rx.poll(w, Sending::Unknown), Poll::Ready(None));
}

#[test]
fn outcome_of_a_poll_is_handed_on() {
    let (_, w) = counter();
    let mut rx = QReceiver::make_ready(4);
    assert_eq!(rx.poll(w, Sending::Unknown), Poll::Ready(Some(4)));
    assert_eq!(rx.polled(Ok(Some(7))), Poll::Ready(Some(7)));
    assert_eq!(rx.polled(Ok(None)), Poll::Ready(None));
    assert!(!rx.is_pending());
}

#[test]
fn receiver_gives_what_was_sent_to_its_channel() {
    let (tx, rx) = oneshot_channel();
    let sent = tx.send(String::from("value"));
    assert_eq!(rx.received(sent), "value");
    // the receiver inside is that of the channel
    let (tx, rx) = oneshot_channel();
    let inner = rx.into_inner().unwrap_err();
    let _ = tx.send(8);
    assert_eq!(inner.blocking_recv(), Ok(8));
}

#[test]
fn reset_forgets_the_action() {
    let mut s: QWakableSig<u32> = QWakableSig::default();
    s.set_frontend_pending();
    s.reset();
    assert!(!s.is_frontend_pending());
    // an action that is begun anew has no answer
    let (c, w) = counter();
    let _ = s.set(1);
    s.begin();
    assert!(s.is_frontend_pending());
    assert_eq!(s.poll(w.clone()), Poll::Pending);
    let _ = s.set(2);
    assert_eq!(count(&c), 1);
    assert!(!s.is_frontend_pending());
    assert_eq!(s.poll(w), Poll::Ready(Some(2)));
}

#[test]
fn second_close_replaces_the_code() {
    let mut q: QQueue<u32> = QQueue::new();
    let rx = q.pop();
    assert!(q.close(3).is_some());
    assert!(q.close(4).is_none());
    assert_eq!(received(rx), Err(3));
    assert_eq!(received(q.pop()), Err(4));
}

#[test]
fn queue_gives_items_in_order() {
    let mut q: QQueue<u32> = QQueue::default();
    assert!(q.insert(1).is_none());
    assert!(q.insert(2).is_none());
    assert_eq!(received(q.pop()), Ok(1));
    assert_eq!(received(q.pop()), Ok(2));
    // wait for the next insert
    assert!(q.can_pop());
    let rx = q.pop();
    assert!(!q.can_pop());
    assert!(q.insert(3).is_some());
    assert_eq!(received(rx), Ok(3));
}

#[test]
fn closed_queue_gives_what_it_holds_and_then_its_code() {
    let mut q: QQueue<u32> = QQueue::new();
    assert!(q.insert(1).is_none());
    assert!(q.close(42).is_none());
    assert!(q.is_closed());
    assert_eq!(received(q.pop()), Ok(1));
    assert_eq!(received(q.pop()), Err(42));
    assert_eq!(received(q.pop()), Err(42));
}

#[test]
fn closing_a_queue_tells_the_one_that_waits() {
    let mut q: QQueue<u32> = QQueue::new();
    let rx = q.pop();
    assert!(q.close(11).is_some());
    assert_eq!(received(rx), Err(11));
}

#[test]
fn waiting_receiver_gets_the_first_item() {
    let mut q: QQueue<u32> = QQueue::new();
    let rx = q.pop();
    assert!(q.insert(1).is_some());
    assert!(q.insert(2).is_none());
    assert!(q.insert(3).is_none());
    assert_eq!(received(rx), Ok(1));
    assert_eq!(received(q.pop()), Ok(2));
    assert_eq!(received(q.pop()), Ok(3));
}

#[test]
fn used_up_budget_puts_a_ready_receiver_off() {
    runtime().block_on(async {
        let mut taken = 0;
        let mut put_off = None;
        poll_fn(|cx| {
            for i in 0..1000 {
                let mut rx = QReceiver::make_ready(i);
                match rx.poll(cx.waker().clone(), Sending::Unknown) {
                    Poll::Ready(data) => {
                        assert_eq!(data, Some(i));
                        taken += 1;
                    }
                    Poll::Pending => {
                        put_off = Some(rx);
                        break;
                    }
                }
            }
            Poll::Ready(())
        })
        .await;
        let rx = put_off.unwrap();
        assert!(rx.is_pending());
        assert_eq!(rx.into_inner().unwrap(), taken);
    });
}
