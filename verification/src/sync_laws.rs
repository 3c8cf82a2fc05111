//! What the signals and queues promise over several calls.
use std::task::{Poll, Waker};

use crate::oneshot::{Delivery, QSender, Sending};
use crate::sync::{QError, QQueueView, QWakableQueueView, QWakableSigView};

use vstd::prelude::*;

verus! {

/// Every operation on a queue leaves a receiver waiting only while there is nothing to give it.
pub proof fn queue_keeps_wf<T>(q: QQueueView<T>, data: T, err: QError, channel: Option<int>)
    requires
        q.wf(),
    ensures
        QQueueView::<T>::init().wf(),
        q.insert(data).wf(),
        q.pop(channel).wf(),
        q.close(err).wf(),
{
}

proof fn queue_insert_all<T>(q: QQueueView<T>, data: Seq<T>)
    requires
        q.waiting is None,
    ensures
        q.insert_all(data) == (QQueueView { items: q.items + data, ..q }),
    decreases data.len(),
{
    if data.len() == 0 {
        assert(q.items + data =~= q.items);
    } else {
        queue_insert_all(q, data.drop_last());
        assert((q.items + data.drop_last()).push(data.last()) =~= q.items + data);
    }
}

proof fn queue_pop_all<T>(q: QQueueView<T>, n: nat)
    requires
        n <= q.items.len(),
    ensures
        q.pop_all(n) == (QQueueView { items: q.items.skip(n as int), ..q }),
    decreases n,
{
    if n == 0 {
        assert(q.items.skip(0) =~= q.items);
    } else {
        queue_pop_all(q, (n - 1) as nat);
        assert(q.items.skip(n - 1).drop_first() =~= q.items.skip(n as int));
    }
}

/// Items leave a queue in the order in which they went in, each of them once: the `i`-th pop
/// after inserting `data` gives the `i`-th of the items that were there followed by `data`.
pub proof fn queue_is_first_in_first_out<T>(q: QQueueView<T>, data: Seq<T>, i: nat)
    requires
        q.wf(),
        q.waiting is None,
        !q.is_closed,
        i < q.items.len() + data.len(),
    ensures
        q.insert_all(data).pop_all(i).pop_result() == Some(
            Ok::<T, QError>((q.items + data)[i as int]),
        ),
{
    queue_insert_all(q, data);
    queue_pop_all(q.insert_all(data), i);
}

/// The receiver that waits comes first: of the items that are inserted it gets the first, and
/// the others leave the queue in order.
pub proof fn waiting_receiver_comes_first<T>(q: QQueueView<T>, data: Seq<T>, i: nat)
    requires
        q.wf(),
        q.waiting is Some,
        i + 1 < data.len(),
    ensures
        q.insert_all(data).waiting is None,
        q.insert_all(data).pop_all(i).pop_result() == Some(Ok::<T, QError>(data[i as int + 1])),
{
    queue_insert_all_with_a_receiver(q, data);
    queue_pop_all(q.insert_all(data), i);
}

proof fn queue_insert_all_with_a_receiver<T>(q: QQueueView<T>, data: Seq<T>)
    requires
        q.wf(),
        q.waiting is Some,
        data.len() > 0,
    ensures
        q.insert_all(data) == (QQueueView { items: data.drop_first(), waiting: None, ..q }),
    decreases data.len(),
{
    if data.len() == 1 {
        reveal_with_fuel(QQueueView::insert_all, 2);
        assert(q.insert_all(data.drop_last()) == q);
        assert(data.drop_first() =~= q.items);
    } else {
        queue_insert_all_with_a_receiver(q, data.drop_last());
        assert(data.drop_last().drop_first().push(data.last()) =~= data.drop_first());
    }
}

/// An item that is inserted while a receiver waits goes to it and not into the queue; the next
/// pop is not given it again.
pub proof fn queue_gives_an_item_once<T>(q: QQueueView<T>, data: T)
    requires
        q.wf(),
        q.waiting is Some,
    ensures
        q.insert(data).items == q.items,
        q.insert(data).pop_result() is None,
{
}

/// A closed queue gives what it still holds, and then the code that it was closed with, again
/// and again: no pop waits.
pub proof fn closed_queue_drains<T>(q: QQueueView<T>, err: QError, i: nat, channel: Option<int>)
    ensures
        i < q.items.len() ==> q.close(err).pop_all(i).pop_result() == Some(
            Ok::<T, QError>(q.items[i as int]),
        ),
        i >= q.items.len() ==> q.close(err).pop_all(i).pop_result() == Some(Err::<T, QError>(err)),
        q.close(err).pop(channel).waiting is None,
{
    if i <= q.items.len() {
        queue_pop_all(q.close(err), i);
    } else {
        closed_queue_is_drained(q.close(err), i);
    }
}

proof fn closed_queue_is_drained<T>(q: QQueueView<T>, i: nat)
    requires
        q.is_closed,
        i >= q.items.len(),
    ensures
        q.pop_all(i).items.len() == 0,
        q.pop_all(i).is_closed,
        q.pop_all(i).ec == q.ec,
    decreases i,
{
    if i > q.items.len() {
        closed_queue_is_drained(q, (i - 1) as nat);
    } else {
        queue_pop_all(q, i);
    }
}

/// Every operation on a polled queue leaves a poll pending only while there is nothing to give
/// it.
pub proof fn wakable_queue_keeps_wf<T>(q: QWakableQueueView<T>, data: T, waker: Waker)
    requires
        q.wf(),
    ensures
        QWakableQueueView::<T>::init().wf(),
        q.insert(data).wf(),
        q.poll(waker).wf(),
        q.close().wf(),
{
}

proof fn wakable_queue_insert_all<T>(q: QWakableQueueView<T>, data: Seq<T>)
    ensures
        q.insert_all(data).data == q.data + data,
        q.insert_all(data).is_closed == q.is_closed,
    decreases data.len(),
{
    if data.len() == 0 {
        assert(q.data + data =~= q.data);
    } else {
        wakable_queue_insert_all(q, data.drop_last());
        assert((q.data + data.drop_last()).push(data.last()) =~= q.data + data);
    }
}

proof fn wakable_queue_poll_times<T>(q: QWakableQueueView<T>, waker: Waker, n: nat)
    requires
        n <= q.data.len(),
    ensures
        q.poll_times(waker, n) == (QWakableQueueView { data: q.data.skip(n as int), ..q }),
    decreases n,
{
    if n == 0 {
        assert(q.data.skip(0) =~= q.data);
    } else {
        wakable_queue_poll_times(q, waker, (n - 1) as nat);
        assert(q.data.skip(n - 1).drop_first() =~= q.data.skip(n as int));
    }
}

/// Items leave a polled queue in the order in which they went in: the `i`-th poll after
/// inserting `data` gives the `i`-th of the items that were there followed by `data`.
pub proof fn wakable_queue_is_first_in_first_out<T>(
    q: QWakableQueueView<T>,
    data: Seq<T>,
    waker: Waker,
    i: nat,
)
    requires
        !q.is_closed,
        i < q.data.len() + data.len(),
    ensures
        q.insert_all(data).poll_times(waker, i).poll_result() == Poll::Ready(
            Some((q.data + data)[i as int]),
        ),
{
    wakable_queue_insert_all(q, data);
    wakable_queue_poll_times(q.insert_all(data), waker, i);
}

/// A closed queue gives what it still holds and then `None`, again and again: no poll is
/// pending.
pub proof fn closed_wakable_queue_drains<T>(q: QWakableQueueView<T>, waker: Waker, i: nat)
    ensures
        i < q.data.len() ==> q.close().poll_times(waker, i).poll_result() == Poll::Ready(
            Some(q.data[i as int]),
        ),
        i >= q.data.len() ==> q.close().poll_times(waker, i).poll_result() == Poll::Ready(None::<T>),
{
    if i <= q.data.len() {
        wakable_queue_poll_times(q.close(), waker, i);
    } else {
        closed_wakable_queue_is_drained(q.close(), waker, i);
    }
}

proof fn closed_wakable_queue_is_drained<T>(q: QWakableQueueView<T>, waker: Waker, i: nat)
    requires
        q.is_closed,
        i >= q.data.len(),
    ensures
        q.poll_times(waker, i).data.len() == 0,
        q.poll_times(waker, i).is_closed,
    decreases i,
{
    if i > q.data.len() {
        closed_wakable_queue_is_drained(q, waker, (i - 1) as nat);
    } else {
        wakable_queue_poll_times(q, waker, i);
    }
}

/// No wake-up is lost: the task of a pending poll is the one that the next insert or close
/// wakes, and its next poll is then ready.
pub proof fn wakable_queue_wakes_its_poller<T>(q: QWakableQueueView<T>, waker: Waker, data: T)
    requires
        q.can_poll(),
        q.poll_result() is Pending,
    ensures
        q.poll(waker).pending() == seq![waker],
        q.poll(waker).insert(data).poll_result() == Poll::Ready(Some(data)),
        q.poll(waker).insert(data).can_poll(),
        q.poll(waker).close().poll_result() == Poll::Ready(None::<T>),
        q.poll(waker).close().can_poll(),
{
    assert(q.data.push(data)[0] == data);
}

/// Every operation on a signal leaves polls pending only while there is nothing to give them.
pub proof fn signal_keeps_wf<T>(s: QWakableSigView<T>, data: T, waker: Waker)
    requires
        s.wf(),
    ensures
        QWakableSigView::<T>::init().wf(),
        s.set_frontend_pending().wf(),
        s.begin().wf(),
        s.poll(waker).wf(),
        s.set(data).wf(),
        s.can_reset() ==> s.reset().wf(),
        s.close().wf(),
{
}

/// A signal keeps the first value that it is set to, until it is reset.
pub proof fn signal_keeps_its_first_value<T>(s: QWakableSigView<T>, first: T, second: T)
    requires
        s.data is None,
    ensures
        s.set(first).data == Some(first),
        s.set(first).set(second) == s.set(first),
        s.set(first).set_wakes() == Seq::<Waker>::empty(),
        s.set(first).reset().data is None,
{
}

/// Setting or closing a signal wakes every task whose poll is pending, in the order in which
/// they polled, and leaves none pending.
pub proof fn signal_wakes_all_pollers<T>(s: QWakableSigView<T>, first: Waker, second: Waker, data: T)
    requires
        s.data is None,
        !s.is_closed,
    ensures
        s.poll(first).poll(second).set_wakes() == s.wakers.push(first).push(second),
        s.poll(first).poll(second).close_wakes() == s.wakers.push(first).push(second),
        s.set(data).wakers.len() == 0,
        s.close().wakers.len() == 0,
{
}

/// A signal that was reset is as new.
pub proof fn reset_signal_is_new<T>(s: QWakableSigView<T>)
    requires
        s.can_reset(),
    ensures
        s.reset() == QWakableSigView::<T>::init(),
{
    assert(s.wakers =~= Seq::empty());
}

/// Setting a signal answers the action that was begun, so that the next one can begin.
pub proof fn signal_answers_the_frontend<T>(s: QWakableSigView<T>, data: T)
    requires
        s.data is None,
    ensures
        !s.set_frontend_pending().set(data).frontend_pending,
        s.begin().set(data).data == Some(data),
{
}

/// A pop that finds nothing waits, with a receiver on `channel`: the next insert or close
/// answers it, and nobody waits then.
pub proof fn waiting_pop_is_answered<T>(q: QQueueView<T>, channel: int, data: T, err: QError)
    requires
        q.pop_result() is None,
    ensures
        q.pop(Some(channel)).waiting == Some(channel),
        q.pop(Some(channel)).insert(data).waiting is None,
        q.pop(Some(channel)).insert(data).items == q.items,
        q.pop(Some(channel)).close(err).waiting is None,
{
}

/// Closing a queue or a signal that is closed changes nothing.
pub proof fn closing_twice_is_closing_once<T>(q: QWakableQueueView<T>, s: QWakableSigView<T>)
    ensures
        q.close().close() == q.close(),
        s.close().close() == s.close(),
        s.close().close_wakes() == Seq::<Waker>::empty(),
{
}

/// An operation on a queue changes what it is about and nothing else. A new queue is open and
/// empty, and nobody waits.
pub proof fn queue_operations_do_no_more<T>(
    q: QQueueView<T>,
    data: T,
    err: QError,
    channel: Option<int>,
)
    ensures
        q.insert(data).is_closed == q.is_closed,
        q.insert(data).ec == q.ec,
        q.waiting is None ==> q.insert(data).items == q.items + seq![data]
            && q.insert(data).waiting is None,
        q.pop(channel).is_closed == q.is_closed,
        q.pop(channel).ec == q.ec,
        q.pop_result() matches Some(Ok(item)) ==> q.items == seq![item] + q.pop(channel).items
            && q.pop(channel).waiting == q.waiting,
        q.pop_result() matches Some(Err(code)) ==> q.items.len() == 0 && q.is_closed && code == q.ec
            && q.pop(channel) == q,
        q.pop_result() is None ==> q.items.len() == 0 && !q.is_closed && q.pop(channel).items
            == q.items && q.pop(channel).waiting == channel,
        q.close(err).items == q.items,
        q.close(err).is_closed,
        q.close(err).ec == err,
        QQueueView::<T>::init().items.len() == 0,
        QQueueView::<T>::init().waiting is None,
        !QQueueView::<T>::init().is_closed,
{
    if q.items.len() > 0 {
        assert(q.items =~= seq![q.items[0]] + q.items.drop_first());
    }
    assert(q.items.push(data) =~= q.items + seq![data]);
}

/// An operation on a polled queue changes what it is about and nothing else. A new one is open
/// and empty, and no poll is pending.
pub proof fn wakable_queue_operations_do_no_more<T>(
    q: QWakableQueueView<T>,
    data: T,
    waker: Waker,
)
    ensures
        q.insert(data).data == q.data + seq![data],
        q.insert(data).is_closed == q.is_closed,
        q.insert(data).waker is None,
        q.poll(waker).is_closed == q.is_closed,
        match q.poll_result() {
            Poll::Ready(Some(item)) => q.data == seq![item] + q.poll(waker).data
                && q.poll(waker).waker == q.waker,
            Poll::Ready(None) => q.data.len() == 0 && q.is_closed && q.poll(waker) == q,
            Poll::Pending => q.data.len() == 0 && !q.is_closed && q.poll(waker).data == q.data
                && q.poll(waker).waker == Some(waker),
        },
        q.close().data == q.data,
        q.close().is_closed,
        q.wf() ==> q.close().waker is None,
        q.can_poll() <==> q.data.len() > 0 || q.is_closed || q.waker is None,
        QWakableQueueView::<T>::init().data.len() == 0,
        QWakableQueueView::<T>::init().waker is None,
        !QWakableQueueView::<T>::init().is_closed,
{
    if q.data.len() > 0 {
        assert(q.data =~= seq![q.data[0]] + q.data.drop_first());
    }
    assert(q.data.push(data) =~= q.data + seq![data]);
}

/// An operation on a signal changes what it is about and nothing else. A new signal has no value,
/// is open, and nothing was begun.
pub proof fn signal_operations_do_no_more<T>(s: QWakableSigView<T>, data: T, waker: Waker)
    ensures
        s.set(data).is_closed == s.is_closed,
        s.data is Some ==> s.set(data) == s,
        s.data is None ==> s.set(data).data == Some(data) && !s.set(data).frontend_pending
            && s.set(data).wakers.len() == 0,
        s.poll(waker).data == s.data,
        s.poll(waker).is_closed == s.is_closed,
        s.poll(waker).frontend_pending == s.frontend_pending,
        s.data is None && !s.is_closed ==> s.poll(waker).wakers == s.wakers + seq![waker],
        s.data is Some || s.is_closed ==> s.poll(waker).wakers == s.wakers,
        s.close().data == s.data,
        s.close().is_closed,
        s.close().frontend_pending == s.frontend_pending,
        s.set_frontend_pending().frontend_pending,
        s.set_frontend_pending().data == s.data,
        s.set_frontend_pending().wakers == s.wakers,
        s.set_frontend_pending().is_closed == s.is_closed,
        s.begin().frontend_pending,
        s.begin().data is None,
        s.begin().wakers == s.wakers,
        s.begin().is_closed == s.is_closed,
        s.can_set() <==> s.data is Some || !s.is_closed,
        s.can_reset() <==> !s.is_closed && s.wakers.len() == 0,
        QWakableSigView::<T>::init().data is None,
        QWakableSigView::<T>::init().wakers.len() == 0,
        !QWakableSigView::<T>::init().is_closed,
        !QWakableSigView::<T>::init().frontend_pending,
{
    assert(s.wakers.push(waker) =~= s.wakers + seq![waker]);
}

/// What a poll of a receiver gives after a send to its channel is what was sent, and while the
/// sender has not sent it gives nothing.
pub proof fn poll_gives_what_was_sent<'a, T>(
    sent: &'a Delivery<T>,
    tx: &'a QSender<T>,
    outcome: Poll<Option<T>>,
)
    ensures
        Sending::Sent(sent).allows(sent.channel(), outcome) ==> (outcome is Pending || outcome
            == Poll::Ready(Some(sent.value()))),
        Sending::Unsent(tx).allows(tx.channel(), outcome) ==> outcome is Pending,
{
}

} // verus!
