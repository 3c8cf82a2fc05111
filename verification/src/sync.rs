//! Signals and queues that are set or filled by a transport callback and awaited by tasks.
use std::collections::VecDeque;
use std::task::{Poll, Waker};

use crate::oneshot::{oneshot_channel, Delivery, QReceiver, QSender};
use crate::task::Woken;

use vstd::prelude::*;

verus! {

/// The code of an error that a queue was closed with.
pub type QError = u32;

/// A signal that can be reset, awaited and set, again and again.
#[verifier::reject_recursive_types(T)]
pub struct QResetChannel<T> {
    tx: Option<QSender<T>>,
}

/// A signal that carries no value.
pub type QSignal = QResetChannel<()>;

impl<T> View for QResetChannel<T> {
    /// The channel of the receiver that waits for the next value, if there is one.
    type V = Option<int>;

    closed spec fn view(&self) -> Option<int> {
        match self.tx {
            Some(tx) => Some(tx.channel()),
            None => None,
        }
    }
}

impl<T> Default for QResetChannel<T> {
    fn default() -> (res: Self)
        ensures
            res@ is None,
    {
        Self::new()
    }
}

impl<T> QResetChannel<T> {
    /// A signal that nobody waits for.
    pub fn new() -> (res: Self)
        ensures
            res@ is None,
    {
        QResetChannel { tx: None }
    }

    /// Makes the receiver of the next value.
    pub fn reset(&mut self) -> (res: QReceiver<T>)
        requires
            old(self)@ is None,
        ensures
            final(self)@ is Some,
            res.channel() == final(self)@,
            res.ready() is None,
    {
        let (tx, rx) = oneshot_channel();
        self.tx = Some(tx);
        rx
    }

    /// Sends `data` to the receiver that waits.
    pub fn set(&mut self, data: T) -> (sent: Delivery<T>)
        requires
            old(self)@ is Some,
        ensures
            final(self)@ is None,
            old(self)@ == Some(sent.channel()),
            sent.value() == data,
    {
        let tx = self.tx.take().unwrap();
        tx.send(data)
    }

    /// Whether a receiver waits, that is, whether `set` can be called.
    pub fn can_set(&self) -> (res: bool)
        ensures
            res == (self@ is Some),
    {
        self.tx.is_some()
    }
}

/// A queue whose next item can be awaited.
#[verifier::reject_recursive_types(T)]
pub struct QQueue<T> {
    v: VecDeque<T>,
    channel: QResetChannel<Result<T, QError>>,
    is_closed: bool,
    ec: u32,
}

/// What a `QQueue` holds.
pub struct QQueueView<T> {
    /// The items that nobody has popped yet, oldest first.
    pub items: Seq<T>,
    /// The channel of the receiver that waits for the next item, if there is one.
    pub waiting: Option<int>,
    pub is_closed: bool,
    /// The code that the queue was closed with.
    pub ec: u32,
}

impl<T> QQueueView<T> {
    /// An empty queue.
    pub open spec fn init() -> Self {
        QQueueView { items: Seq::empty(), waiting: None, is_closed: false, ec: 0 }
    }

    /// A receiver waits only while there is nothing to give it: no item, and no end.
    pub open spec fn wf(self) -> bool {
        self.waiting is Some ==> self.items.len() == 0 && !self.is_closed
    }

    /// After an item was inserted: it went to the receiver that waited, or else into the queue.
    pub open spec fn insert(self, data: T) -> Self {
        if self.waiting is Some {
            QQueueView { waiting: None, ..self }
        } else {
            QQueueView { items: self.items.push(data), ..self }
        }
    }

    /// What a pop gives at once, if it does not have to wait.
    pub open spec fn pop_result(self) -> Option<Result<T, QError>> {
        if self.items.len() > 0 {
            Some(Ok(self.items[0]))
        } else if self.is_closed {
            Some(Err(self.ec))
        } else {
            None
        }
    }

    /// After a pop, which left a receiver of `channel` waiting if there was nothing to give.
    pub open spec fn pop(self, channel: Option<int>) -> Self {
        if self.items.len() > 0 {
            QQueueView { items: self.items.drop_first(), ..self }
        } else if self.is_closed {
            self
        } else {
            QQueueView { waiting: channel, ..self }
        }
    }

    /// After the queue was closed with `err`, and the receiver that waited was told.
    pub open spec fn close(self, err: QError) -> Self {
        QQueueView { is_closed: true, ec: err, waiting: None, ..self }
    }

    /// After `data` was inserted item by item.
    pub open spec fn insert_all(self, data: Seq<T>) -> Self
        decreases data.len(),
    {
        if data.len() == 0 {
            self
        } else {
            self.insert_all(data.drop_last()).insert(data.last())
        }
    }

    /// After `n` pops that had something to give.
    pub open spec fn pop_all(self, n: nat) -> Self
        decreases n,
    {
        if n == 0 {
            self
        } else {
            self.pop_all((n - 1) as nat).pop(None)
        }
    }
}

impl<T> View for QQueue<T> {
    type V = QQueueView<T>;

    closed spec fn view(&self) -> QQueueView<T> {
        QQueueView {
            items: self.v@,
            waiting: self.channel@,
            is_closed: self.is_closed,
            ec: self.ec,
        }
    }
}

impl<T> Default for QQueue<T> {
    fn default() -> (res: Self)
        ensures
            res@ == QQueueView::<T>::init(),
    {
        Self::new()
    }
}

impl<T> QQueue<T> {
    /// An empty queue.
    pub fn new() -> (res: Self)
        ensures
            res@ == QQueueView::<T>::init(),
    {
        QQueue { v: VecDeque::new(), channel: QResetChannel::new(), is_closed: false, ec: 0 }
    }

    /// Gives `data` to the receiver that waits, or else queues it.
    pub fn insert(&mut self, data: T) -> (sent: Option<Delivery<Result<T, QError>>>)
        requires
            !old(self)@.is_closed,
        ensures
            final(self)@ == old(self)@.insert(data),
            sent is Some <==> old(self)@.waiting is Some,
            sent matches Some(d) ==> {
                &&& old(self)@.waiting == Some(d.channel())
                &&& d.value() == Ok::<T, QError>(data)
            },
    {
        if self.channel.can_set() {
            return Some(self.channel.set(Ok(data)));
        }
        self.v.push_back(data);
        None
    }

    /// The next item, or the code of a queue that was closed and holds no more; where there is
    /// neither, a receiver that waits for the next insert. Only one receiver waits at a time.
    pub fn pop(&mut self) -> (res: QReceiver<Result<T, QError>>)
        requires
            old(self)@.pop_result() is None ==> old(self)@.waiting is None,
        ensures
            final(self)@ == old(self)@.pop(res.channel()),
            res.ready() == old(self)@.pop_result(),
            res.channel() is Some <==> old(self)@.pop_result() is None,
    {
        match self.v.pop_front() {
            Some(data) => {
                return QReceiver::make_ready(Ok(data));
            },
            None => {},
        }
        if self.is_closed {
            return QReceiver::make_ready(Err(self.ec));
        }
        self.channel.reset()
    }

    /// Closes the queue: no receiver will wait any more, and the one that waits gets `err`.
    pub fn close(&mut self, err: QError) -> (sent: Option<Delivery<Result<T, QError>>>)
        ensures
            final(self)@ == old(self)@.close(err),
            sent is Some <==> old(self)@.waiting is Some,
            sent matches Some(d) ==> {
                &&& old(self)@.waiting == Some(d.channel())
                &&& d.value() == Err::<T, QError>(err)
            },
    {
        self.is_closed = true;
        self.ec = err;
        if self.channel.can_set() {
            Some(self.channel.set(Err(err)))
        } else {
            None
        }
    }

    /// Whether the queue is closed, so that nothing can be inserted.
    pub fn is_closed(&self) -> (res: bool)
        ensures
            res == self@.is_closed,
    {
        self.is_closed
    }

    /// Whether `pop` can be called: it has something to give, or nobody waits.
    pub fn can_pop(&self) -> (res: bool)
        ensures
            res == (self@.pop_result() is None ==> self@.waiting is None),
    {
        self.v.len() > 0 || self.is_closed || !self.channel.can_set()
    }
}

/// A queue whose next item can be polled for by one task.
#[verifier::reject_recursive_types(T)]
pub struct QWakableQueue<T> {
    data: VecDeque<T>,
    waker: Option<Waker>,
    is_closed: bool,
}

/// What a `QWakableQueue` holds.
pub struct QWakableQueueView<T> {
    /// The items that nobody has taken yet, oldest first.
    pub data: Seq<T>,
    /// The task whose poll is pending, if there is one.
    pub waker: Option<Waker>,
    pub is_closed: bool,
}

impl<T> QWakableQueueView<T> {
    /// An empty queue.
    pub open spec fn init() -> Self {
        QWakableQueueView { data: Seq::empty(), waker: None, is_closed: false }
    }

    /// A poll is pending only while there is nothing to give it: no item, and no end.
    pub open spec fn wf(self) -> bool {
        self.waker is Some ==> self.data.len() == 0 && !self.is_closed
    }

    /// The task that has to be woken when the queue changes.
    pub open spec fn pending(self) -> Seq<Waker> {
        match self.waker {
            Some(w) => seq![w],
            None => Seq::empty(),
        }
    }

    /// After an item was inserted and the pending task was woken.
    pub open spec fn insert(self, data: T) -> Self {
        QWakableQueueView { data: self.data.push(data), waker: None, ..self }
    }

    /// What a poll returns: the oldest item; when there is none, the end of a closed queue, and
    /// nothing yet of an open one.
    pub open spec fn poll_result(self) -> Poll<Option<T>> {
        if self.data.len() > 0 {
            Poll::Ready(Some(self.data[0]))
        } else if self.is_closed {
            Poll::Ready(None)
        } else {
            Poll::Pending
        }
    }

    /// After a poll by the task of `waker`, which stays registered if the poll is pending.
    pub open spec fn poll(self, waker: Waker) -> Self {
        if self.data.len() > 0 {
            QWakableQueueView { data: self.data.drop_first(), ..self }
        } else if self.is_closed {
            self
        } else {
            QWakableQueueView { waker: Some(waker), ..self }
        }
    }

    /// Whether the queue can be polled: only one poll can be pending at a time.
    pub open spec fn can_poll(self) -> bool {
        self.poll_result() is Pending ==> self.waker is None
    }

    /// After the queue was closed and the pending task was woken.
    pub open spec fn close(self) -> Self {
        if self.is_closed {
            self
        } else {
            QWakableQueueView { is_closed: true, waker: None, ..self }
        }
    }

    /// After `data` was inserted item by item.
    pub open spec fn insert_all(self, data: Seq<T>) -> Self
        decreases data.len(),
    {
        if data.len() == 0 {
            self
        } else {
            self.insert_all(data.drop_last()).insert(data.last())
        }
    }

    /// After `n` polls by the task of `waker`.
    pub open spec fn poll_times(self, waker: Waker, n: nat) -> Self
        decreases n,
    {
        if n == 0 {
            self
        } else {
            self.poll_times(waker, (n - 1) as nat).poll(waker)
        }
    }
}

impl<T> View for QWakableQueue<T> {
    type V = QWakableQueueView<T>;

    closed spec fn view(&self) -> QWakableQueueView<T> {
        QWakableQueueView { data: self.data@, waker: self.waker, is_closed: self.is_closed }
    }
}

impl<T> Default for QWakableQueue<T> {
    fn default() -> (res: Self)
        ensures
            res@ == QWakableQueueView::<T>::init(),
    {
        QWakableQueue { data: VecDeque::new(), waker: None, is_closed: false }
    }
}

impl<T> QWakableQueue<T> {
    /// Inserts `data` and wakes the task whose poll is pending.
    pub fn insert(&mut self, data: T) -> (woken: Woken)
        requires
            !old(self)@.is_closed,
        ensures
            final(self)@ == old(self)@.insert(data),
            woken@ == old(self)@.pending(),
    {
        let mut woken = Woken::none();
        self.data.push_back(data);
        match self.waker.take() {
            Some(w) => woken.wake(w),
            None => {},
        }
        woken
    }

    /// Takes the oldest item. `Ready(None)` means that the queue is closed and holds no more;
    /// a pending poll leaves `waker` registered.
    pub fn poll(&mut self, waker: Waker) -> (res: Poll<Option<T>>)
        requires
            old(self)@.can_poll(),
        ensures
            final(self)@ == old(self)@.poll(waker),
            res == old(self)@.poll_result(),
    {
        match self.data.pop_front() {
            Some(d) => Poll::Ready(Some(d)),
            None => {
                if self.is_closed {
                    Poll::Ready(None)
                } else {
                    self.waker = Some(waker);
                    Poll::Pending
                }
            },
        }
    }

    /// Closes the queue and wakes the task whose poll is pending. What is queued can still be
    /// polled.
    pub fn close(&mut self) -> (woken: Woken)
        ensures
            final(self)@ == old(self)@.close(),
            woken@ == if old(self)@.is_closed {
                Seq::<Waker>::empty()
            } else {
                old(self)@.pending()
            },
    {
        let mut woken = Woken::none();
        if self.is_closed {
            return woken;
        }
        self.is_closed = true;
        match self.waker.take() {
            Some(w) => woken.wake(w),
            None => {},
        }
        woken
    }

    /// Whether the queue is closed, so that nothing can be inserted.
    pub fn is_closed(&self) -> (res: bool)
        ensures
            res == self@.is_closed,
    {
        self.is_closed
    }

    /// Whether the queue can be polled.
    pub fn can_poll(&self) -> (res: bool)
        ensures
            res == self@.can_poll(),
    {
        self.data.len() > 0 || self.is_closed || self.waker.is_none()
    }
}

/// A signal that keeps its value, and that any number of tasks can poll for.
#[verifier::reject_recursive_types(T)]
pub struct QWakableSig<T: Clone> {
    data: Option<T>,
    wakers: VecDeque<Waker>,
    is_closed: bool,
    frontend_pending: bool,
}

/// What a `QWakableSig` holds.
pub struct QWakableSigView<T> {
    pub data: Option<T>,
    /// The tasks whose polls are pending, in the order in which they polled.
    pub wakers: Seq<Waker>,
    pub is_closed: bool,
    /// Whether the action that the signal stands for was begun and has not been answered.
    pub frontend_pending: bool,
}

impl<T> QWakableSigView<T> {
    /// A signal that was not set.
    pub open spec fn init() -> Self {
        QWakableSigView {
            data: None,
            wakers: Seq::empty(),
            is_closed: false,
            frontend_pending: false,
        }
    }

    /// Polls are pending only while there is nothing to give them: no value, and no end.
    pub open spec fn wf(self) -> bool {
        self.wakers.len() > 0 ==> self.data is None && !self.is_closed
    }

    /// After the action was begun.
    pub open spec fn set_frontend_pending(self) -> Self {
        QWakableSigView { frontend_pending: true, ..self }
    }

    /// After a poll by the task of `waker`.
    pub open spec fn poll(self, waker: Waker) -> Self {
        if self.data is None && !self.is_closed {
            QWakableSigView { wakers: self.wakers.push(waker), ..self }
        } else {
            self
        }
    }

    /// Whether the signal can be set: a closed one only if it has a value already.
    pub open spec fn can_set(self) -> bool {
        self.data is Some || !self.is_closed
    }

    /// After the signal was set: the first value stays, answers the action and wakes all.
    pub open spec fn set(self, data: T) -> Self {
        if self.data is Some {
            self
        } else {
            QWakableSigView {
                data: Some(data),
                wakers: Seq::empty(),
                frontend_pending: false,
                ..self
            }
        }
    }

    /// The tasks that setting the signal wakes.
    pub open spec fn set_wakes(self) -> Seq<Waker> {
        if self.data is Some {
            Seq::empty()
        } else {
            self.wakers
        }
    }

    /// Whether the signal can be reset.
    pub open spec fn can_reset(self) -> bool {
        !self.is_closed && self.wakers.len() == 0
    }

    /// After the value and the action were forgotten.
    pub open spec fn reset(self) -> Self {
        QWakableSigView { data: None, frontend_pending: false, ..self }
    }

    /// After the action was begun anew, and the answer of the last one was forgotten.
    pub open spec fn begin(self) -> Self {
        QWakableSigView { data: None, frontend_pending: true, ..self }
    }

    /// After the signal was closed.
    pub open spec fn close(self) -> Self {
        if self.is_closed {
            self
        } else {
            QWakableSigView { is_closed: true, wakers: Seq::empty(), ..self }
        }
    }

    /// The tasks that closing the signal wakes.
    pub open spec fn close_wakes(self) -> Seq<Waker> {
        if self.is_closed {
            Seq::empty()
        } else {
            self.wakers
        }
    }
}

impl<T: Clone> View for QWakableSig<T> {
    type V = QWakableSigView<T>;

    closed spec fn view(&self) -> QWakableSigView<T> {
        QWakableSigView {
            data: self.data,
            wakers: self.wakers@,
            is_closed: self.is_closed,
            frontend_pending: self.frontend_pending,
        }
    }
}

impl<T: Clone> Default for QWakableSig<T> {
    fn default() -> (res: Self)
        ensures
            res@ == QWakableSigView::<T>::init(),
    {
        QWakableSig {
            data: None,
            wakers: VecDeque::new(),
            is_closed: false,
            frontend_pending: false,
        }
    }
}

impl<T: Clone> QWakableSig<T> {
    /// Records that the action was begun, for example that a send was started.
    pub fn set_frontend_pending(&mut self)
        requires
            !old(self)@.frontend_pending,
        ensures
            final(self)@ == old(self)@.set_frontend_pending(),
    {
        self.frontend_pending = true;
    }

    /// Whether the action was begun and has not been answered.
    pub fn is_frontend_pending(&self) -> (res: bool)
        ensures
            res == self@.frontend_pending,
    {
        self.frontend_pending
    }

    /// The value, or `Ready(None)` if the signal was closed without one. A pending poll leaves
    /// `waker` registered beside those of other tasks.
    pub fn poll(&mut self, waker: Waker) -> (res: Poll<Option<T>>)
        ensures
            final(self)@ == old(self)@.poll(waker),
            match old(self)@.data {
                Some(data) => res matches Poll::Ready(Some(copy)) && cloned(data, copy),
                None => if old(self)@.is_closed {
                    res == Poll::Ready(None::<T>)
                } else {
                    res is Pending
                },
            },
    {
        match &self.data {
            Some(data) => Poll::Ready(Some(data.clone())),
            None => {
                if self.is_closed {
                    Poll::Ready(None)
                } else {
                    self.wakers.push_back(waker);
                    Poll::Pending
                }
            },
        }
    }

    /// Wakes all tasks whose polls are pending.
    fn wake_all(&mut self) -> (woken: Woken)
        ensures
            final(self)@ == (QWakableSigView { wakers: Seq::empty(), ..old(self)@ }),
            woken@ == old(self)@.wakers,
    {
        let mut woken = Woken::none();
        let ghost all = self.wakers@;
        loop
            invariant
                woken@ + self.wakers@ == all,
                self@ == (QWakableSigView { wakers: self.wakers@, ..old(self)@ }),
                all == old(self)@.wakers,
            ensures
                self.wakers@.len() == 0,
            decreases self.wakers@.len(),
        {
            match self.wakers.pop_front() {
                Some(w) => woken.wake(w),
                None => break,
            }
        }
        assert(self.wakers@ =~= Seq::empty());
        woken
    }

    /// Gives the signal its value and wakes all tasks whose polls are pending. A signal that
    /// has a value keeps it.
    pub fn set(&mut self, data: T) -> (woken: Woken)
        requires
            old(self)@.can_set(),
        ensures
            final(self)@ == old(self)@.set(data),
            woken@ == old(self)@.set_wakes(),
    {
        if self.data.is_some() {
            return Woken::none();
        }
        self.data = Some(data);
        self.frontend_pending = false;
        self.wake_all()
    }

    /// Forgets the value and the action that was begun: the signal is as new.
    pub fn reset(&mut self)
        requires
            old(self)@.can_reset(),
        ensures
            final(self)@ == old(self)@.reset(),
    {
        self.data = None;
        self.frontend_pending = false;
    }

    /// Records that the action was begun anew, and forgets the answer of the last one.
    pub fn begin(&mut self)
        requires
            !old(self)@.frontend_pending,
        ensures
            final(self)@ == old(self)@.begin(),
    {
        self.data = None;
        self.frontend_pending = true;
    }

    /// Closes the signal and wakes all tasks whose polls are pending.
    pub fn close(&mut self) -> (woken: Woken)
        ensures
            final(self)@ == old(self)@.close(),
            woken@ == old(self)@.close_wakes(),
    {
        if self.is_closed {
            return Woken::none();
        }
        self.is_closed = true;
        self.wake_all()
    }

    /// Whether the signal can be set.
    pub fn can_set(&self) -> (res: bool)
        ensures
            res == self@.can_set(),
    {
        self.data.is_some() || !self.is_closed
    }

    /// Whether the signal can be reset.
    pub fn can_reset(&self) -> (res: bool)
        ensures
            res == self@.can_reset(),
    {
        !self.is_closed && self.wakers.len() == 0
    }
}

} // verus!
