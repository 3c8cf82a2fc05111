//! Wakers of polling tasks, and the record of those that were woken.
use std::task::{Poll, Waker};

use vstd::prelude::*;

verus! {

/// `std::task::Waker`, carried as an opaque value.
#[verifier::external_type_specification]
#[verifier::external_body]
pub struct ExWaker(Waker);

/// `std::task::Poll`, with its two variants.
#[verifier::external_type_specification]
pub struct ExPoll<T>(Poll<T>);

/// The wakers that a call has woken, in the order in which it woke them.
///
/// The only way to add a waker is to wake it, so a function that returns such a record says in
/// its contract which tasks it has scheduled.
pub struct Woken {
    wakers: Ghost<Seq<Waker>>,
}

impl View for Woken {
    type V = Seq<Waker>;

    closed spec fn view(&self) -> Seq<Waker> {
        self.wakers@
    }
}

impl Woken {
    /// A record of no wake-up.
    pub fn none() -> (res: Self)
        ensures
            res@ == Seq::<Waker>::empty(),
    {
        Woken { wakers: Ghost(Seq::empty()) }
    }

    /// Calls `Waker::wake` on `waker`, which schedules the task that it belongs to, and records
    /// that this was done. What the executor then does with the task is not stated.
    #[verifier::external_body]
    pub(crate) fn wake(&mut self, waker: Waker)
        ensures
            final(self)@ == old(self)@.push(waker),
    {
        waker.wake()
    }
}

} // verus!
