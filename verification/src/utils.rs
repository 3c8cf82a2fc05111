//! A box around a value of the transport.
use vstd::prelude::*;

verus! {

/// A value that is handed between the threads of the transport and of its users.
pub struct SBox<T> {
    pub inner: T,
}

impl<T> SBox<T> {
    pub fn new(inner: T) -> (res: Self)
        ensures
            res.inner == inner,
    {
        SBox { inner }
    }

    pub fn get_ref(&self) -> (res: &T)
        ensures
            *res == self.inner,
    {
        &self.inner
    }

    /// The text that stands for the box in logs, whatever is inside.
    pub fn debug_text(&self) -> (res: &'static str)
        ensures
            res@ == "SBox { inner: \"not displayed\" }"@,
    {
        "SBox { inner: \"not displayed\" }"
    }
}

impl<T> From<T> for SBox<T> {
    fn from(value: T) -> (res: Self) {
        SBox::new(value)
    }
}

impl<T> vstd::std_specs::convert::FromSpecImpl<T> for SBox<T> {
    open spec fn obeys_from_spec() -> bool {
        true
    }

    open spec fn from_spec(value: T) -> Self {
        SBox { inner: value }
    }
}

} // verus!
