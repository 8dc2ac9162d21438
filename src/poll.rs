use vstd::prelude::*;

verus! {

/// Outcome of polling: a value now, or a promise to wake the caller later.
#[derive(Clone, Copy, Debug, PartialEq, Eq)]
pub enum Poll<T> {
    Ready(T),
    Pending,
}

impl<T> Poll<T> {
    pub fn is_pending(&self) -> (r: bool)
        ensures
            r == (self is Pending),
    {
        match self {
            Poll::Pending => true,
            Poll::Ready(_) => false,
        }
    }
}

} // verus!
