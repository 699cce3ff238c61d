//! Single-threaded async building blocks: a bounded channel over a ring
//! buffer, an event/listener notification list, and the bookkeeping of a
//! local task set.
use vstd::prelude::*;

pub mod ring;
pub mod waker;
pub mod event;
pub mod counter;
pub mod channel;
pub mod slab_spec;
pub mod scheduler;
pub mod local_set;
pub mod join;
pub mod shared_rc;
pub mod cached_waker;
pub mod local_cell;

verus! {

/// Outcome of one poll step: finished with a value, or not yet.
pub enum Poll<T> {
    Ready(T),
    Pending,
}

impl<T> Poll<T> {
    pub fn is_ready(&self) -> (b: bool)
        ensures
            b <==> self is Ready,
    {
        match self {
            Poll::Ready(_) => true,
            Poll::Pending => false,
        }
    }

    pub fn is_pending(&self) -> (b: bool)
        ensures
            b <==> self is Pending,
    {
        match self {
            Poll::Ready(_) => false,
            Poll::Pending => true,
        }
    }
}

} // verus!
