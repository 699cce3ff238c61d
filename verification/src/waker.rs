//! The task waker of the standard library, as the logic sees it: an opaque
//! value that can be cloned, compared for "wakes the same task", and woken.
use vstd::prelude::*;

verus! {

/// `std::task::Waker`, carried through opaquely.
#[verifier::external_type_specification]
#[verifier::external_body]
pub struct ExWaker(std::task::Waker);

/// Calls `Waker::wake`, which consumes the waker and schedules its task.
/// Nothing about the result is claimed: waking is an effect on the runtime.
#[verifier::external_body]
pub(crate) fn wake(w: std::task::Waker) {
    w.wake()
}

/// Calls `Waker::wake_by_ref`, which schedules the waker's task and keeps the
/// waker.  Nothing is claimed.
#[verifier::external_body]
pub(crate) fn wake_by_ref(w: &std::task::Waker) {
    w.wake_by_ref()
}

/// Calls `<Waker as Clone>::clone`.  Nothing is claimed of the copy beyond its
/// type: whether two wakers wake the same task is not visible to the logic.
#[verifier::external_body]
pub(crate) fn clone_waker(w: &std::task::Waker) -> (r: std::task::Waker) {
    w.clone()
}

/// Calls `Waker::will_wake`.  The answer compares the wakers' data pointers and
/// vtables, so it depends on addresses; nothing is claimed of it.
#[verifier::external_body]
pub(crate) fn will_wake(w: &std::task::Waker, other: &std::task::Waker) -> (r: bool) {
    w.will_wake(other)
}

/// Calls `Waker::noop`: a waker that does nothing when woken.  Nothing is
/// claimed.
#[verifier::external_body]
pub(crate) fn noop() -> (w: &'static std::task::Waker) {
    std::task::Waker::noop()
}

} // verus!
