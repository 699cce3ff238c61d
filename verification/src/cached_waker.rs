//! Waking the tasks of a local set: a woken task id goes to the set's local
//! queue when the set is reachable from the waking thread, and over a
//! channel otherwise; the runtime task that polls the set is woken once per
//! poll, however many tasks are woken.
use vstd::prelude::*;
use crate::local_set::LocalSet;
use crate::waker::{wake_by_ref, clone_waker, will_wake, noop};
use std::task::Waker;

verus! {

/// `std::sync::mpsc::Sender`, carried through opaquely.
#[verifier::external_type_specification]
#[verifier::external_body]
#[verifier::reject_recursive_types(T)]
pub struct ExSender<T>(std::sync::mpsc::Sender<T>);

/// Calls `Sender::send`; a send to a closed channel is ignored.  Nothing is
/// claimed: the receiving end lives on another thread.
#[verifier::external_body]
pub(crate) fn foreign_send(tx: &std::sync::mpsc::Sender<usize>, id: usize) {
    let _ = tx.send(id);
}

/// The waking side of a local set.
pub struct CachedWaker {
    foreign_waker: std::sync::mpsc::Sender<usize>,
    waked: bool,
    waker: Waker,
}

impl CachedWaker {
    /// Whether the runtime task was woken since the last `reset`.
    pub closed spec fn waked(&self) -> bool {
        self.waked
    }

    /// The waker of the runtime task that polls the set.
    pub closed spec fn runtime(&self) -> Waker {
        self.waker
    }

    /// The channel over which wakes from other threads are sent.
    pub closed spec fn foreign(&self) -> std::sync::mpsc::Sender<usize> {
        self.foreign_waker
    }

    /// A waker that sends foreign wakes over `foreign`, holding a waker that
    /// does nothing until the first `reset`.
    pub fn new(foreign: std::sync::mpsc::Sender<usize>) -> (c: Self)
        ensures
            !c.waked(),
            c.foreign() == foreign,
    {
        CachedWaker { foreign_waker: foreign, waked: false, waker: clone_waker(noop()) }
    }

    /// Wakes the runtime task, unless it was already woken since the last
    /// `reset`.
    fn wake_runtime(&mut self) -> (woke: bool)
        ensures
            final(self).waked(),
            woke == !old(self).waked(),
            final(self).foreign() == old(self).foreign(),
    {
        if !self.waked {
            self.waked = true;
            wake_by_ref(&self.waker);
            true
        } else {
            false
        }
    }

    /// Wakes task `id`: where its set is reachable (`set` is `Some`: the
    /// waking thread is the set's own and the set is alive) `id` is queued
    /// locally, otherwise it is sent over the channel.  The runtime task is
    /// then woken, unless it was already woken since the last `reset`; the
    /// result tells whether it was woken now.
    pub fn wake_by_id(&mut self, set: Option<&mut LocalSet>, id: usize) -> (woke: bool)
        ensures
            match set {
                Some(s) => {
                    &&& final(s).local() == (*s).local().push(id)
                    &&& final(s).slots() == (*s).slots()
                    &&& final(s).tick() == (*s).tick()
                },
                None => true,
            },
            final(self).waked(),
            woke == !old(self).waked(),
            final(self).foreign() == old(self).foreign(),
    {
        match set {
            Some(set) => {
                set.wake_local(id);
            },
            None => {
                foreign_send(&self.foreign_waker, id);
            },
        }
        self.wake_runtime()
    }

    /// Starts a poll by the runtime task whose waker is `waker`: that waker is
    /// kept (the stored one stays if it wakes the same task), and the next
    /// task wake wakes it again.
    pub fn reset(&mut self, waker: Waker)
        ensures
            !final(self).waked(),
            final(self).foreign() == old(self).foreign(),
            final(self).runtime() == waker || final(self).runtime() == old(self).runtime(),
    {
        let same_task = will_wake(&self.waker, &waker);
        self.store_runtime(waker, same_task);
        self.waked = false;
    }

    /// Keeps the runtime waker given to `reset`, where `same_task` tells
    /// whether the stored one already wakes the same task: then the stored
    /// one stays, otherwise `waker` replaces it.
    pub fn store_runtime(&mut self, waker: Waker, same_task: bool)
        ensures
            final(self).runtime() == (if same_task { old(self).runtime() } else { waker }),
            final(self).waked() == old(self).waked(),
            final(self).foreign() == old(self).foreign(),
    {
        if !same_task {
            self.waker = waker;
        }
    }
}

} // verus!
