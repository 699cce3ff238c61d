//! Bookkeeping of a set of tasks run on one thread: which slots hold a task,
//! which task ids are woken, and, while the set runs a main future, the
//! decisions of each poll of that future.
use vstd::prelude::*;
use slab::Slab;
use crate::slab_spec::{task_slots, slots_new, slots_insert, slots_get, slots_set, slots_remove, slots_try_remove};
use crate::scheduler::{Scheduler, tick_after, next_tick, fetch_spec};
use crate::join::{JoinHandle, JoinHandleCtx};
use std::marker::PhantomData;

verus! {

/// Upper bound on the tasks run within one poll of the main future; when it
/// is reached the poll yields (it asks to be polled again at once).
pub const MAX_RUN_PER_POLL: u8 = 61;

/// The tasks of a local set.  A slot holds `true` while its task is parked
/// in it, and `false` while the slot is reserved but empty: for the main
/// future of `run_until`, for a task being polled, or for a task being
/// spawned.
pub struct LocalSet {
    tasks: Slab<bool>,
    scheduler: Scheduler,
    marker: PhantomData<std::rc::Rc<()>>,
}

/// What a poll of the main future does next.
pub enum Step {
    /// Take out the task in this slot, ask `RunUntil::task_taken` whether to
    /// poll it, and if so poll it and report with `RunUntil::task_polled`.
    PollTask(usize),
    /// Poll the main future, then report with `RunUntil::main_polled`.
    PollMain,
    /// The run budget is used up: wake the polling task and return `Pending`.
    Yield,
    /// Nothing is woken: return `Pending`.
    Idle,
}

/// A run of a local set until its main future completes.
pub struct RunUntil {
    id: usize,
    runs: u8,
    last: Option<usize>,
    prior: Ghost<(u8, Seq<usize>)>,
    marker: PhantomData<std::rc::Rc<()>>,
}

/// What a poll does with the id fetched at its `runs`-th fetch (`None` when
/// nothing was woken), in a set whose slots are `slots` and whose main future
/// sits in slot `main`: the step to take (`None` to fetch again) and the slots
/// afterwards.
pub open spec fn dispatch_spec(slots: Map<usize, bool>, main: usize, runs: u8, next: Option<usize>)
    -> (Option<Step>, Map<usize, bool>)
{
    match next {
        None => (Some(if runs == MAX_RUN_PER_POLL { Step::Yield } else { Step::Idle }), slots),
        Some(id) => if slots.contains_key(id) && slots[id] {
            (Some(Step::PollTask(id)), slots.insert(id, false))
        } else if id == main {
            (Some(Step::PollMain), slots)
        } else {
            (None, slots)
        },
    }
}

/// Only woken futures are polled: a task is polled only when its own id was
/// fetched from the wake queues and the task is parked in its slot, and it is
/// then taken out, so that it is not handed out twice; the main future is
/// polled only when its id was fetched; nothing else changes the slots.
pub proof fn law_only_woken_polled(slots: Map<usize, bool>, main: usize, runs: u8, next: Option<usize>)
    ensures
        ({
            let (step, after) = dispatch_spec(slots, main, runs, next);
            &&& (step matches Some(Step::PollTask(id)) ==> next == Some(id) && slots.contains_key(id) && slots[id]
                && after == slots.insert(id, false) && !after[id])
            &&& (step matches Some(Step::PollMain) ==> next == Some(main))
            &&& (!(step matches Some(Step::PollTask(_))) ==> after == slots)
            &&& (step is None ==> next is Some)
        }),
{
}

/// A fetched id that names a parked task is never skipped or deferred: the
/// step is to poll that task, whatever the run count (the fetch that uses up
/// the budget still has its task polled), and the task is taken out of its
/// slot; a fetched id never yields the budget.
pub proof fn law_parked_task_is_polled(slots: Map<usize, bool>, main: usize, runs: u8, id: usize)
    requires
        slots.contains_key(id),
        slots[id],
    ensures
        dispatch_spec(slots, main, runs, Some(id)).0 == Some(Step::PollTask(id)),
        dispatch_spec(slots, main, runs, Some(id)).1 == slots.insert(id, false),
{
}

/// The run budget is given back only when nothing was woken: a fetched id
/// never ends the poll, and a fetch that finds nothing ends it, yielding
/// exactly when the budget is used up.
pub proof fn law_yield_only_on_empty_fetch(slots: Map<usize, bool>, main: usize, runs: u8, next: Option<usize>)
    ensures
        next is Some ==> !(dispatch_spec(slots, main, runs, next).0 matches Some(Step::Yield))
            && !(dispatch_spec(slots, main, runs, next).0 matches Some(Step::Idle)),
        next is None ==> (dispatch_spec(slots, main, runs, next).0 == Some(Step::Yield) <==> runs == MAX_RUN_PER_POLL),
        next is None ==> dispatch_spec(slots, main, runs, next).0 is Some,
{
}

impl LocalSet {
    /// The task slots by key.
    pub closed spec fn slots(&self) -> Map<usize, bool> {
        task_slots(self.tasks)
    }

    /// Task ids woken on this thread, oldest first.
    pub closed spec fn local(&self) -> Seq<usize> {
        self.scheduler.local()
    }

    pub closed spec fn tick(&self) -> u8 {
        self.scheduler.tick()
    }

    /// An empty set, woken from other threads through `foreign`.
    pub fn new(foreign: std::sync::mpsc::Receiver<usize>) -> (s: Self)
        ensures
            s.slots().dom() == Set::<usize>::empty(),
            s.local() == Seq::<usize>::empty(),
            s.tick() == 0,
    {
        LocalSet { tasks: slots_new(), scheduler: Scheduler::new(foreign), marker: PhantomData }
    }

    /// Whether slot `id` is in use.
    pub fn has_slot(&self, id: usize) -> (b: bool)
        ensures
            b == self.slots().contains_key(id),
    {
        slots_get(&self.tasks, id).is_some()
    }

    /// Queues a task woken on this thread.
    pub fn wake_local(&mut self, id: usize)
        ensures
            final(self).local() == old(self).local().push(id),
            final(self).slots() == old(self).slots(),
            final(self).tick() == old(self).tick(),
    {
        self.scheduler.wake_local(id);
    }

    /// Registers a new task: it gets a free slot, is parked there, and is
    /// woken so that it runs soon.  Returns its slot.
    pub fn spawn(&mut self) -> (id: usize)
        ensures
            !old(self).slots().contains_key(id),
            final(self).slots() == old(self).slots().insert(id, true),
            final(self).local() == old(self).local().push(id),
            final(self).tick() == old(self).tick(),
    {
        let id = slots_insert(&mut self.tasks, false);
        self.scheduler.wake_local(id);
        slots_set(&mut self.tasks, id, true);
        proof {
            assert(self.slots() =~= old(self).slots().insert(id, true));
        }
        id
    }

    /// Starts running the main future: it gets a free slot, left empty, and
    /// is woken so that the first poll polls it.
    pub fn run_until(&mut self) -> (r: RunUntil)
        ensures
            !old(self).slots().contains_key(r.id()),
            final(self).slots() == old(self).slots().insert(r.id(), false),
            final(self).local() == old(self).local().push(r.id()),
            final(self).tick() == old(self).tick(),
            r.runs() == 0,
    {
        let id = slots_insert(&mut self.tasks, false);
        self.scheduler.wake_local(id);
        RunUntil { id, runs: 0, last: None, prior: Ghost((0, Seq::empty())), marker: PhantomData }
    }
}

impl RunUntil {
    /// The run budget is never exceeded.
    #[verifier::type_invariant]
    closed spec fn within_budget(&self) -> bool {
        self.runs <= MAX_RUN_PER_POLL
    }

    /// Slot of the main future.
    pub closed spec fn id(&self) -> usize {
        self.id
    }

    /// Slot of the main future.
    pub fn main_id(&self) -> (id: usize)
        ensures
            id == self.id(),
    {
        self.id
    }

    /// Tasks fetched so far in the current poll.
    pub closed spec fn runs(&self) -> u8 {
        self.runs
    }

    /// What the last fetch gave.
    pub closed spec fn last(&self) -> Option<usize> {
        self.last
    }

    /// The tick before the last fetch.
    pub closed spec fn prior_tick(&self) -> u8 {
        self.prior@.0
    }

    /// The local wake queue before the last fetch.
    pub closed spec fn prior_local(&self) -> Seq<usize> {
        self.prior@.1
    }

    /// Starts a poll of the main future with a fresh run budget.
    pub fn begin_poll(&mut self)
        ensures
            final(self).id() == old(self).id(),
            final(self).runs() == 0,
    {
        self.runs = 0;
    }

    /// What to do with the id fetched at the `runs()`-th fetch of this poll
    /// (`None` when nothing was woken).  A parked task is taken out of its
    /// slot to be polled; the main future's id means polling it; any other id
    /// is stale and skipped (the result is `None`, and the poll fetches
    /// again).
    pub fn dispatch(&self, set: &mut LocalSet, next: Option<usize>) -> (r: Option<Step>)
        ensures
            final(set).local() == old(set).local(),
            final(set).tick() == old(set).tick(),
            (r, final(set).slots()) == dispatch_spec(old(set).slots(), self.id(), self.runs(), next),
            match next {
                Some(id) => old(set).slots().contains_key(id) && old(set).slots()[id] ==>
                    r == Some(Step::PollTask(id)) && final(set).slots() == old(set).slots().insert(id, false),
                None => true,
            },
            next is Some ==> !(r matches Some(Step::Yield)) && !(r matches Some(Step::Idle)),
    {
        match next {
            None => {
                if self.runs == MAX_RUN_PER_POLL {
                    Some(Step::Yield)
                } else {
                    Some(Step::Idle)
                }
            },
            Some(id) => {
                match slots_get(&set.tasks, id) {
                    Some(true) => {
                        slots_set(&mut set.tasks, id, false);
                        return Some(Step::PollTask(id));
                    },
                    _ => {},
                }
                if id == self.id {
                    Some(Step::PollMain)
                } else {
                    None
                }
            },
        }
    }

    /// The next step of the current poll: fetches woken ids, within the run
    /// budget, until one calls for polling a task or the main future.
    pub fn next_step(&mut self, set: &mut LocalSet) -> (r: Step)
        ensures
            final(self).id() == old(self).id(),
            old(self).runs() <= final(self).runs() <= MAX_RUN_PER_POLL,
            !(r is Yield) ==> final(self).runs() > old(self).runs(),
            r is Yield ==> final(self).runs() == MAX_RUN_PER_POLL && final(set).slots() == old(set).slots(),
            !(r is Yield) ==> (Some(r), final(set).slots())
                == dispatch_spec(old(set).slots(), old(self).id(), final(self).runs(), final(self).last()),
            final(self).runs() > old(self).runs() ==> {
                &&& fetch_spec(final(self).prior_tick(), final(self).prior_local(), final(self).last(), final(set).local())
                &&& final(set).tick() == next_tick(final(self).prior_tick())
                &&& exists|d: int| 0 <= d <= old(set).local().len()
                    && #[trigger] old(set).local().skip(d) == final(self).prior_local()
            },
            r is Idle ==> final(set).local().len() == 0,
            final(self).runs() > old(self).runs() ==> match final(self).last() {
                Some(id) => old(set).slots().contains_key(id) && old(set).slots()[id] ==> r == Step::PollTask(id),
                None => true,
            },
            final(set).tick() == tick_after(old(set).tick(), (final(self).runs() - old(self).runs()) as nat),
            exists|d: int| 0 <= d <= old(set).local().len() && #[trigger] old(set).local().skip(d) == final(set).local(),
    {
        proof { use_type_invariant(&*self); }
        let ghost mut d: int = 0;
        let ghost mut dp: int = 0;
        assert(old(set).local().skip(0) == old(set).local());
        while self.runs < MAX_RUN_PER_POLL
            invariant
                self.id == old(self).id,
                old(self).runs <= self.runs <= MAX_RUN_PER_POLL,
                set.slots() == old(set).slots(),
                0 <= d <= old(set).local().len(),
                set.local() == old(set).local().skip(d),
                set.tick() == tick_after(old(set).tick(), (self.runs - old(self).runs) as nat),
                self.runs > old(self).runs ==> match self.last {
                    Some(id) => !(old(set).slots().contains_key(id) && old(set).slots()[id]),
                    None => true,
                },
                self.runs > old(self).runs ==> {
                    &&& fetch_spec(self.prior@.0, self.prior@.1, self.last, set.local())
                    &&& set.tick() == next_tick(self.prior@.0)
                    &&& 0 <= dp <= old(set).local().len()
                    &&& old(set).local().skip(dp) == self.prior@.1
                },
            decreases MAX_RUN_PER_POLL - self.runs,
        {
            let ghost before = set.local();
            proof {
                self.prior = Ghost((set.tick(), set.local()));
                dp = d;
            }
            self.runs = self.runs + 1;
            let next = set.scheduler.fetch();
            self.last = next;
            proof {
                if set.local() != before {
                    assert(set.local() =~= old(set).local().skip(d + 1));
                    d = d + 1;
                }
            }
            match self.dispatch(set, next) {
                Some(step) => return step,
                None => {},
            }
        }
        Step::Yield
    }

    /// Decides on the task just taken out of slot `id`: a task whose handle
    /// gave up on it (`canceled`) gives up its slot without being polled;
    /// any other task is to be polled (`true`), and then reported with
    /// `task_polled`.
    pub fn task_taken(&self, set: &mut LocalSet, id: usize, canceled: bool) -> (poll: bool)
        requires
            old(set).slots().contains_key(id),
        ensures
            poll == !canceled,
            final(set).local() == old(set).local(),
            final(set).tick() == old(set).tick(),
            final(set).slots() == (if canceled { old(set).slots().remove(id) } else { old(set).slots() }),
    {
        if canceled {
            let _ = slots_remove(&mut set.tasks, id);
            false
        } else {
            true
        }
    }

    /// Reports the poll of the task taken from slot `id`: a task that is still
    /// pending is parked again; one that finished gives up its slot.
    pub fn task_polled(&self, set: &mut LocalSet, id: usize, finished: bool)
        requires
            old(set).slots().contains_key(id),
        ensures
            final(set).local() == old(set).local(),
            final(set).tick() == old(set).tick(),
            final(set).slots() == (if finished { old(set).slots().remove(id) } else { old(set).slots().insert(id, true) }),
    {
        if finished {
            let _ = slots_remove(&mut set.tasks, id);
        } else {
            slots_set(&mut set.tasks, id, true);
        }
    }

    /// Reports a poll of the main future; when it is ready its slot is freed
    /// and the run ends (`true`).
    pub fn main_polled(&self, set: &mut LocalSet, ready: bool) -> (done: bool)
        ensures
            done == ready,
            final(set).local() == old(set).local(),
            final(set).tick() == old(set).tick(),
            final(set).slots() == (if ready { old(set).slots().remove(self.id()) } else { old(set).slots() }),
    {
        if ready {
            let _ = slots_try_remove(&mut set.tasks, self.id);
            true
        } else {
            false
        }
    }
}

/// Spawns a task onto `set`: it gets a free slot, parked and woken, and the
/// returned handle and shared state are tied to that slot.  The task itself
/// (its future) is stored by the caller under the slot.
pub fn spawn_local<T>(set: &mut LocalSet) -> (r: (JoinHandle<T>, JoinHandleCtx<T>))
    ensures
        !old(set).slots().contains_key(r.1.id()),
        final(set).slots() == old(set).slots().insert(r.1.id(), true),
        final(set).local() == old(set).local().push(r.1.id()),
        final(set).tick() == old(set).tick(),
        !r.0.detached(),
        r.1.output() is None,
        !r.1.has_waker(),
        !r.1.canceled(),
{
    let id = set.spawn();
    (JoinHandle::new(), JoinHandleCtx::new(id))
}

} // verus!
