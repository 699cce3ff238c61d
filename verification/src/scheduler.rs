//! Choice of the next task to run: tasks woken on this thread wait in a local
//! queue, tasks woken from other threads arrive on a channel, and both
//! sources are served, the channel first except on every 31st tick.
use vstd::prelude::*;
use std::collections::VecDeque;


verus! {

/// `std::sync::mpsc::Receiver`, carried through opaquely.
#[verifier::external_type_specification]
#[verifier::external_body]
#[verifier::reject_recursive_types(T)]
pub struct ExReceiver<T>(std::sync::mpsc::Receiver<T>);

/// Calls `Receiver::try_recv` and keeps the value, if one was waiting.  What
/// arrives depends on other threads; nothing is claimed of it.
#[verifier::external_body]
pub(crate) fn foreign_try_recv(rx: &std::sync::mpsc::Receiver<usize>) -> (r: Option<usize>) {
    rx.try_recv().ok()
}

/// Every this many ticks the local queue is served before the channel.
pub const FOREIGN_QUEUE_INTERVAL: u8 = 31;

/// The tick after `t`, wrapping around.
pub open spec fn next_tick(t: u8) -> u8 {
    ((t + 1) % 256) as u8
}

/// Whether the tick after `t` serves the local queue first.
pub open spec fn local_turn(t: u8) -> bool {
    next_tick(t) % FOREIGN_QUEUE_INTERVAL == 0
}

pub struct Scheduler {
    task_queue: VecDeque<usize>,
    task_queue_foreign: std::sync::mpsc::Receiver<usize>,
    tick: u8,
}

impl Scheduler {
    /// Task ids woken on this thread, oldest first.
    pub closed spec fn local(&self) -> Seq<usize> {
        self.task_queue@
    }

    pub closed spec fn tick(&self) -> u8 {
        self.tick
    }

    /// A scheduler with an empty local queue, fed from other threads by
    /// `foreign`.
    pub fn new(foreign: std::sync::mpsc::Receiver<usize>) -> (s: Self)
        ensures
            s.local() == Seq::<usize>::empty(),
            s.tick() == 0,
    {
        Scheduler { task_queue: VecDeque::new(), task_queue_foreign: foreign, tick: 0 }
    }

    /// Queues a task woken on this thread.
    pub fn wake_local(&mut self, id: usize)
        ensures
            final(self).local() == old(self).local().push(id),
            final(self).tick() == old(self).tick(),
    {
        self.task_queue.push_back(id);
    }

    /// Serves a foreign-first turn, given what the channel delivered: an id
    /// from the channel is taken as it is; when the channel had nothing, the
    /// local queue's oldest id is taken, if any.
    pub fn serve(&mut self, foreign: Option<usize>) -> (r: Option<usize>)
        ensures
            (r, final(self).local()) == serve_spec(old(self).local(), foreign),
            final(self).tick() == old(self).tick(),
    {
        match foreign {
            Some(id) => Some(id),
            None => self.task_queue.pop_front(),
        }
    }

    /// Next task id to run, if any.  The tick advances; on a local turn the
    /// local queue is served first and the channel only when it is empty;
    /// otherwise the channel is served first and the local queue only when
    /// the channel had nothing (see `serve`).
    pub fn fetch(&mut self) -> (r: Option<usize>)
        ensures
            final(self).tick() == next_tick(old(self).tick()),
            fetch_spec(old(self).tick(), old(self).local(), r, final(self).local()),
            r is None ==> old(self).local().len() == 0 && final(self).local() == old(self).local(),
            final(self).local() == old(self).local() || (old(self).local().len() > 0
                && r == Some(old(self).local()[0]) && final(self).local() == old(self).local().drop_first()),
    {
        self.tick = self.tick.wrapping_add(1);
        if self.tick % FOREIGN_QUEUE_INTERVAL == 0 {
            match self.task_queue.pop_front() {
                Some(id) => Some(id),
                None => foreign_try_recv(&self.task_queue_foreign),
            }
        } else {
            let foreign = foreign_try_recv(&self.task_queue_foreign);
            self.serve(foreign)
        }
    }
}

/// A foreign-first turn with local queue `local`, when the channel delivered
/// `foreign`: the id served and the local queue afterwards.
pub open spec fn serve_spec(local: Seq<usize>, foreign: Option<usize>) -> (Option<usize>, Seq<usize>) {
    match foreign {
        Some(id) => (Some(id), local),
        None => if local.len() > 0 {
            (Some(local[0]), local.drop_first())
        } else {
            (None, local)
        },
    }
}

/// `r` and `local2` are what a fetch at tick `tick` on local queue `local`
/// gives: on a local turn the local queue's oldest id if there is one (the
/// channel's delivery otherwise); on any other turn what `serve` gives for
/// the channel's delivery, whatever that was.
pub open spec fn fetch_spec(tick: u8, local: Seq<usize>, r: Option<usize>, local2: Seq<usize>) -> bool {
    if local_turn(tick) {
        if local.len() > 0 {
            r == Some(local[0]) && local2 == local.drop_first()
        } else {
            local2 == local
        }
    } else {
        (r is Some && local2 == local) || (r, local2) == serve_spec(local, None)
    }
}

/// The tick `i` fetches after `t`.
pub open spec fn tick_after(t: u8, i: nat) -> u8 {
    ((t + i) % 256) as u8
}

/// The local queue is never passed over for long: of any 31 consecutive
/// fetches, at least one serves the local queue first.
pub proof fn law_local_turn_within_interval(t: u8)
    ensures
        exists|i: nat| i < FOREIGN_QUEUE_INTERVAL && #[trigger] local_turn(tick_after(t, i)),
{
    if t >= 248 {
        let i: nat = (255 - t) as nat;
        assert(tick_after(t, i) == 255u8);
        assert(next_tick(255u8) == 0u8);
        assert(local_turn(tick_after(t, i)));
    } else {
        let r: nat = ((t + 1) % 31) as nat;
        let i: nat = if r == 0 { 0 } else { (31 - r) as nat };
        assert(t + 1 + i <= 255);
        assert((t + 1 + i) % 31 == 0);
        assert(tick_after(t, i) == (t + i) as u8);
        assert(next_tick(tick_after(t, i)) == (t + 1 + i) as u8);
        assert(local_turn(tick_after(t, i)));
    }
}

} // verus!
