//! Handing a task's output to whoever joins it: the state the task and its
//! `JoinHandle` share, and what each side does to it.
use vstd::prelude::*;
use crate::Poll;
use crate::waker::wake;
use std::task::Waker;
use std::marker::PhantomData;

verus! {

/// State shared by a task and its handle: the output once the task is done,
/// the waker of a task waiting to join, the task's slot, and whether the
/// handle gave up on the task.
pub struct JoinHandleCtx<T> {
    output: Option<T>,
    waker: Option<Waker>,
    id: usize,
    canceled: bool,
}

/// The right to join a spawned task.
pub struct JoinHandle<T> {
    detached: bool,
    marker: PhantomData<std::rc::Rc<T>>,
}

impl<T> JoinHandleCtx<T> {
    pub closed spec fn output(&self) -> Option<T> {
        self.output
    }

    /// Whether a joining task's waker is stored.
    pub closed spec fn has_waker(&self) -> bool {
        self.waker is Some
    }

    /// The waker of the task waiting to join, if one is stored.
    pub closed spec fn joiner(&self) -> Option<Waker> {
        self.waker
    }

    pub closed spec fn id(&self) -> usize {
        self.id
    }

    pub closed spec fn canceled(&self) -> bool {
        self.canceled
    }

    /// The state of a task just spawned into slot `id`.
    pub fn new(id: usize) -> (c: Self)
        ensures
            c.output() is None,
            !c.has_waker(),
            c.id() == id,
            !c.canceled(),
    {
        JoinHandleCtx { output: None, waker: None, id, canceled: false }
    }

    /// Slot of the task.
    pub fn task_id(&self) -> (id: usize)
        ensures
            id == self.id(),
    {
        self.id
    }

    /// Whether the handle gave up on the task (a canceled task is not polled
    /// again).
    pub fn is_canceled(&self) -> (b: bool)
        ensures
            b == self.canceled(),
    {
        self.canceled
    }

    /// The task finished with `v`: the output is stored and a waiting joiner
    /// is woken.
    pub fn complete(&mut self, v: T)
        ensures
            final(self).output() == Some(v),
            !final(self).has_waker(),
            final(self).id() == old(self).id(),
            final(self).canceled() == old(self).canceled(),
    {
        self.output = Some(v);
        match self.waker.take() {
            Some(w) => wake(w),
            None => {},
        }
    }
}

impl<T> JoinHandle<T> {
    pub closed spec fn detached(&self) -> bool {
        self.detached
    }

    /// A handle that has not been detached.
    pub fn new() -> (h: Self)
        ensures
            !h.detached(),
    {
        JoinHandle { detached: false, marker: PhantomData }
    }

    /// Takes the output if the task is done; otherwise stores the waker of the
    /// joining task, to be woken when the task completes.
    pub fn poll(&mut self, ctx: &mut JoinHandleCtx<T>, waker: Waker) -> (r: Poll<T>)
        ensures
            final(self).detached() == old(self).detached(),
            final(ctx).output() is None,
            final(ctx).id() == old(ctx).id(),
            final(ctx).canceled() == old(ctx).canceled(),
            match old(ctx).output() {
                Some(v) => r == Poll::Ready(v) && final(ctx).joiner() == old(ctx).joiner(),
                None => r is Pending && final(ctx).joiner() == Some(waker),
            },
    {
        match self.output_take(ctx) {
            Some(v) => Poll::Ready(v),
            None => {
                ctx.waker = Some(waker);
                Poll::Pending
            },
        }
    }

    fn output_take(&self, ctx: &mut JoinHandleCtx<T>) -> (r: Option<T>)
        ensures
            r == old(ctx).output(),
            final(ctx).output() is None,
            final(ctx).joiner() == old(ctx).joiner(),
            final(ctx).id() == old(ctx).id(),
            final(ctx).canceled() == old(ctx).canceled(),
    {
        ctx.output.take()
    }

    /// Lets the task run on unjoined: the handle goes away and leaves the
    /// task alone.
    pub fn detach(self, ctx: &mut JoinHandleCtx<T>)
        ensures
            *final(ctx) == *old(ctx),
    {
        let mut h = self;
        h.detached = true;
        h.release(ctx);
    }

    /// Gives up on the task: returns its output if it is already done;
    /// otherwise the task will not be polled again.
    pub fn cancel(self, ctx: &mut JoinHandleCtx<T>) -> (r: Option<T>)
        ensures
            r == old(ctx).output(),
            final(ctx).output() is None,
            final(ctx).id() == old(ctx).id(),
            !self.detached() ==> final(ctx).canceled() && !final(ctx).has_waker(),
            self.detached() ==> final(ctx).canceled() == old(ctx).canceled()
                && final(ctx).has_waker() == old(ctx).has_waker(),
    {
        let r = self.output_take(ctx);
        self.release(ctx);
        r
    }

    /// Drops the handle: unless it was detached, a stored joiner waker is
    /// woken and the task is marked canceled.
    pub fn release(self, ctx: &mut JoinHandleCtx<T>)
        ensures
            final(ctx).output() == old(ctx).output(),
            final(ctx).id() == old(ctx).id(),
            !self.detached() ==> final(ctx).canceled() && !final(ctx).has_waker(),
            self.detached() ==> *final(ctx) == *old(ctx),
    {
        if !self.detached {
            match ctx.waker.take() {
                Some(w) => wake(w),
                None => {},
            }
            ctx.canceled = true;
        }
    }
}

} // verus!
