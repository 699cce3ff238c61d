use local_async::cached_waker::CachedWaker;
use local_async::join::{JoinHandle, JoinHandleCtx};
use local_async::local_set::{spawn_local, LocalSet, Step, MAX_RUN_PER_POLL};
use local_async::scheduler::Scheduler;
use local_async::Poll;
use std::sync::mpsc;
use std::task::Waker;

#[test]
fn spawned_task_is_polled_then_main() {
    let (_tx, rx) = mpsc::channel();
    let mut set = LocalSet::new(rx);
    let mut run = set.run_until();
    let (_h, ctx) = spawn_local::<i32>(&mut set);
    let id = ctx.task_id();
    run.begin_poll();
    assert!(matches!(run.next_step(&mut set), Step::PollMain));
    assert!(!run.main_polled(&mut set, false));
    match run.next_step(&mut set) {
        Step::PollTask(t) => {
            assert_eq!(t, id);
            run.task_polled(&mut set, t, true);
        }
        _ => panic!("expected the task"),
    }
    assert!(matches!(run.next_step(&mut set), Step::Idle));
}

#[test]
fn stale_ids_are_skipped() {
    let (_tx, rx) = mpsc::channel();
    let mut set = LocalSet::new(rx);
    let mut run = set.run_until();
    set.wake_local(12345);
    run.begin_poll();
    assert!(matches!(run.next_step(&mut set), Step::PollMain));
    assert!(matches!(run.next_step(&mut set), Step::Idle));
    assert!(run.main_polled(&mut set, true));
}

#[test]
fn pending_task_is_parked_again() {
    let (_tx, rx) = mpsc::channel();
    let mut set = LocalSet::new(rx);
    let mut run = set.run_until();
    let (_h, ctx) = spawn_local::<()>(&mut set);
    let id = ctx.task_id();
    run.begin_poll();
    assert!(matches!(run.next_step(&mut set), Step::PollMain));
    match run.next_step(&mut set) {
        Step::PollTask(t) => run.task_polled(&mut set, t, false),
        _ => panic!("expected the task"),
    }
    set.wake_local(id);
    assert!(matches!(run.next_step(&mut set), Step::PollTask(t) if t == id));
}

#[test]
fn poll_yields_after_budget() {
    let (_tx, rx) = mpsc::channel();
    let mut set = LocalSet::new(rx);
    let mut run = set.run_until();
    run.begin_poll();
    assert!(matches!(run.next_step(&mut set), Step::PollMain));
    let mut mains = 1;
    loop {
        set.wake_local(run.main_id());
        match run.next_step(&mut set) {
            Step::PollMain => mains += 1,
            Step::Yield => break,
            Step::Idle => panic!("budget should run out first"),
            Step::PollTask(_) => panic!("no task"),
        }
    }
    assert_eq!(mains, 61);
    assert_eq!(MAX_RUN_PER_POLL, 61);
}

#[test]
fn foreign_wakes_are_served() {
    let (tx, rx) = mpsc::channel();
    let mut set = LocalSet::new(rx);
    let mut run = set.run_until();
    run.begin_poll();
    assert!(matches!(run.next_step(&mut set), Step::PollMain));
    let (_h, ctx) = spawn_local::<()>(&mut set);
    match run.next_step(&mut set) {
        Step::PollTask(t) => run.task_polled(&mut set, t, false),
        _ => panic!("expected the task"),
    }
    tx.send(ctx.task_id()).unwrap();
    assert!(matches!(run.next_step(&mut set), Step::PollTask(t) if t == ctx.task_id()));
}

#[test]
fn scheduler_serves_foreign_first_except_every_31st_tick() {
    let (tx, rx) = mpsc::channel();
    let mut s = Scheduler::new(rx);
    for i in 0..29 {
        s.wake_local(1000 + i);
    }
    for i in 0..40 {
        tx.send(i).unwrap();
    }
    for i in 0..30 {
        assert_eq!(s.fetch(), Some(i));
    }
    assert_eq!(s.fetch(), Some(1000));
    assert_eq!(s.fetch(), Some(30));
}

#[test]
fn scheduler_falls_back_to_other_queue() {
    let (tx, rx) = mpsc::channel();
    let mut s = Scheduler::new(rx);
    s.wake_local(5);
    assert_eq!(s.fetch(), Some(5));
    assert_eq!(s.fetch(), None);
    tx.send(9).unwrap();
    assert_eq!(s.fetch(), Some(9));
}

#[test]
fn join_handle_gets_output_once() {
    let w = Waker::noop();
    let mut ctx = JoinHandleCtx::new(3);
    let mut h = JoinHandle::new();
    assert!(matches!(h.poll(&mut ctx, w.clone()), Poll::Pending));
    ctx.complete(42);
    assert!(matches!(h.poll(&mut ctx, w.clone()), Poll::Ready(42)));
    assert!(matches!(h.poll(&mut ctx, w.clone()), Poll::Pending));
    assert!(!ctx.is_canceled());
    h.release(&mut ctx);
    assert!(ctx.is_canceled());
}

#[test]
fn cancel_returns_finished_output() {
    let mut ctx = JoinHandleCtx::new(0);
    ctx.complete("done");
    let h = JoinHandle::new();
    assert_eq!(h.cancel(&mut ctx), Some("done"));
    assert!(ctx.is_canceled());
}

#[test]
fn cancel_before_completion() {
    let mut ctx: JoinHandleCtx<u8> = JoinHandleCtx::new(0);
    let h = JoinHandle::new();
    assert_eq!(h.cancel(&mut ctx), None);
    assert!(ctx.is_canceled());
}

#[test]
fn detach_leaves_task_alone() {
    let mut ctx: JoinHandleCtx<u8> = JoinHandleCtx::new(0);
    let h = JoinHandle::new();
    h.detach(&mut ctx);
    assert!(!ctx.is_canceled());
}

#[test]
fn cached_waker_routes_wakes() {
    let (tx, rx) = mpsc::channel();
    let mut set = LocalSet::new(rx);
    let mut cw = CachedWaker::new(tx);
    cw.reset(Waker::noop().clone());
    assert!(cw.wake_by_id(Some(&mut set), 4));
    assert!(!cw.wake_by_id(None, 8));
    cw.reset(Waker::noop().clone());
    assert!(cw.wake_by_id(None, 9));
    let mut run = set.run_until();
    run.begin_poll();
    assert!(matches!(run.next_step(&mut set), Step::PollMain));
    assert!(matches!(run.next_step(&mut set), Step::Idle));
}

#[test]
fn spawned_tasks_get_distinct_slots_freed_when_done() {
    let (_tx, rx) = mpsc::channel();
    let mut set = LocalSet::new(rx);
    let mut run = set.run_until();
    let (_a, ca) = spawn_local::<()>(&mut set);
    let (_b, cb) = spawn_local::<()>(&mut set);
    assert_ne!(ca.task_id(), cb.task_id());
    assert_ne!(ca.task_id(), run.main_id());
    assert!(set.has_slot(ca.task_id()) && set.has_slot(cb.task_id()));
    run.begin_poll();
    assert!(matches!(run.next_step(&mut set), Step::PollMain));
    match run.next_step(&mut set) {
        Step::PollTask(t) => {
            assert_eq!(t, ca.task_id());
            run.task_polled(&mut set, t, true);
        }
        _ => panic!("expected the first task"),
    }
    assert!(!set.has_slot(ca.task_id()));
    assert!(set.has_slot(cb.task_id()));
    let main = run.main_id();
    assert!(run.main_polled(&mut set, true));
    assert!(!set.has_slot(main));
}

#[test]
fn task_being_polled_is_not_handed_out_twice() {
    let (_tx, rx) = mpsc::channel();
    let mut set = LocalSet::new(rx);
    let mut run = set.run_until();
    let (_h, ctx) = spawn_local::<()>(&mut set);
    run.begin_poll();
    assert!(matches!(run.next_step(&mut set), Step::PollMain));
    assert!(matches!(run.next_step(&mut set), Step::PollTask(_)));
    set.wake_local(ctx.task_id());
    assert!(matches!(run.next_step(&mut set), Step::Idle));
}

#[test]
fn canceled_task_is_dropped_without_poll() {
    let (_tx, rx) = mpsc::channel();
    let mut set = LocalSet::new(rx);
    let mut run = set.run_until();
    let (h, mut ctx) = spawn_local::<u8>(&mut set);
    h.release(&mut ctx);
    run.begin_poll();
    assert!(matches!(run.next_step(&mut set), Step::PollMain));
    match run.next_step(&mut set) {
        Step::PollTask(t) => {
            assert!(!run.task_taken(&mut set, t, ctx.is_canceled()));
            assert!(!set.has_slot(t));
        }
        _ => panic!("expected the task"),
    }
}

#[test]
fn live_task_is_polled() {
    let (_tx, rx) = mpsc::channel();
    let mut set = LocalSet::new(rx);
    let mut run = set.run_until();
    let (_h, ctx) = spawn_local::<u8>(&mut set);
    run.begin_poll();
    assert!(matches!(run.next_step(&mut set), Step::PollMain));
    match run.next_step(&mut set) {
        Step::PollTask(t) => {
            assert!(run.task_taken(&mut set, t, ctx.is_canceled()));
            assert!(set.has_slot(t));
        }
        _ => panic!("expected the task"),
    }
}

#[test]
fn main_is_not_polled_again_without_a_wake() {
    let (_tx, rx) = mpsc::channel();
    let mut set = LocalSet::new(rx);
    let mut run = set.run_until();
    run.begin_poll();
    assert!(matches!(run.next_step(&mut set), Step::PollMain));
    assert!(!run.main_polled(&mut set, false));
    assert!(matches!(run.next_step(&mut set), Step::Idle));
    run.begin_poll();
    assert!(matches!(run.next_step(&mut set), Step::Idle));
}

#[test]
fn serve_takes_channel_id_before_local() {
    let (_tx, rx) = mpsc::channel::<usize>();
    let mut s = Scheduler::new(rx);
    s.wake_local(1);
    assert_eq!(s.serve(Some(7)), Some(7));
    assert_eq!(s.serve(None), Some(1));
    assert_eq!(s.serve(None), None);
}

#[test]
fn runtime_waker_woken_once_per_reset() {
    struct Count(std::sync::atomic::AtomicUsize);
    impl std::task::Wake for Count {
        fn wake(self: std::sync::Arc<Self>) {
            self.0.fetch_add(1, std::sync::atomic::Ordering::SeqCst);
        }
    }
    let c = std::sync::Arc::new(Count(std::sync::atomic::AtomicUsize::new(0)));
    let w = Waker::from(c.clone());
    let (tx, rx) = mpsc::channel();
    let mut set = LocalSet::new(rx);
    let mut cw = CachedWaker::new(tx);
    cw.reset(w);
    assert!(cw.wake_by_id(Some(&mut set), 1));
    assert!(!cw.wake_by_id(Some(&mut set), 2));
    assert_eq!(c.0.load(std::sync::atomic::Ordering::SeqCst), 1);
    cw.store_runtime(Waker::noop().clone(), false);
    cw.reset(Waker::noop().clone());
    assert!(cw.wake_by_id(None, 3));
    assert_eq!(c.0.load(std::sync::atomic::Ordering::SeqCst), 1);
}
