use local_async::channel::bounded;
use local_async::event::Event;
use local_async::join::{JoinHandle, JoinHandleCtx};
use local_async::Poll;
use std::sync::atomic::{AtomicUsize, Ordering};
use std::sync::Arc;
use std::task::{Wake, Waker};

struct Count(AtomicUsize);

impl Wake for Count {
    fn wake(self: Arc<Self>) {
        self.0.fetch_add(1, Ordering::SeqCst);
    }
}

fn counting() -> (Arc<Count>, Waker) {
    let c = Arc::new(Count(AtomicUsize::new(0)));
    (c.clone(), Waker::from(c))
}

fn hits(c: &Arc<Count>) -> usize {
    c.0.load(Ordering::SeqCst)
}

#[test]
fn notify_wakes_the_latest_polling_waker() {
    let (c1, w1) = counting();
    let (c2, w2) = counting();
    let mut e = Event::new();
    let mut l = e.listen();
    assert!(matches!(l.poll(&mut e, w1), Poll::Pending));
    assert!(matches!(l.poll(&mut e, w2), Poll::Pending));
    e.notify(1);
    assert_eq!(hits(&c1), 0);
    assert_eq!(hits(&c2), 1);
    assert!(matches!(l.poll(&mut e, Waker::noop().clone()), Poll::Ready(())));
}

#[test]
fn receive_wakes_waiting_send() {
    let (c, w) = counting();
    let (tx, rx, mut ch) = bounded::<i32>(1);
    tx.try_send(&mut ch, 1).unwrap();
    let mut s = tx.send(2);
    assert!(matches!(s.poll(&mut ch, w), Poll::Pending));
    assert_eq!(rx.try_recv(&mut ch).ok(), Some(1));
    assert_eq!(hits(&c), 1);
    assert!(matches!(s.poll(&mut ch, Waker::noop().clone()), Poll::Ready(Ok(()))));
    assert_eq!(rx.try_recv(&mut ch).ok(), Some(2));
}

#[test]
fn sender_release_wakes_waiting_receive() {
    let (c, w) = counting();
    let (tx, rx, mut ch) = bounded::<()>(100);
    let mut r = rx.recv();
    assert!(matches!(r.poll(&mut ch, w), Poll::Pending));
    tx.release(&mut ch);
    assert_eq!(hits(&c), 1);
}

#[test]
fn completion_wakes_joiner() {
    let (c, w) = counting();
    let mut ctx = JoinHandleCtx::new(1);
    let mut h = JoinHandle::new();
    assert!(matches!(h.poll(&mut ctx, w), Poll::Pending));
    ctx.complete(5u8);
    assert_eq!(hits(&c), 1);
    assert!(matches!(h.poll(&mut ctx, Waker::noop().clone()), Poll::Ready(5)));
}
