use local_async::channel::{bounded, Error, TryRecvError, TrySendError};
use local_async::Poll;
use std::cell::RefCell;
use std::collections::BTreeSet;
use std::rc::Rc;
use std::task::Waker;

#[test]
fn try_send_tests() {
    let (tx, rx, mut ch) = bounded(100);
    for i in 0..100 {
        tx.try_send(&mut ch, i).unwrap();
        assert_eq!(rx.try_recv(&mut ch).unwrap(), i);
    }
    tx.try_send(&mut ch, 10).unwrap();
    tx.try_send(&mut ch, 12).unwrap();
    tx.try_send(&mut ch, 11).unwrap();
    rx.release(&mut ch);
    assert_eq!(tx.try_send(&mut ch, 10), Err(TrySendError::Disconnected));
    tx.release(&mut ch);
}

struct Foo(i32, Rc<RefCell<BTreeSet<i32>>>);
impl Drop for Foo {
    fn drop(&mut self) {
        self.1.borrow_mut().insert(self.0);
    }
}

#[test]
fn test_leak() {
    let (tx, rx, mut ch) = bounded(100);
    let trash_bin = Rc::new(RefCell::new(BTreeSet::new()));

    for i in 0..10 {
        tx.try_send(&mut ch, Foo(i, trash_bin.clone())).unwrap();
    }

    let black_hole = Rc::new(RefCell::new(BTreeSet::new()));
    for _ in 0..5 {
        rx.try_recv(&mut ch).ok().unwrap().1 = black_hole.clone();
    }

    tx.release(&mut ch);
    rx.release(&mut ch);

    assert_eq!(&*trash_bin.borrow_mut(), &(5..10).collect());
}

#[test]
fn full_queue_refuses() {
    let (tx, rx, mut ch) = bounded(2);
    assert_eq!(tx.try_send(&mut ch, 1), Ok(()));
    assert_eq!(tx.try_send(&mut ch, 2), Ok(()));
    assert_eq!(tx.try_send(&mut ch, 3), Err(TrySendError::Full));
    assert_eq!(rx.try_recv(&mut ch).ok(), Some(1));
    assert_eq!(tx.try_send(&mut ch, 3), Ok(()));
    assert_eq!(rx.try_recv(&mut ch).ok(), Some(2));
    assert_eq!(rx.try_recv(&mut ch).ok(), Some(3));
    assert!(matches!(rx.try_recv(&mut ch), Err(TryRecvError::Empty)));
}

#[test]
fn ring_wraps_around_in_order() {
    let (tx, rx, mut ch) = bounded(3);
    let mut next_in = 0;
    let mut next_out = 0;
    for round in 0..20 {
        let k = round % 3 + 1;
        for _ in 0..k {
            if tx.try_send(&mut ch, next_in).is_ok() {
                next_in += 1;
            }
        }
        for _ in 0..k {
            if let Ok(v) = rx.try_recv(&mut ch) {
                assert_eq!(v, next_out);
                next_out += 1;
            }
        }
    }
    assert!(next_out > 10);
}

#[test]
fn try_recv_after_sender_gone_reports_disconnected() {
    let (tx, rx, mut ch) = bounded(4);
    tx.try_send(&mut ch, 7).unwrap();
    tx.release(&mut ch);
    assert!(matches!(rx.try_recv(&mut ch), Err(TryRecvError::Disconnected)));
}

#[test]
fn recv_drains_then_fails_after_sender_gone() {
    let (tx, rx, mut ch) = bounded(4);
    let w = Waker::noop();
    tx.try_send(&mut ch, 7).unwrap();
    tx.release(&mut ch);
    let mut r = rx.recv();
    assert!(matches!(r.poll(&mut ch, w.clone()), Poll::Ready(Ok(7))));
    assert!(matches!(r.poll(&mut ch, w.clone()), Poll::Ready(Err(Error::Disconnected))));
}

#[test]
fn waiting_receiver_is_woken_by_send() {
    let (tx, rx, mut ch) = bounded::<u32>(1);
    let w = Waker::noop();
    let mut r = rx.recv();
    assert!(matches!(r.poll(&mut ch, w.clone()), Poll::Pending));
    tx.try_send(&mut ch, 5).unwrap();
    assert!(matches!(r.poll(&mut ch, w.clone()), Poll::Ready(Ok(5))));
    r.release(&mut ch);
}

#[test]
fn waiting_sender_gets_room() {
    let (tx, rx, mut ch) = bounded::<u32>(1);
    let w = Waker::noop();
    tx.try_send(&mut ch, 1).unwrap();
    let mut s = tx.send(2);
    assert!(matches!(s.poll(&mut ch, w.clone()), Poll::Pending));
    assert_eq!(rx.try_recv(&mut ch).ok(), Some(1));
    assert!(matches!(s.poll(&mut ch, w.clone()), Poll::Ready(Ok(()))));
    assert_eq!(rx.try_recv(&mut ch).ok(), Some(2));
    s.release(&mut ch);
}

#[test]
fn test_drop_notify_sync() {
    let (tx, rx, mut ch) = bounded::<()>(100);
    let w = Waker::noop();
    let mut r = rx.recv();
    assert!(matches!(r.poll(&mut ch, w.clone()), Poll::Pending));
    tx.release(&mut ch);
    assert!(matches!(r.poll(&mut ch, w.clone()), Poll::Ready(Err(Error::Disconnected))));
}

#[test]
fn send_fails_when_receiver_gone_and_full() {
    let (tx, rx, mut ch) = bounded::<u32>(1);
    let w = Waker::noop();
    tx.try_send(&mut ch, 1).unwrap();
    rx.release(&mut ch);
    let mut s = tx.send(2);
    assert!(matches!(s.poll(&mut ch, w.clone()), Poll::Ready(Err(Error::Disconnected))));
}

#[test]
fn zero_capacity_never_receives() {
    let (tx, rx, mut ch) = bounded::<u32>(0);
    let w = Waker::noop();
    let mut r = rx.recv();
    assert!(matches!(r.poll(&mut ch, w.clone()), Poll::Pending));
    rx.try_recv(&mut ch).unwrap_err();
    r.release(&mut ch);
    rx.release(&mut ch);
    assert_eq!(tx.try_send(&mut ch, 1), Err(TrySendError::Disconnected));
}
