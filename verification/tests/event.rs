use local_async::event::Event;
use local_async::Poll;
use std::task::Waker;

fn ready(p: Poll<()>) -> bool {
    matches!(p, Poll::Ready(()))
}

#[test]
fn notify_reaches_oldest_listeners() {
    let w = Waker::noop();
    let mut e = Event::new();
    let mut a = e.listen();
    let mut b = e.listen();
    let mut c = e.listen();
    e.notify(2);
    assert!(ready(a.poll(&mut e, w.clone())));
    assert!(ready(b.poll(&mut e, w.clone())));
    assert!(!ready(c.poll(&mut e, w.clone())));
    assert!(a.is_done() && b.is_done() && !c.is_done());
    c.release(&mut e);
}

#[test]
fn notify_is_not_additive() {
    let w = Waker::noop();
    let mut e = Event::new();
    let mut a = e.listen();
    let mut b = e.listen();
    e.notify(1);
    e.notify(1);
    assert!(ready(a.poll(&mut e, w.clone())));
    assert!(!ready(b.poll(&mut e, w.clone())));
    b.release(&mut e);
}

#[test]
fn notify_additional_adds_when_below() {
    let w = Waker::noop();
    let mut e = Event::new();
    let mut a = e.listen();
    let mut b = e.listen();
    let mut c = e.listen();
    e.notify(1);
    e.notify_additional(2);
    assert!(ready(a.poll(&mut e, w.clone())));
    assert!(ready(b.poll(&mut e, w.clone())));
    assert!(ready(c.poll(&mut e, w.clone())));
}

#[test]
fn notify_additional_adds_beyond_notified() {
    let w = Waker::noop();
    let mut e = Event::default();
    let mut l1 = e.listen();
    let mut l2 = e.listen();
    let mut l3 = e.listen();
    e.notify(1);
    e.notify_additional(1);
    assert!(ready(l1.poll(&mut e, w.clone())));
    assert!(ready(l2.poll(&mut e, w.clone())));
    assert!(!ready(l3.poll(&mut e, w.clone())));
    l3.release(&mut e);
}

#[test]
fn notification_before_listening_is_lost() {
    let w = Waker::noop();
    let mut e = Event::new();
    e.notify(5);
    let mut a = e.listen();
    assert!(!ready(a.poll(&mut e, w.clone())));
    a.release(&mut e);
}

#[test]
fn released_notified_listener_passes_notification_on() {
    let w = Waker::noop();
    let mut e = Event::default();
    let a = e.listen();
    let mut b = e.listen();
    e.notify(1);
    a.release(&mut e);
    assert!(ready(b.poll(&mut e, w.clone())));
}

#[test]
fn released_unnotified_listener_passes_nothing() {
    let w = Waker::noop();
    let mut e = Event::new();
    let a = e.listen();
    let mut b = e.listen();
    a.release(&mut e);
    assert!(!ready(b.poll(&mut e, w.clone())));
    b.release(&mut e);
}

#[test]
fn additional_notification_is_passed_on_as_additional() {
    let w = Waker::noop();
    let mut e = Event::new();
    let mut a = e.listen();
    let b = e.listen();
    let mut c = e.listen();
    e.notify(1);
    e.notify_additional(2);
    b.release(&mut e);
    assert!(ready(a.poll(&mut e, w.clone())));
    assert!(ready(c.poll(&mut e, w.clone())));
}
