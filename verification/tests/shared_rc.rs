use local_async::shared_rc::Rc;

#[test]
fn test_rc() {
    let (arr, mut inner) = Rc::new(
        ["1".to_string(), "2".to_string(), "3".to_string(), "4".to_string()],
        7,
    );
    assert_eq!(arr.deref(&inner).len(), 4);
    let weak = Rc::downgrade(&arr, &mut inner);
    let slc2 = weak.upgrade(&mut inner, 7).unwrap();
    assert_eq!(slc2.deref(&inner).len(), 4);
    for (s, i) in arr.deref(&inner).iter().zip(1..) {
        assert_eq!(s, &i.to_string());
    }
    assert!(!slc2.release(&mut inner));
    assert!(!arr.release(&mut inner));
    assert!(weak.release(&mut inner));
}

#[test]
fn upgrade_only_on_own_thread_while_alive() {
    let (rc, mut inner) = Rc::new(5u32, 1);
    let weak = Rc::downgrade(&rc, &mut inner);
    assert!(weak.upgrade(&mut inner, 2).is_none());
    assert!(!rc.release(&mut inner));
    assert!(weak.upgrade(&mut inner, 1).is_none());
    assert!(weak.release(&mut inner));
}

#[test]
fn last_strong_frees_without_weak() {
    let (rc, mut inner) = Rc::new(vec![1, 2], 0);
    assert!(rc.release(&mut inner));
}
