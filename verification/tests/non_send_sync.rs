use local_async::shared_rc::Weak;
use local_async::join::JoinHandle;
use local_async::local_set::LocalSet;

struct Tester<T>(std::marker::PhantomData<T>);

impl<T> Tester<T> {
    fn new(_: &T) -> Self {
        Self(Default::default())
    }
}

impl<T: Send> Tester<T> {
    const SEND: bool = true;
}

impl<T: Sync> Tester<T> {
    const SYNC: bool = true;
}

trait NotSend {
    const SEND: bool = false;

    fn is_send(&self) -> bool {
        Self::SEND
    }
}

impl<T> NotSend for Tester<T> {}

trait NotSync {
    const SYNC: bool = false;
    fn is_sync(&self) -> bool {
        Self::SYNC
    }
}

impl<T> NotSync for Tester<T> {}

#[allow(clippy::assertions_on_constants)]
#[test]
fn non_send_sync() {
    assert!(Tester::<i32>::SEND);
    assert!(Tester::<i32>::SYNC);

    assert!(!Tester::<JoinHandle<i32>>::SEND);
    assert!(!Tester::<JoinHandle<i32>>::SYNC);

    assert!(!Tester::<LocalSet>::SEND);
    assert!(!Tester::<LocalSet>::SYNC);

    assert!(Tester::<Weak<std::rc::Rc<i32>>>::SEND);
    assert!(Tester::<Weak<std::rc::Rc<i32>>>::SYNC);

    let (_tx, rx) = std::sync::mpsc::channel();
    let mut s = LocalSet::new(rx);
    let r = Tester::new(&s.run_until());
    assert!(!r.is_send());
    assert!(!r.is_sync());
}
