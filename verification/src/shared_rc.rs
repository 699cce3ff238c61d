//! A reference-counted allocation whose weak handles may travel to other
//! threads but upgrade only on the thread that created it.  `RcInner` is the
//! allocation: the creating thread, the counts and the value; `Rc` and `Weak`
//! are the strong and weak handles acting on it.  The strong handles together
//! hold one weak count.
use vstd::prelude::*;
use std::marker::PhantomData;

verus! {

/// The shared allocation.
pub struct RcInner<T> {
    thread_id: u32,
    strong: usize,
    weak: usize,
    data: Option<T>,
}

/// A strong handle: keeps the value alive.
pub struct Rc<T> {
    marker: PhantomData<std::rc::Rc<T>>,
}

/// `std::iter::Empty`, which is `Send` and `Sync` for every item type; it
/// serves only as the marker of `Weak`.
#[verifier::external_type_specification]
#[verifier::external_body]
#[verifier::reject_recursive_types(T)]
pub struct ExEmpty<T>(std::iter::Empty<T>);

/// A weak handle: keeps the allocation, not the value.  It may be sent to
/// and shared with other threads whatever `T` is, since it never reaches the
/// value there (`upgrade` fails off the creating thread).
#[verifier::reject_recursive_types(T)]
pub struct Weak<T> {
    marker: PhantomData<std::iter::Empty<T>>,
}

impl<T> RcInner<T> {
    pub closed spec fn thread_id(&self) -> u32 {
        self.thread_id
    }

    pub closed spec fn strong(&self) -> nat {
        self.strong as nat
    }

    pub closed spec fn weak(&self) -> nat {
        self.weak as nat
    }

    /// The value, while a strong handle is left.
    pub closed spec fn data(&self) -> Option<T> {
        self.data
    }

    /// The value lives exactly while a strong handle is left, and the strong
    /// handles then hold a weak count.
    pub closed spec fn wf(&self) -> bool {
        &&& (self.strong > 0 <==> self.data is Some)
        &&& (self.strong > 0 ==> self.weak > 0)
    }

    /// Number of strong handles.
    pub fn strong_count(&self) -> (n: usize)
        ensures
            n == self.strong(),
    {
        self.strong
    }

    /// Weak count (the strong handles together hold one).
    pub fn weak_count(&self) -> (n: usize)
        ensures
            n == self.weak(),
    {
        self.weak
    }

    /// Whether the value is still held.
    pub fn has_data(&self) -> (b: bool)
        ensures
            b == self.data() is Some,
    {
        self.data.is_some()
    }

    /// Whether the counts agree with the value: see `wf`.
    pub fn is_wf(&self) -> (b: bool)
        ensures
            b == self.wf(),
    {
        (self.strong > 0) == self.data.is_some() && (self.strong == 0 || self.weak > 0)
    }

    /// Whether the value is alive.
    pub proof fn lemma_alive(&self)
        requires
            self.wf(),
        ensures
            self.strong() > 0 <==> self.data() is Some,
            self.strong() > 0 ==> self.weak() > 0,
    {
    }
}

impl<T> Rc<T> {
    /// Allocates `data` on the thread `thread_id`, with one strong handle.
    pub fn new(data: T, thread_id: u32) -> (r: (Rc<T>, RcInner<T>))
        ensures
            r.1.wf(),
            r.1.thread_id() == thread_id,
            r.1.strong() == 1,
            r.1.weak() == 1,
            r.1.data() == Some(data),
    {
        (Rc { marker: PhantomData }, RcInner { thread_id, strong: 1, weak: 1, data: Some(data) })
    }

    /// A new weak handle on the same allocation.
    pub fn downgrade(this: &Self, inner: &mut RcInner<T>) -> (w: Weak<T>)
        requires
            old(inner).wf(),
            old(inner).weak() < usize::MAX,
        ensures
            final(inner).wf(),
            final(inner).weak() == old(inner).weak() + 1,
            final(inner).strong() == old(inner).strong(),
            final(inner).data() == old(inner).data(),
            final(inner).thread_id() == old(inner).thread_id(),
    {
        inner.weak = inner.weak + 1;
        Weak { marker: PhantomData }
    }

    /// The value.
    pub fn deref<'a>(&self, inner: &'a RcInner<T>) -> (v: &'a T)
        requires
            inner.wf(),
            inner.strong() > 0,
        ensures
            inner.data() == Some(*v),
    {
        inner.data.as_ref().unwrap()
    }

    /// Drops this strong handle.  The last one drops the value and gives up
    /// the strong handles' weak count; `true` is returned when that was the
    /// last count of all, so that the allocation is freed.
    pub fn release(self, inner: &mut RcInner<T>) -> (freed: bool)
        requires
            old(inner).wf(),
            old(inner).strong() > 0,
        ensures
            final(inner).wf(),
            final(inner).strong() == old(inner).strong() - 1,
            final(inner).thread_id() == old(inner).thread_id(),
            old(inner).strong() > 1 ==> final(inner).data() == old(inner).data()
                && final(inner).weak() == old(inner).weak() && !freed,
            old(inner).strong() == 1 ==> final(inner).data() is None
                && final(inner).weak() == old(inner).weak() - 1
                && (freed <==> old(inner).weak() == 1),
            freed ==> final(inner).strong() == 0 && final(inner).weak() == 0 && final(inner).data() is None,
    {
        let strong = inner.strong;
        inner.strong = strong - 1;
        if strong != 1 {
            return false;
        }
        inner.data = None;
        let w = Weak { marker: PhantomData };
        w.release(inner)
    }
}

impl<T> Weak<T> {
    /// A strong handle, if called on the allocation's thread while the value
    /// is alive.
    pub fn upgrade(&self, inner: &mut RcInner<T>, thread_id: u32) -> (r: Option<Rc<T>>)
        requires
            old(inner).wf(),
            old(inner).strong() < usize::MAX,
        ensures
            final(inner).wf(),
            r is Some <==> (thread_id == old(inner).thread_id() && old(inner).strong() > 0),
            final(inner).strong() == (if r is Some { old(inner).strong() + 1 } else { old(inner).strong() }),
            final(inner).weak() == old(inner).weak(),
            final(inner).data() == old(inner).data(),
            final(inner).thread_id() == old(inner).thread_id(),
    {
        if inner.thread_id != thread_id {
            return None;
        }
        let strong = inner.strong;
        if strong == 0 {
            return None;
        }
        inner.strong = strong + 1;
        Some(Rc { marker: PhantomData })
    }

    /// Drops this weak handle; `true` when it held the last count, so that
    /// the allocation is freed.
    pub fn release(self, inner: &mut RcInner<T>) -> (freed: bool)
        requires
            old(inner).wf(),
            old(inner).strong() > 0 ==> old(inner).weak() > 1,
        ensures
            final(inner).wf(),
            freed <==> old(inner).weak() == 1,
            freed ==> final(inner).strong() == 0 && final(inner).weak() == 0 && final(inner).data() is None,
            final(inner).weak() == (if old(inner).weak() == 0 { usize::MAX as nat } else { (old(inner).weak() - 1) as nat }),
            final(inner).strong() == old(inner).strong(),
            final(inner).data() == old(inner).data(),
            final(inner).thread_id() == old(inner).thread_id(),
    {
        let prev = inner.weak;
        inner.weak = prev.wrapping_sub(1);
        prev == 1
    }
}

} // verus!
