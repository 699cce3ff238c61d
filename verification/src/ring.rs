//! Fixed-capacity ring buffer: the storage of a bounded channel.
use vstd::prelude::*;

verus! {

/// A ring buffer of `capacity` slots.  `head` is the slot read next, `tail`
/// the slot written next; when they meet, `last_recv` tells an empty buffer
/// (the last operation was a receive) from a full one.
pub struct RingBuffer<T> {
    head: usize,
    tail: usize,
    last_recv: bool,
    buffer: Vec<Option<T>>,
}

impl<T> RingBuffer<T> {
    /// Number of slots.
    pub closed spec fn capacity(&self) -> nat {
        self.buffer@.len()
    }

    /// Number of queued items, from the two cursors.
    pub closed spec fn count(&self) -> nat {
        let cap = self.buffer@.len();
        if self.head < self.tail {
            (self.tail - self.head) as nat
        } else if self.tail < self.head {
            (self.tail + cap - self.head) as nat
        } else if self.last_recv {
            0
        } else {
            cap
        }
    }

    /// Slot that holds the `i`-th queued item.
    pub closed spec fn slot(&self, i: int) -> int {
        if self.head + i < self.buffer@.len() {
            self.head + i
        } else {
            self.head + i - self.buffer@.len()
        }
    }

    /// Distance of slot `j` from the head, going forward around the buffer.
    closed spec fn offset(&self, j: int) -> int {
        if j >= self.head {
            j - self.head
        } else {
            j + self.buffer@.len() - self.head
        }
    }

    /// Whether slot `j` lies in the occupied window.
    closed spec fn occupied(&self, j: int) -> bool {
        self.offset(j) < self.count()
    }

    /// The queued items, oldest first.
    pub closed spec fn view(&self) -> Seq<T> {
        Seq::new(self.count(), |i: int| self.buffer@[self.slot(i)]->Some_0)
    }

    /// The cursors lie inside the buffer, and exactly the slots of the window
    /// hold an item.
    pub closed spec fn wf(&self) -> bool {
        &&& (self.buffer@.len() == 0 ==> self.head == 0 && self.tail == 0 && self.last_recv)
        &&& (self.buffer@.len() > 0 ==> self.head < self.buffer@.len() && self.tail < self.buffer@.len())
        &&& forall|j: int| 0 <= j < self.buffer@.len() ==>
                (#[trigger] self.buffer@[j] is Some <==> self.occupied(j))
    }

    proof fn lemma_slot_in_range(&self, i: int)
        requires
            self.wf(),
            0 <= i < self.capacity(),
        ensures
            0 <= self.slot(i) < self.capacity(),
    {
    }

    proof fn lemma_slots_distinct(&self, i: int, k: int)
        requires
            self.wf(),
            0 <= i < self.capacity(),
            0 <= k < self.capacity(),
            i != k,
        ensures
            self.slot(i) != self.slot(k),
    {
    }

    proof fn lemma_offset_slot(&self, j: int)
        requires
            self.wf(),
            0 <= j < self.capacity(),
        ensures
            0 <= self.offset(j) < self.capacity(),
            self.slot(self.offset(j)) == j,
    {
    }

    proof fn lemma_count_bound(&self)
        requires
            self.wf(),
        ensures
            self.count() <= self.capacity(),
            self.capacity() > 0 ==> self.slot(self.count() as int) == self.tail || self.count() == self.capacity(),
            self.count() == self.capacity() ==> self.head == self.tail,
    {
    }

    /// A buffer never holds more items than it has slots.
    pub proof fn lemma_len_bound(&self)
        requires
            self.wf(),
        ensures
            self@.len() <= self.capacity(),
    {
        self.lemma_count_bound();
    }

    /// An empty buffer of `cap` slots.
    pub fn new(cap: usize) -> (r: Self)
        ensures
            r.wf(),
            r.capacity() == cap,
            r@ == Seq::<T>::empty(),
    {
        let mut buffer: Vec<Option<T>> = Vec::new();
        let mut i: usize = 0;
        while i < cap
            invariant
                i <= cap,
                buffer@.len() == i,
                forall|j: int| 0 <= j < i ==> buffer@[j] is None,
            decreases cap - i,
        {
            buffer.push(None);
            i = i + 1;
        }
        let r = RingBuffer { head: 0, tail: 0, last_recv: true, buffer };
        assert(r@ =~= Seq::<T>::empty());
        r
    }

    /// Number of slots.
    pub fn cap(&self) -> (c: usize)
        ensures
            c == self.capacity(),
    {
        self.buffer.len()
    }

    /// Number of queued items.
    pub fn len(&self) -> (n: usize)
        requires
            self.wf(),
        ensures
            n == self@.len(),
    {
        proof { self.lemma_count_bound(); }
        let cap = self.buffer.len();
        if self.head < self.tail {
            self.tail - self.head
        } else if self.tail < self.head {
            self.tail + (cap - self.head)
        } else if self.last_recv {
            0
        } else {
            cap
        }
    }

    /// Whether every slot holds an item.
    pub fn is_full(&self) -> (b: bool)
        requires
            self.wf(),
        ensures
            b <==> (self.capacity() > 0 && self@.len() == self.capacity()),
            self@.len() <= self.capacity(),
    {
        proof { self.lemma_count_bound(); }
        self.head == self.tail && !self.last_recv
    }

    /// Whether no slot holds an item.
    pub fn is_empty(&self) -> (b: bool)
        requires
            self.wf(),
        ensures
            b <==> self@.len() == 0,
    {
        self.head == self.tail && self.last_recv
    }

    /// Appends `v` behind the queued items.
    pub fn send(&mut self, v: T)
        requires
            old(self).wf(),
            old(self)@.len() < old(self).capacity(),
        ensures
            final(self).wf(),
            final(self).capacity() == old(self).capacity(),
            final(self)@ == old(self)@.push(v),
    {
        proof { self.lemma_count_bound(); }
        let ghost pre = *self;
        let cap = self.buffer.len();
        let t = self.tail;
        self.buffer.set(t, Some(v));
        self.tail = if t + 1 == cap { 0 } else { t + 1 };
        self.last_recv = false;
        proof {
            assert(self.count() == pre.count() + 1);
            assert forall|j: int| 0 <= j < self.buffer@.len() implies
                (#[trigger] self.buffer@[j] is Some <==> self.occupied(j)) by {
                pre.lemma_offset_slot(j);
                if j != t {
                    assert(pre.buffer@[j] == self.buffer@[j]);
                } else {
                    assert(self.offset(j) == pre.count());
                }
            }
            assert forall|i: int| 0 <= i < self.count() implies
                #[trigger] self.buffer@[self.slot(i)]->Some_0 == pre@.push(v)[i] by {
                pre.lemma_slot_in_range(i);
                if i < pre.count() {
                    pre.lemma_slots_distinct(i, pre.count() as int);
                }
            }
            assert(self@ =~= pre@.push(v));
        }
    }

    /// Takes the oldest queued item.
    pub fn recv(&mut self) -> (v: T)
        requires
            old(self).wf(),
            old(self)@.len() > 0,
        ensures
            final(self).wf(),
            final(self).capacity() == old(self).capacity(),
            v == old(self)@[0],
            final(self)@ == old(self)@.drop_first(),
    {
        proof { self.lemma_count_bound(); }
        let ghost pre = *self;
        let cap = self.buffer.len();
        let h = self.head;
        assert(pre.offset(h as int) == 0);
        let v = self.buffer[h].take().unwrap();
        self.head = if h + 1 == cap { 0 } else { h + 1 };
        self.last_recv = true;
        proof {
            assert(self.count() == pre.count() - 1);
            assert forall|j: int| 0 <= j < self.buffer@.len() implies
                (#[trigger] self.buffer@[j] is Some <==> self.occupied(j)) by {
                pre.lemma_offset_slot(j);
                if j != h {
                    assert(pre.buffer@[j] == self.buffer@[j]);
                }
            }
            assert forall|i: int| 0 <= i < self.count() implies
                #[trigger] self.buffer@[self.slot(i)]->Some_0 == pre@.drop_first()[i] by {
                pre.lemma_slot_in_range(i + 1);
                pre.lemma_slots_distinct(0, i + 1);
            }
            assert(self@ =~= pre@.drop_first());
        }
        v
    }

    /// Drops every queued item, keeping the capacity.
    pub fn clear(&mut self)
        requires
            old(self).wf(),
        ensures
            final(self).wf(),
            final(self).capacity() == old(self).capacity(),
            final(self)@ == Seq::<T>::empty(),
    {
        let cap = self.buffer.len();
        *self = RingBuffer::new(cap);
    }
}

} // verus!
