//! Event notification: an `Event` keeps an ordered list of listeners, and a
//! notification marks listeners, oldest first, until a requested number of
//! them have been notified.
use vstd::prelude::*;
use crate::Poll;
use crate::waker::{wake, will_wake};
use std::task::Waker;

verus! {

/// What the logic sees of a listener's state.
pub enum Status {
    /// Just created, never polled.
    Created,
    /// Received a notification; `true` if it was an "additional" one.
    Notified(bool),
    /// An async task is polling it; the waker of that task is kept.
    Polling(Waker),
}

/// State of a listener; a polling listener holds the waker of its task.
pub enum State {
    Created,
    Notified(bool),
    Polling(Waker),
}

impl State {
    pub open spec fn status(&self) -> Status {
        match self {
            State::Created => Status::Created,
            State::Notified(b) => Status::Notified(*b),
            State::Polling(w) => Status::Polling(*w),
        }
    }

    /// Whether this is the `Notified` state.
    pub fn is_notified(&self) -> (b: bool)
        ensures
            b <==> self.status() is Notified,
    {
        match self {
            State::Notified(_) => true,
            _ => false,
        }
    }
}

/// The listeners of a list, oldest first, as (key, status) pairs.
pub type Entries = Seq<(u64, Status)>;

/// The entries before `k` are notified and the others are not.
pub open spec fn notified_prefix(s: Entries, k: nat) -> bool {
    &&& k <= s.len()
    &&& forall|i: int| 0 <= i < s.len() ==> ((#[trigger] s[i]).1 is Notified <==> i < k)
}

/// No key occurs twice.
pub open spec fn keys_distinct(s: Entries) -> bool {
    forall|i: int, j: int| 0 <= i < s.len() && 0 <= j < s.len() && i != j ==> (#[trigger] s[i]).0 != (#[trigger] s[j]).0
}

/// Whether some entry has `key`.
pub open spec fn has_key(s: Entries, key: u64) -> bool {
    exists|i: int| 0 <= i < s.len() && (#[trigger] s[i]).0 == key
}

/// Index of the entry with `key`.
pub open spec fn position_of(s: Entries, key: u64) -> int {
    choose|i: int| 0 <= i < s.len() && (#[trigger] s[i]).0 == key
}

/// Number of notified entries after `notify(n)` on a list with `k` of `len`
/// entries notified: at least `n`, as far as there are entries.
pub open spec fn notify_count(k: nat, len: nat, n: nat) -> nat {
    if n <= k {
        k
    } else if n <= len {
        n
    } else {
        len
    }
}

/// Number of notified entries after notifying `n` more on a list with `k` of
/// `len` entries notified.
pub open spec fn additional_count(k: nat, len: nat, n: nat) -> nat {
    if k + n <= len {
        k + n
    } else {
        len
    }
}

/// `s` with the entries at `from..to` marked notified.
pub open spec fn mark_notified(s: Entries, from: nat, to: nat, additional: bool) -> Entries {
    Seq::new(
        s.len(),
        |i: int|
            if from <= i < to {
                (s[i].0, Status::Notified(additional))
            } else {
                s[i]
            },
    )
}

/// A listener in state `before`, polled by a task with waker `w`, is in
/// state `after`: it keeps a waker of that task, namely `w` itself, or the
/// waker it already kept when that one wakes the same task (which the logic
/// cannot see, as it compares addresses).
pub open spec fn repolled(before: Status, w: Waker, after: Status) -> bool {
    after matches Status::Polling(w2) && (w2 == w || before == Status::Polling(w2))
}

/// `(s2, n2)` is the list `(s1, n1)` after one poll of the listener `k` by a
/// task with waker `w`; the listener's key is `k2` afterwards: a notified
/// listener leaves the list and completes, any other one goes to `Polling`
/// and keeps the polling task's waker.
pub open spec fn polled(s1: Entries, n1: nat, k: u64, w: Waker, s2: Entries, n2: nat, k2: Option<u64>) -> bool {
    let p = position_of(s1, k);
    if s1[p].1 is Notified {
        &&& k2 is None
        &&& s2 == s1.remove(p)
        &&& n2 == n1 - 1
    } else {
        &&& k2 == Some(k)
        &&& s2.len() == s1.len()
        &&& s2 == s1.update(p, (k, s2[p].1))
        &&& repolled(s1[p].1, w, s2[p].1)
        &&& n2 == n1
    }
}

/// `(s2, n2)` is the list `(s1, n1)` after the listener `k` was discarded: it
/// leaves the list, and a notification it held goes on to another listener.
pub open spec fn released(s1: Entries, n1: nat, k: u64, s2: Entries, n2: nat) -> bool {
    let p = position_of(s1, k);
    let rest = s1.remove(p);
    match s1[p].1 {
        Status::Notified(true) => {
            let k1 = (n1 - 1) as nat;
            &&& n2 == additional_count(k1, rest.len(), 1)
            &&& s2 == mark_notified(rest, k1, n2, true)
        },
        Status::Notified(false) => {
            let k1 = (n1 - 1) as nat;
            &&& n2 == notify_count(k1, rest.len(), 1)
            &&& s2 == mark_notified(rest, k1, n2, false)
        },
        _ => {
            &&& n2 == n1
            &&& s2 == rest
        },
    }
}

/// Notifying is idempotent: `notify(n)` a second time changes nothing.
pub proof fn law_notify_idempotent(s: Entries, k: nat, n: nat)
    requires
        notified_prefix(s, k),
    ensures
        ({
            let k1 = notify_count(k, s.len(), n);
            let s1 = mark_notified(s, k, k1, false);
            &&& notify_count(k1, s1.len(), n) == k1
            &&& mark_notified(s1, k1, k1, false) == s1
        }),
{
    let k1 = notify_count(k, s.len(), n);
    let s1 = mark_notified(s, k, k1, false);
    assert(mark_notified(s1, k1, k1, false) =~= s1);
}

/// After `notify(n)` the notified listeners are still the oldest ones, and
/// there are at least `n` of them, or all listeners if there are fewer; no
/// listener loses a notification and keys stay as they were.
pub proof fn law_notify_reaches(s: Entries, k: nat, n: nat, additional: bool)
    requires
        notified_prefix(s, k),
    ensures
        ({
            let k1 = notify_count(k, s.len(), n);
            let s1 = mark_notified(s, k, k1, additional);
            &&& notified_prefix(s1, k1)
            &&& k <= k1
            &&& (n <= s.len() ==> n <= k1)
            &&& (n > s.len() ==> k1 == s.len())
            &&& forall|i: int| 0 <= i < s.len() ==> (#[trigger] s1[i]).0 == s[i].0
        }),
{
}

/// `notify_additional(n)` notifies exactly `n` more listeners, or all the
/// remaining ones if there are fewer; the notified ones stay the oldest.
pub proof fn law_additional_adds(s: Entries, k: nat, n: nat)
    requires
        notified_prefix(s, k),
    ensures
        ({
            let k1 = additional_count(k, s.len(), n);
            let s1 = mark_notified(s, k, k1, true);
            &&& notified_prefix(s1, k1)
            &&& k1 - k == (if n <= s.len() - k { n as int } else { s.len() - k })
        }),
{
}

/// A notification is not lost when its listener is discarded: if other
/// listeners remain, at least one of them is notified afterwards.
pub proof fn law_release_passes_on(s: Entries, k: nat, key: u64, s2: Entries, k2: nat)
    requires
        notified_prefix(s, k),
        keys_distinct(s),
        has_key(s, key),
        s[position_of(s, key)].1 is Notified,
        released(s, k, key, s2, k2),
    ensures
        s2.len() == s.len() - 1,
        s2.len() > 0 ==> k2 >= 1,
        notified_prefix(s2, k2),
{
    let p = position_of(s, key);
    let rest = s.remove(p);
    assert(p < k);
    assert(notified_prefix(rest, (k - 1) as nat)) by {
        assert forall|i: int| 0 <= i < rest.len() implies ((#[trigger] rest[i]).1 is Notified <==> i < k - 1) by {
            if i < p {
                assert(rest[i] == s[i]);
            } else {
                assert(rest[i] == s[i + 1]);
            }
        }
    }
}

/// `notify(n)` makes sure that `n` listeners are notified, and no more:
/// the count never drops, never exceeds the number of listeners, reaches `n`
/// (or all listeners, if fewer), and when it grows it grows to at most `n`.
pub proof fn law_notify_count_bounds(k: nat, len: nat, n: nat)
    requires
        k <= len,
    ensures
        k <= notify_count(k, len, n) <= len,
        n <= len ==> n <= notify_count(k, len, n),
        n > len ==> notify_count(k, len, n) == len,
        notify_count(k, len, n) > k ==> notify_count(k, len, n) <= n,
{
}

/// `notify_additional(n)` notifies `n` more listeners than were notified, or
/// all of them if fewer remain unnotified.
pub proof fn law_additional_count_bounds(k: nat, len: nat, n: nat)
    requires
        k <= len,
    ensures
        k <= additional_count(k, len, n) <= len,
        additional_count(k, len, n) <= k + n,
        additional_count(k, len, n) < k + n ==> additional_count(k, len, n) == len,
{
}

/// Discarding the listener `key` of the list `(s, k)` passes its
/// notification on: an additional notification goes to the oldest
/// unnotified listener, if there is one, so that as many listeners as before
/// are notified; a plain one leaves at least one listener notified, if any
/// is left; a listener without a notification changes no count.
pub proof fn law_release_passes_notification(s: Entries, k: nat, key: u64, s2: Entries, k2: nat)
    requires
        notified_prefix(s, k),
        keys_distinct(s),
        has_key(s, key),
        released(s, k, key, s2, k2),
    ensures
        s2.len() == s.len() - 1,
        notified_prefix(s2, k2),
        s[position_of(s, key)].1 == Status::Notified(true) && k < s.len() ==>
            k2 == k && s2[k - 1] == (s[k as int].0, Status::Notified(true)),
        s[position_of(s, key)].1 == Status::Notified(false) ==>
            k2 == (if k > 1 { (k - 1) as nat } else if s.len() > 1 { 1nat } else { 0nat }),
        !(s[position_of(s, key)].1 is Notified) ==> k2 == k,
{
    let p = position_of(s, key);
    let rest = s.remove(p);
    assert(s[p].0 == key);
    if s[p].1 is Notified {
        assert(p < k);
        assert(notified_prefix(rest, (k - 1) as nat)) by {
            assert forall|i: int| 0 <= i < rest.len() implies ((#[trigger] rest[i]).1 is Notified <==> i < k - 1) by {
                if i < p {
                    assert(rest[i] == s[i]);
                } else {
                    assert(rest[i] == s[i + 1]);
                }
            }
        }
        if s[p].1 == Status::Notified(true) && k < s.len() {
            assert(rest[k - 1] == s[k as int]);
        }
    } else {
        assert(p >= k);
        assert forall|i: int| 0 <= i < rest.len() implies ((#[trigger] rest[i]).1 is Notified <==> i < k) by {
            if i < p {
                assert(rest[i] == s[i]);
            } else {
                assert(rest[i] == s[i + 1]);
            }
        }
    }
}

struct Entry {
    key: u64,
    state: State,
}

/// The listeners of an event, oldest first.  The first `notified` of them are
/// the notified ones; the next to notify sits at index `notified`.
struct List {
    entries: Vec<Entry>,
    notified: usize,
    next_key: u64,
}

impl List {
    closed spec fn view(&self) -> Entries {
        Seq::new(self.entries@.len(), |i: int| (self.entries@[i].key, self.entries@[i].state.status()))
    }

    closed spec fn wf(&self) -> bool {
        &&& notified_prefix(self@, self.notified as nat)
        &&& keys_distinct(self@)
        &&& forall|i: int| 0 <= i < self@.len() ==> (#[trigger] self@[i]).0 < self.next_key
    }

    fn new() -> (l: Self)
        ensures
            l.wf(),
            l@ == Seq::<(u64, Status)>::empty(),
            l.notified == 0,
            l.next_key == 0,
    {
        let l = List { entries: Vec::new(), notified: 0, next_key: 0 };
        assert(l@ =~= Seq::<(u64, Status)>::empty());
        l
    }

    /// Appends a fresh entry in the `Created` state and returns its key.
    fn insert(&mut self) -> (key: u64)
        requires
            old(self).wf(),
            old(self).next_key < u64::MAX,
        ensures
            final(self).wf(),
            !has_key(old(self)@, key),
            final(self)@ == old(self)@.push((key, Status::Created)),
            final(self).notified == old(self).notified,
            final(self).next_key == old(self).next_key + 1,
    {
        let key = self.next_key;
        self.entries.push(Entry { key, state: State::Created });
        self.next_key = key + 1;
        proof {
            assert(self@ =~= old(self)@.push((key, Status::Created)));
        }
        key
    }

    /// Whether some entry has `key`.
    fn contains(&self, key: u64) -> (b: bool)
        requires
            self.wf(),
        ensures
            b == has_key(self@, key),
    {
        let mut i: usize = 0;
        while i < self.entries.len()
            invariant
                self.wf(),
                i <= self.entries@.len(),
                forall|j: int| 0 <= j < i ==> self@[j].0 != key,
            decreases self.entries@.len() - i,
        {
            if self.entries[i].key == key {
                assert(self@[i as int].0 == key);
                return true;
            }
            i = i + 1;
        }
        false
    }

    /// Index of the entry with `key`.
    fn position(&self, key: u64) -> (p: usize)
        requires
            self.wf(),
            has_key(self@, key),
        ensures
            p == position_of(self@, key),
            p < self@.len(),
            self@[p as int].0 == key,
    {
        let mut i: usize = 0;
        while i < self.entries.len()
            invariant
                self.wf(),
                has_key(self@, key),
                i <= self.entries@.len(),
                forall|j: int| 0 <= j < i ==> self@[j].0 != key,
            decreases self.entries@.len() - i,
        {
            if self.entries[i].key == key {
                proof {
                    let c = position_of(self@, key);
                    assert(self@[i as int].0 == key);
                    assert(self@[c].0 == key);
                }
                return i;
            }
            i = i + 1;
        }
        proof {
            let c = choose|j: int| 0 <= j < self@.len() && (#[trigger] self@[j]).0 == key;
            assert(self@[c].0 == key);
        }
        0
    }

    /// Removes the entry with `key` and returns its state.
    fn remove(&mut self, key: u64) -> (st: State)
        requires
            old(self).wf(),
            has_key(old(self)@, key),
        ensures
            final(self).wf(),
            st.status() == old(self)@[position_of(old(self)@, key)].1,
            final(self)@ == old(self)@.remove(position_of(old(self)@, key)),
            final(self).notified == (if st.status() is Notified { old(self).notified - 1 } else { old(self).notified as int }),
            final(self).next_key == old(self).next_key,
    {
        let p = self.position(key);
        let e = self.entries.remove(p);
        let st = e.state;
        if st.is_notified() {
            self.notified = self.notified - 1;
        }
        proof {
            assert(self@ =~= old(self)@.remove(p as int));
        }
        st
    }

    /// Notifies unnotified entries, oldest first, until `n` entries are
    /// notified or none is left; each newly notified entry's task is woken.
    fn notify(&mut self, n: usize)
        requires
            old(self).wf(),
        ensures
            final(self).wf(),
            final(self).notified == notify_count(old(self).notified as nat, old(self)@.len(), n as nat),
            final(self)@ == mark_notified(old(self)@, old(self).notified as nat, final(self).notified as nat, false),
            final(self).next_key == old(self).next_key,
    {
        if n <= self.notified {
            proof {
                assert(self@ =~= mark_notified(self@, self.notified as nat, self.notified as nat, false));
            }
            return;
        }
        let count = n - self.notified;
        self.mark(count, false);
    }

    /// Notifies `n` more unnotified entries, oldest first, as far as there
    /// are any; each newly notified entry's task is woken.
    fn notify_additional(&mut self, n: usize)
        requires
            old(self).wf(),
        ensures
            final(self).wf(),
            final(self).notified == additional_count(old(self).notified as nat, old(self)@.len(), n as nat),
            final(self)@ == mark_notified(old(self)@, old(self).notified as nat, final(self).notified as nat, true),
            final(self).next_key == old(self).next_key,
    {
        self.mark(n, true);
    }

    /// One poll of the listener `key`: a notified entry is removed and
    /// `true` returned; otherwise the entry goes to `Polling` with a waker of
    /// the polling task, and `false` is returned.
    fn poll_entry(&mut self, key: u64, waker: Waker) -> (notified: bool)
        requires
            old(self).wf(),
            has_key(old(self)@, key),
        ensures
            final(self).wf(),
            final(self).next_key == old(self).next_key,
            notified <==> old(self)@[position_of(old(self)@, key)].1 is Notified,
            notified ==> final(self)@ == old(self)@.remove(position_of(old(self)@, key))
                && final(self).notified == old(self).notified - 1,
            !notified ==> final(self)@.len() == old(self)@.len()
                && final(self)@ == old(self)@.update(position_of(old(self)@, key), (key, final(self)@[position_of(old(self)@, key)].1))
                && repolled(old(self)@[position_of(old(self)@, key)].1, waker, final(self)@[position_of(old(self)@, key)].1)
                && final(self).notified == old(self).notified,
    {
        let p = self.position(key);
        let ghost before = self@;
        let mut st = State::Notified(false);
        std::mem::swap(&mut self.entries[p].state, &mut st);
        match st {
            State::Notified(_) => {
                proof {
                    assert(self@ =~= before.update(p as int, (key, Status::Notified(false))));
                    assert forall|a: int, b: int| 0 <= a < self@.len() && 0 <= b < self@.len() && a != b
                        implies (#[trigger] self@[a]).0 != (#[trigger] self@[b]).0 by {
                        assert(self@[a].0 == before[a].0);
                        assert(self@[b].0 == before[b].0);
                    }
                    assert forall|a: int| 0 <= a < self@.len() implies (#[trigger] self@[a]).0 < self.next_key by {
                        assert(self@[a].0 == before[a].0);
                    }
                    assert(self@[p as int].0 == key);
                    assert(has_key(self@, key));
                    assert(position_of(self@, key) == p) by {
                        let c = position_of(self@, key);
                        assert(self@[c].0 == key);
                    }
                }
                let _ = self.remove(key);
                proof {
                    assert(self@ =~= before.remove(p as int));
                }
                true
            },
            State::Created => {
                let ghost w = waker;
                self.entries.set(p, Entry { key, state: State::Polling(waker) });
                proof { self.lemma_polling_update(before, p as int, key, Status::Polling(w)); }
                false
            },
            State::Polling(w) => {
                let keep = will_wake(&w, &waker);
                if keep {
                    let ghost kept = w;
                    self.entries.set(p, Entry { key, state: State::Polling(w) });
                    proof { self.lemma_polling_update(before, p as int, key, Status::Polling(kept)); }
                } else {
                    let ghost w2 = waker;
                    self.entries.set(p, Entry { key, state: State::Polling(waker) });
                    proof { self.lemma_polling_update(before, p as int, key, Status::Polling(w2)); }
                }
                false
            },
        }
    }

    proof fn lemma_polling_update(&self, before: Entries, p: int, key: u64, st: Status)
        requires
            0 <= p < before.len(),
            before[p].0 == key,
            !(before[p].1 is Notified),
            notified_prefix(before, self.notified as nat),
            keys_distinct(before),
            forall|i: int| 0 <= i < before.len() ==> (#[trigger] before[i]).0 < self.next_key,
            self.entries@.len() == before.len(),
            self.entries@[p].key == key,
            st is Polling,
            self.entries@[p].state.status() == st,
            forall|i: int| 0 <= i < before.len() && i != p ==> (#[trigger] self@[i]) == before[i],
        ensures
            self.wf(),
            self@ == before.update(p, (key, st)),
    {
        assert(self@ =~= before.update(p, (key, st)));
        assert forall|a: int, b: int| 0 <= a < self@.len() && 0 <= b < self@.len() && a != b
            implies (#[trigger] self@[a]).0 != (#[trigger] self@[b]).0 by {
            assert(self@[a].0 == before[a].0);
            assert(self@[b].0 == before[b].0);
        }
        assert forall|a: int| 0 <= a < self@.len() implies (#[trigger] self@[a]).0 < self.next_key by {
            assert(self@[a].0 == before[a].0);
        }
        assert forall|i: int| 0 <= i < self@.len() implies ((#[trigger] self@[i]).1 is Notified <==> i < self.notified) by {
            assert(before[i].1 is Notified <==> i < self.notified);
        }
    }

    /// Marks up to `count` entries from the first unnotified one.
    fn mark(&mut self, count: usize, additional: bool)
        requires
            old(self).wf(),
        ensures
            final(self).wf(),
            final(self).notified == additional_count(old(self).notified as nat, old(self)@.len(), count as nat),
            final(self)@ == mark_notified(old(self)@, old(self).notified as nat, final(self).notified as nat, additional),
            final(self).next_key == old(self).next_key,
    {
        let ghost pre = self@;
        let ghost k0 = self.notified as nat;
        let mut i: usize = 0;
        while i < count && self.notified < self.entries.len()
            invariant
                self.wf(),
                self@.len() == pre.len(),
                k0 <= self.notified,
                self.notified == k0 + i,
                i <= count,
                self.next_key == old(self).next_key,
                k0 == old(self).notified,
                pre == old(self)@,
                self@ == mark_notified(pre, k0, self.notified as nat, additional),
            decreases count - i,
        {
            let idx = self.notified;
            let ghost before = self@;
            let mut old_state = State::Notified(additional);
            std::mem::swap(&mut self.entries[idx].state, &mut old_state);
            match old_state {
                State::Polling(w) => wake(w),
                _ => {},
            }
            self.notified = idx + 1;
            i = i + 1;
            proof {
                assert(self@ =~= before.update(idx as int, (before[idx as int].0, Status::Notified(additional))));
                assert(self@ =~= mark_notified(pre, k0, self.notified as nat, additional));
                assert forall|a: int, b: int| 0 <= a < self@.len() && 0 <= b < self@.len() && a != b
                    implies (#[trigger] self@[a]).0 != (#[trigger] self@[b]).0 by {
                    assert(self@[a].0 == before[a].0);
                    assert(self@[b].0 == before[b].0);
                }
                assert forall|a: int| 0 <= a < self@.len() implies (#[trigger] self@[a]).0 < self.next_key by {
                    assert(self@[a].0 == before[a].0);
                }
            }
        }
    }
}

/// A notification source.  Its list of listeners is created by the first
/// `listen`; until then notifications reach nobody.
pub struct Event {
    inner: Option<List>,
}

/// A listener registered with an `Event`; `None` once it has completed.
pub struct EventListener {
    entry: Option<u64>,
}

impl Event {
    /// The listeners, oldest first.
    pub closed spec fn view(&self) -> Entries {
        match self.inner {
            Some(l) => l@,
            None => Seq::empty(),
        }
    }

    /// How many listeners are notified (they are the oldest ones).
    pub closed spec fn notified(&self) -> nat {
        match self.inner {
            Some(l) => l.notified as nat,
            None => 0,
        }
    }

    /// How many more listeners can be registered before the key space runs out.
    pub closed spec fn listens_left(&self) -> nat {
        match self.inner {
            Some(l) => (u64::MAX - l.next_key) as nat,
            None => u64::MAX as nat,
        }
    }

    pub closed spec fn wf(&self) -> bool {
        match self.inner {
            Some(l) => l.wf(),
            None => true,
        }
    }

    /// The shape every well-formed event has: the notified listeners are the
    /// oldest ones, and no key occurs twice.
    pub proof fn lemma_shape(&self)
        requires
            self.wf(),
        ensures
            notified_prefix(self@, self.notified()),
            keys_distinct(self@),
    {
    }

    /// An event with no listener.
    pub fn new() -> (e: Self)
        ensures
            e.wf(),
            e@ == Seq::<(u64, Status)>::empty(),
            e.notified() == 0,
            e.listens_left() == u64::MAX,
    {
        Event { inner: None }
    }

    /// Whether another listener can be registered.
    pub fn can_listen(&self) -> (b: bool)
        ensures
            b == (self.listens_left() > 0),
    {
        match &self.inner {
            Some(l) => l.next_key < u64::MAX,
            None => true,
        }
    }

    /// Whether a listener with `key` is registered.
    pub fn has_listener(&self, key: u64) -> (b: bool)
        requires
            self.wf(),
        ensures
            b == has_key(self@, key),
    {
        match &self.inner {
            Some(l) => l.contains(key),
            None => false,
        }
    }

    /// The list of listeners, created on first use.
    fn inner(&mut self) -> (l: List)
        requires
            old(self).wf(),
        ensures
            l.wf(),
            final(self).inner is None,
            l@ == old(self)@,
            l.notified == old(self).notified(),
            u64::MAX - l.next_key == old(self).listens_left(),
    {
        match self.inner.take() {
            Some(l) => l,
            None => List::new(),
        }
    }

    /// Registers a new listener behind the existing ones.
    pub fn listen(&mut self) -> (listener: EventListener)
        requires
            old(self).wf(),
            old(self).listens_left() > 0,
        ensures
            final(self).wf(),
            listener.key() matches Some(k) && !has_key(old(self)@, k)
                && final(self)@ == old(self)@.push((k, Status::Created)),
            final(self).notified() == old(self).notified(),
            final(self).listens_left() == old(self).listens_left() - 1,
    {
        let mut list = self.inner();
        let key = list.insert();
        self.inner = Some(list);
        EventListener { entry: Some(key) }
    }

    /// Makes sure that `n` listeners are notified, as far as there are
    /// listeners: unnotified ones are notified oldest first, and their tasks
    /// woken.
    pub fn notify(&mut self, n: usize)
        requires
            old(self).wf(),
        ensures
            final(self).wf(),
            final(self).notified() == notify_count(old(self).notified(), old(self)@.len(), n as nat),
            final(self)@ == mark_notified(old(self)@, old(self).notified(), final(self).notified(), false),
            final(self).listens_left() == old(self).listens_left(),
            old(self).notified() <= final(self).notified() <= old(self)@.len(),
            n <= old(self)@.len() ==> n <= final(self).notified(),
            final(self).notified() > old(self).notified() ==> final(self).notified() <= n,
    {
        proof {
            self.lemma_shape();
            law_notify_count_bounds(self.notified(), self@.len(), n as nat);
        }
        match self.inner.take() {
            Some(mut list) => {
                if list.notified < n {
                    list.notify(n);
                } else {
                    proof {
                        assert(list@ =~= mark_notified(list@, list.notified as nat, list.notified as nat, false));
                    }
                }
                self.inner = Some(list);
            },
            None => {
                proof {
                    assert(self@ =~= mark_notified(old(self)@, 0, 0, false));
                }
            },
        }
    }

    /// Notifies `n` more listeners, oldest unnotified first, as far as there
    /// are any; their tasks are woken.
    pub fn notify_additional(&mut self, n: usize)
        requires
            old(self).wf(),
        ensures
            final(self).wf(),
            final(self).notified() == additional_count(old(self).notified(), old(self)@.len(), n as nat),
            final(self)@ == mark_notified(old(self)@, old(self).notified(), final(self).notified(), true),
            final(self).listens_left() == old(self).listens_left(),
            old(self).notified() <= final(self).notified() <= old(self)@.len(),
            final(self).notified() <= old(self).notified() + n,
            final(self).notified() < old(self).notified() + n ==> final(self).notified() == old(self)@.len(),
    {
        proof {
            self.lemma_shape();
            law_additional_count_bounds(self.notified(), self@.len(), n as nat);
        }
        match self.inner.take() {
            Some(mut list) => {
                list.notify_additional(n);
                self.inner = Some(list);
            },
            None => {
                proof {
                    assert(self@ =~= mark_notified(old(self)@, 0, 0, true));
                }
            },
        }
    }
}

impl Default for Event {
    fn default() -> (e: Self)
        ensures
            e.wf(),
            e@ == Seq::<(u64, Status)>::empty(),
            e.notified() == 0,
            e.listens_left() == u64::MAX,
    {
        Event::new()
    }
}

impl EventListener {
    /// Key of the listener's entry, or `None` once it has completed.
    pub closed spec fn key(&self) -> Option<u64> {
        self.entry
    }

    /// Key of the listener's entry, or `None` once it has completed.
    pub fn entry_key(&self) -> (k: Option<u64>)
        ensures
            k == self.key(),
    {
        self.entry
    }

    /// Whether the listener has completed.
    pub fn is_done(&self) -> (b: bool)
        ensures
            b <==> self.key() is None,
    {
        self.entry.is_none()
    }

    /// Polls the listener: if it was notified it completes, leaves the list
    /// and `Ready` is returned; otherwise it records the polling task's waker
    /// and `Pending` is returned.
    pub fn poll(&mut self, event: &mut Event, waker: Waker) -> (r: Poll<()>)
        requires
            old(event).wf(),
            old(self).key() matches Some(k) && has_key(old(event)@, k),
        ensures
            final(event).wf(),
            final(event).listens_left() == old(event).listens_left(),
            polled(old(event)@, old(event).notified(), old(self).key()->Some_0, waker,
                final(event)@, final(event).notified(), final(self).key()),
            r is Ready <==> final(self).key() is None,
    {
        let key = self.entry.unwrap();
        let mut list = event.inner();
        let notified = list.poll_entry(key, waker);
        event.inner = Some(list);
        if notified {
            self.entry = None;
            Poll::Ready(())
        } else {
            Poll::Pending
        }
    }

    /// Discards the listener.  If it had been notified, the notification is
    /// passed on: an additional one to the next unnotified listener, a plain
    /// one so that at least one listener stays notified.  A listener that is
    /// no longer in the list leaves the event as it is.
    pub fn release(self, event: &mut Event)
        requires
            old(event).wf(),
        ensures
            final(event).wf(),
            final(event).listens_left() == old(event).listens_left(),
            match self.key() {
                Some(k) => if has_key(old(event)@, k) {
                    released(old(event)@, old(event).notified(), k, final(event)@, final(event).notified())
                } else {
                    *final(event) == *old(event)
                },
                None => *final(event) == *old(event),
            },
            match self.key() {
                Some(k) => has_key(old(event)@, k) ==> ({
                    let p = position_of(old(event)@, k);
                    let n0 = old(event).notified();
                    &&& final(event)@.len() == old(event)@.len() - 1
                    &&& (old(event)@[p].1 == Status::Notified(true) && n0 < old(event)@.len() ==>
                        final(event).notified() == n0
                        && final(event)@[n0 - 1] == (old(event)@[n0 as int].0, Status::Notified(true)))
                    &&& (old(event)@[p].1 == Status::Notified(false) ==> final(event).notified()
                        == (if n0 > 1 { (n0 - 1) as nat } else if old(event)@.len() > 1 { 1nat } else { 0nat }))
                    &&& (!(old(event)@[p].1 is Notified) ==> final(event).notified() == n0)
                }),
                None => true,
            },
    {
        proof { event.lemma_shape(); }
        match self.entry {
            None => {},
            Some(key) => {
                if event.has_listener(key) {
                    let mut list = event.inner();
                    let st = list.remove(key);
                    match st {
                        State::Notified(additional) => {
                            if additional {
                                list.notify_additional(1);
                            } else {
                                list.notify(1);
                            }
                        },
                        _ => {},
                    }
                    event.inner = Some(list);
                    proof {
                        law_release_passes_notification(old(event)@, old(event).notified(), key,
                            event@, event.notified());
                    }
                }
            },
        }
    }
}

} // verus!
