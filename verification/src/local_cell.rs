//! Per-thread sets of woken task ids.  A thread's store keeps one set per
//! cell; a cell drains its set, and a reference to the cell adds ids to it,
//! but only from the thread the cell was made on.
use vstd::prelude::*;
use slab::Slab;
use std::collections::BTreeSet;

verus! {

broadcast use vstd::laws_cmp::group_laws_cmp;

/// The sets of a store's slab, by key.
pub uninterp spec fn cell_sets(s: Slab<BTreeSet<usize>>) -> Map<usize, Set<usize>>;

/// `Slab::insert`: stores `v` under the key it returns, which was vacant.
/// Which vacant key it is is not claimed.
#[verifier::external_body]
fn cells_insert(s: &mut Slab<BTreeSet<usize>>, v: BTreeSet<usize>) -> (key: usize)
    ensures
        !cell_sets(*old(s)).contains_key(key),
        cell_sets(*final(s)) == cell_sets(*old(s)).insert(key, v@),
{
    s.insert(v)
}

/// `Slab::contains`: whether `key` is in use.
#[verifier::external_body]
fn cells_contains(s: &Slab<BTreeSet<usize>>, key: usize) -> (b: bool)
    ensures
        b == cell_sets(*s).contains_key(key),
{
    s.contains(key)
}

/// `IndexMut` of `Slab`: the set under a key in use, to change in place (the
/// index panics on a vacant key).  Whatever the set becomes is what the slab
/// holds under the key afterwards.
#[verifier::external_body]
fn cells_index_mut<'a>(s: &'a mut Slab<BTreeSet<usize>>, key: usize) -> (r: &'a mut BTreeSet<usize>)
    requires
        cell_sets(*old(s)).contains_key(key),
    ensures
        r@ == cell_sets(*old(s))[key],
        cell_sets(*final(s)) == cell_sets(*old(s)).insert(key, final(r)@),
{
    &mut s[key]
}

/// `Slab::remove`: frees a key in use (it panics on a vacant key).
#[verifier::external_body]
fn cells_remove(s: &mut Slab<BTreeSet<usize>>, key: usize) -> (v: BTreeSet<usize>)
    requires
        cell_sets(*old(s)).contains_key(key),
    ensures
        v@ == cell_sets(*old(s))[key],
        cell_sets(*final(s)) == cell_sets(*old(s)).remove(key),
{
    s.remove(key)
}

/// `Slab::new`: a slab with no entries.
#[verifier::external_body]
fn cells_new() -> (slab: Slab<BTreeSet<usize>>)
    ensures
        cell_sets(slab).dom() == Set::<usize>::empty(),
{
    Slab::new()
}

/// The store of one thread: its sets, and the id of the thread.
pub struct LocalStore {
    store: Slab<BTreeSet<usize>>,
    thread_id: u32,
}

/// A set of woken ids in a thread's store.
pub struct LocalCell {
    thread_id: u32,
    store_id: usize,
}

/// A reference through which ids are added to a cell's set.
#[derive(Clone)]
pub struct LocalCellRef {
    thread_id: u32,
    store_id: usize,
}

impl LocalStore {
    pub closed spec fn sets(&self) -> Map<usize, Set<usize>> {
        cell_sets(self.store)
    }

    pub closed spec fn thread_id(&self) -> u32 {
        self.thread_id
    }

    /// The empty store of thread `thread_id`.
    pub fn new(thread_id: u32) -> (s: Self)
        ensures
            s.sets().dom() == Set::<usize>::empty(),
            s.thread_id() == thread_id,
    {
        LocalStore { store: cells_new(), thread_id }
    }
}

impl LocalCell {
    pub closed spec fn thread_id(&self) -> u32 {
        self.thread_id
    }

    pub closed spec fn store_id(&self) -> usize {
        self.store_id
    }

    /// A new, empty set in `store`, tied to the store's thread.
    pub fn new(store: &mut LocalStore) -> (c: Self)
        ensures
            !old(store).sets().contains_key(c.store_id()),
            final(store).sets() == old(store).sets().insert(c.store_id(), Set::<usize>::empty()),
            final(store).thread_id() == old(store).thread_id(),
            c.thread_id() == old(store).thread_id(),
    {
        let store_id = cells_insert(&mut store.store, BTreeSet::new());
        LocalCell { store_id, thread_id: store.thread_id }
    }

    /// Takes the ids collected so far, leaving the set empty.
    pub fn fetch(&mut self, store: &mut LocalStore) -> (ids: BTreeSet<usize>)
        requires
            old(store).sets().contains_key(old(self).store_id()),
        ensures
            ids@ == old(store).sets()[old(self).store_id()],
            final(store).sets() == old(store).sets().insert(old(self).store_id(), Set::<usize>::empty()),
            final(store).thread_id() == old(store).thread_id(),
            *final(self) == *old(self),
    {
        let mut ids = BTreeSet::new();
        std::mem::swap(cells_index_mut(&mut store.store, self.store_id), &mut ids);
        ids
    }

    /// Drops the cell, freeing its set.
    pub fn release(self, store: &mut LocalStore)
        requires
            old(store).sets().contains_key(self.store_id()),
        ensures
            final(store).sets() == old(store).sets().remove(self.store_id()),
            final(store).thread_id() == old(store).thread_id(),
    {
        let _ = cells_remove(&mut store.store, self.store_id);
    }
}

impl LocalCellRef {
    pub closed spec fn thread_id(&self) -> u32 {
        self.thread_id
    }

    pub closed spec fn store_id(&self) -> usize {
        self.store_id
    }

    /// A reference to `cell`.
    pub fn from(cell: &LocalCell) -> (r: Self)
        ensures
            r.thread_id() == cell.thread_id(),
            r.store_id() == cell.store_id(),
    {
        LocalCellRef { thread_id: cell.thread_id, store_id: cell.store_id }
    }

    /// Adds `task_id` to the cell's set.  Fails from another thread than the
    /// cell's, or when the cell is gone; otherwise tells whether the id was
    /// new to the set.
    pub fn notify(&self, store: &mut LocalStore, task_id: usize) -> (r: Result<bool, ()>)
        ensures
            final(store).thread_id() == old(store).thread_id(),
            (self.thread_id() != old(store).thread_id() || !old(store).sets().contains_key(self.store_id())) ==> {
                &&& r is Err
                &&& final(store).sets() == old(store).sets()
            },
            (self.thread_id() == old(store).thread_id() && old(store).sets().contains_key(self.store_id())) ==> {
                &&& r == Ok::<bool, ()>(!old(store).sets()[self.store_id()].contains(task_id))
                &&& final(store).sets() == old(store).sets().insert(self.store_id(),
                    old(store).sets()[self.store_id()].insert(task_id))
            },
    {
        if self.thread_id != store.thread_id {
            return Err(());
        }
        if !cells_contains(&store.store, self.store_id) {
            return Err(());
        }
        let added = cells_index_mut(&mut store.store, self.store_id).insert(task_id);
        proof {
            assert(store.sets() =~= old(store).sets().insert(self.store_id(),
                old(store).sets()[self.store_id()].insert(task_id)));
        }
        Ok(added)
    }
}

} // verus!
