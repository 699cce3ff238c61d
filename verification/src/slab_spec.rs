//! The `slab` crate's `Slab`, as the logic sees it: a map from keys to
//! values, whose `insert` picks a key that is not in use.
use vstd::prelude::*;
use slab::Slab;

verus! {

/// `slab::Slab`, declared so that it can be held and passed around.
#[verifier::external_type_specification]
#[verifier::external_body]
#[verifier::reject_recursive_types(T)]
pub struct ExSlab<T>(Slab<T>);

/// The entries of a slab of task slots, by key.
pub uninterp spec fn task_slots(s: Slab<bool>) -> Map<usize, bool>;

/// `Slab::new`: a slab with no entries.
#[verifier::external_body]
pub(crate) fn slots_new() -> (slab: Slab<bool>)
    ensures
        task_slots(slab).dom() == Set::<usize>::empty(),
{
    Slab::new()
}

/// `Slab::insert`: stores `v` under the key it returns, which was vacant.
/// Which vacant key it is (the most recently freed one, else the next
/// unused index) is not claimed.
#[verifier::external_body]
pub(crate) fn slots_insert(s: &mut Slab<bool>, v: bool) -> (key: usize)
    ensures
        !task_slots(*old(s)).contains_key(key),
        task_slots(*final(s)) == task_slots(*old(s)).insert(key, v),
{
    s.insert(v)
}

/// `Slab::get`: the value under `key`, if the key is in use.
#[verifier::external_body]
pub(crate) fn slots_get(s: &Slab<bool>, key: usize) -> (r: Option<bool>)
    ensures
        r == (if task_slots(*s).contains_key(key) { Some(task_slots(*s)[key]) } else { None::<bool> }),
{
    s.get(key).copied()
}

/// `IndexMut` of `Slab`: overwrites the value under a key in use (the index
/// panics on a vacant key).
#[verifier::external_body]
pub(crate) fn slots_set(s: &mut Slab<bool>, key: usize, v: bool)
    requires
        task_slots(*old(s)).contains_key(key),
    ensures
        task_slots(*final(s)) == task_slots(*old(s)).insert(key, v),
{
    s[key] = v;
}

/// `Slab::remove`: takes the value out of a key in use and frees the key
/// (it panics on a vacant key).
#[verifier::external_body]
pub(crate) fn slots_remove(s: &mut Slab<bool>, key: usize) -> (v: bool)
    requires
        task_slots(*old(s)).contains_key(key),
    ensures
        v == task_slots(*old(s))[key],
        task_slots(*final(s)) == task_slots(*old(s)).remove(key),
{
    s.remove(key)
}

/// `Slab::try_remove`: like `remove`, but `None` and no change on a vacant key.
#[verifier::external_body]
pub(crate) fn slots_try_remove(s: &mut Slab<bool>, key: usize) -> (v: Option<bool>)
    ensures
        v == (if task_slots(*old(s)).contains_key(key) { Some(task_slots(*old(s))[key]) } else { None::<bool> }),
        task_slots(*final(s)) == task_slots(*old(s)).remove(key),
{
    s.try_remove(key)
}

} // verus!
