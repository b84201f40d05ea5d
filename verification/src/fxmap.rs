//! Hash maps of the `fxhash` crate, keyed by bare identifiers.
//!
//! `FxHashMap` is the standard hash map with the hasher of `fxhash`. What a
//! map holds is its view, a mathematical map; the functions below state what
//! each method of the map does to that view.

use fxhash::FxHashMap;
use vstd::prelude::*;

verus! {

/// The hasher of `fxhash`, of which nothing is stated.
#[verifier::external_type_specification]
#[verifier::external_body]
pub struct ExFxHasher(fxhash::FxHasher);

/// The standard builder of hashers that `FxHashMap` is made with, of which
/// nothing is stated.
#[verifier::external_type_specification]
#[verifier::external_body]
#[verifier::reject_recursive_types(H)]
pub struct ExBuildHasherDefault<H>(std::hash::BuildHasherDefault<H>);

/// Calls `FxHashMap::default`, which makes a map that holds nothing.
#[verifier::external_body]
pub(crate) fn map_new<V>() -> (m: FxHashMap<usize, V>)
    ensures
        m@ == (Map::<usize, V>::empty()),
{
    FxHashMap::default()
}

/// Calls `HashMap::insert`, which binds `key` to `value` and returns the
/// value that `key` was bound to before, if there was one.
#[verifier::external_body]
pub(crate) fn map_insert<V>(m: &mut FxHashMap<usize, V>, key: usize, value: V) -> (r: Option<V>)
    ensures
        final(m)@ == old(m)@.insert(key, value),
        r == if old(m)@.contains_key(key) { Some(old(m)@[key]) } else { None },
{
    m.insert(key, value)
}

/// Calls `HashMap::remove`, which unbinds `key` and returns the value that
/// it was bound to, if there was one.
#[verifier::external_body]
pub(crate) fn map_remove<V>(m: &mut FxHashMap<usize, V>, key: usize) -> (r: Option<V>)
    ensures
        final(m)@ == old(m)@.remove(key),
        r == if old(m)@.contains_key(key) { Some(old(m)@[key]) } else { None },
{
    m.remove(&key)
}

/// Calls `HashMap::get`, which finds the value that `key` is bound to, if
/// there is one; the value is copied out.
#[verifier::external_body]
pub(crate) fn map_get<V: Copy>(m: &FxHashMap<usize, V>, key: usize) -> (r: Option<V>)
    ensures
        r == if m@.contains_key(key) { Some(m@[key]) } else { None },
{
    m.get(&key).copied()
}

/// Calls `HashMap::keys`, which visits every key of the map once, in an
/// order that the map chooses; the keys are collected in that order.
#[verifier::external_body]
pub(crate) fn map_keys<V>(m: &FxHashMap<usize, V>) -> (r: Vec<usize>)
    ensures
        r@.no_duplicates(),
        forall|key: usize| r@.contains(key) <==> m@.contains_key(key),
{
    m.keys().copied().collect()
}

} // verus!
