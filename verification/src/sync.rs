//! Trusted views of the concurrent containers the table is built on.
//!
//! The two indices are `dashmap::DashMap` shards and the id counter is a
//! `crossbeam::atomic::AtomicCell`; Verus sees them only through the names
//! and wrappers below. Each wrapper's contract states what the container's
//! source shows of the one call its body makes.

use vstd::prelude::*;

use crate::model::empty_table;

use crossbeam::atomic::AtomicCell;
use dashmap::DashMap;

verus! {

#[verifier::external_type_specification]
#[verifier::external_body]
#[verifier::reject_recursive_types(K)]
#[verifier::reject_recursive_types(V)]
#[verifier::reject_recursive_types(S)]
pub struct ExDashMap<K, V, S>(DashMap<K, V, S>);

#[verifier::external_type_specification]
#[verifier::external_body]
#[verifier::reject_recursive_types(T)]
pub struct ExAtomicCell<T>(AtomicCell<T>);

/// The entries of a forward index: which id each value is mapped to.
pub uninterp spec fn key_map_model(m: DashMap<String, u32>) -> Map<Seq<char>, u32>;

/// The entries of a backward index: which value each id is mapped to.
pub uninterp spec fn value_map_model(m: DashMap<u32, String>) -> Map<u32, Seq<char>>;

/// The value a counter cell holds.
pub uninterp spec fn cell_model(c: AtomicCell<u32>) -> u32;

/// Relies on `dashmap::DashMap::new`: the new map is empty.
#[verifier::external_body]
pub(crate) fn key_map_new() -> (m: DashMap<String, u32>)
    ensures
        key_map_model(m) == empty_table().keys,
{
    DashMap::new()
}

/// Relies on `dashmap::DashMap::get`, with `String` keys compared by
/// equality of their characters: returns the mapped value on a hit, `None`
/// on a miss.
#[verifier::external_body]
pub(crate) fn key_map_get(m: &DashMap<String, u32>, key: &String) -> (id: Option<u32>)
    ensures
        id == if key_map_model(*m).contains_key(key@) {
            Some(key_map_model(*m)[key@])
        } else {
            None::<u32>
        },
{
    m.get(key).map(|entry| *entry.value())
}

/// Relies on `dashmap::DashMap::insert`: maps the key to the value,
/// replacing any earlier entry for an equal key.
#[verifier::external_body]
pub(crate) fn key_map_insert(m: &mut DashMap<String, u32>, key: String, id: u32)
    ensures
        key_map_model(*final(m)) == key_map_model(*old(m)).insert(key@, id),
{
    m.insert(key, id);
}

/// Relies on `dashmap::DashMap::clear`: removes every entry.
#[verifier::external_body]
pub(crate) fn key_map_clear(m: &mut DashMap<String, u32>)
    ensures
        key_map_model(*final(m)) == empty_table().keys,
{
    m.clear();
}

/// Relies on `dashmap::DashMap::new`: the new map is empty.
#[verifier::external_body]
pub(crate) fn value_map_new() -> (m: DashMap<u32, String>)
    ensures
        value_map_model(m) == empty_table().values,
{
    DashMap::new()
}

/// Relies on `dashmap::DashMap::get`: returns a copy of the mapped value on
/// a hit, `None` on a miss.
#[verifier::external_body]
pub(crate) fn value_map_get(m: &DashMap<u32, String>, key: u32) -> (value: Option<String>)
    ensures
        (match value {
            Some(s) => value_map_model(*m).contains_key(key) && s@ == value_map_model(*m)[key],
            None => !value_map_model(*m).contains_key(key),
        }),
{
    m.get(&key).map(|entry| entry.value().clone())
}

/// Relies on `dashmap::DashMap::insert`: maps the key to the value and
/// returns the value the key was mapped to before, if any.
#[verifier::external_body]
pub(crate) fn value_map_insert(m: &mut DashMap<u32, String>, key: u32, value: String) -> (previous:
    Option<String>)
    ensures
        value_map_model(*final(m)) == value_map_model(*old(m)).insert(key, value@),
        (match previous {
            Some(s) => value_map_model(*old(m)).contains_key(key) && s@ == value_map_model(
                *old(m),
            )[key],
            None => !value_map_model(*old(m)).contains_key(key),
        }),
{
    m.insert(key, value)
}

/// Relies on `dashmap::DashMap::clear`: removes every entry.
#[verifier::external_body]
pub(crate) fn value_map_clear(m: &mut DashMap<u32, String>)
    ensures
        value_map_model(*final(m)) == empty_table().values,
{
    m.clear();
}

/// Relies on `crossbeam::atomic::AtomicCell::new`: the cell starts at the
/// given value.
#[verifier::external_body]
pub(crate) fn counter_new(start: u32) -> (c: AtomicCell<u32>)
    ensures
        cell_model(c) == start,
{
    AtomicCell::new(start)
}

/// Relies on `crossbeam::atomic::AtomicCell::fetch_add`: adds one to the
/// cell and returns the previous value. `fetch_add` wraps on overflow, so
/// the caller must keep the sum in range.
#[verifier::external_body]
pub(crate) fn counter_fetch_add_one(c: &mut AtomicCell<u32>) -> (previous: u32)
    requires
        cell_model(*old(c)) < u32::MAX,
    ensures
        previous == cell_model(*old(c)),
        cell_model(*final(c)) == previous + 1,
{
    c.fetch_add(1)
}

} // verus!
