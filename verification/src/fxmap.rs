//! The hash maps of the index, hashed with the Fx algorithm: maps from ids
//! and the table from names to ids.
//!
//! The map type is the standard library's, parameterised by the hasher of the
//! `rustc_hash` crate. The functions here are the only way the library touches
//! such a map; each is trusted to act on what the map holds as stated. What a
//! map from ids holds is its view; what the name table holds is named
//! [`name_table`], with names as sequences of characters.

use rustc_hash::FxHashMap;
use vstd::prelude::*;

verus! {

/// The hasher builder `rustc_hash::FxBuildHasher`, declared so that the maps
/// hashed with it can be named. Nothing is stated of it.
#[verifier::external_type_specification]
#[verifier::external_body]
pub struct ExFxBuildHasher(rustc_hash::FxBuildHasher);

/// Makes an empty map with `FxHashMap::default`.
///
/// Trusted: a map made this way has no key.
#[verifier::external_body]
pub(crate) fn fx_new<V>() -> (m: FxHashMap<u32, V>)
    ensures
        m@.dom() == Set::<u32>::empty(),
{
    FxHashMap::default()
}

/// Stores `value` under `key` with `HashMap::insert`, dropping what the key
/// held before.
///
/// Trusted: afterwards the map is the old one with `key` bound to `value`.
#[verifier::external_body]
pub(crate) fn fx_insert<V>(m: &mut FxHashMap<u32, V>, key: u32, value: V)
    ensures
        final(m)@ == old(m)@.insert(key, value),
{
    m.insert(key, value);
}

/// Looks `key` up with `HashMap::get`.
///
/// Trusted: the result is the value bound to `key`, if there is one.
#[verifier::external_body]
pub(crate) fn fx_get<'a, V>(m: &'a FxHashMap<u32, V>, key: u32) -> (r: Option<&'a V>)
    ensures
        r == (if m@.contains_key(key) {
            Some(&m@[key])
        } else {
            None
        }),
{
    m.get(&key)
}

/// Counts the entries with `HashMap::len`.
///
/// Trusted: the count is the size of the map's domain.
#[verifier::external_body]
pub(crate) fn fx_len<V>(m: &FxHashMap<u32, V>) -> (n: usize)
    ensures
        n == m@.dom().len(),
{
    m.len()
}

/// Lists the keys with `HashMap::keys`.
///
/// Trusted: every key of the map is listed exactly once. The order of the
/// list is the order in which the map is walked, of which nothing is stated.
#[verifier::external_body]
pub(crate) fn fx_keys<V>(m: &FxHashMap<u32, V>) -> (keys: Vec<u32>)
    ensures
        keys@.no_duplicates(),
        keys@.to_set() == m@.dom(),
{
    m.keys().copied().collect()
}

/// What a name table holds: the id stored under each name.
pub uninterp spec fn name_table(m: FxHashMap<String, u32>) -> Map<Seq<char>, u32>;

/// Makes an empty name table with `FxHashMap::default`.
///
/// Trusted: a table made this way has no name.
#[verifier::external_body]
pub(crate) fn names_new() -> (m: FxHashMap<String, u32>)
    ensures
        name_table(m).dom() == Set::<Seq<char>>::empty(),
{
    FxHashMap::default()
}

/// Stores `id` under `name` with `HashMap::insert`, dropping what the name
/// held before.
///
/// Trusted: afterwards the table is the old one with `name` bound to `id`.
/// Two strings are the same key exactly when they hold the same characters.
#[verifier::external_body]
pub(crate) fn names_insert(m: &mut FxHashMap<String, u32>, name: String, id: u32)
    ensures
        name_table(*final(m)) == name_table(*old(m)).insert(name@, id),
{
    m.insert(name, id);
}

/// Looks `name` up with `HashMap::get`.
///
/// Trusted: the result is the id bound to `name`, if there is one.
#[verifier::external_body]
pub(crate) fn names_get(m: &FxHashMap<String, u32>, name: &str) -> (r: Option<u32>)
    ensures
        r == (if name_table(*m).contains_key(name@) {
            Some(name_table(*m)[name@])
        } else {
            None
        }),
{
    m.get(name).copied()
}

} // verus!
