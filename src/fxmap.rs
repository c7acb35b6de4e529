//! Id-keyed hash tables backed by `rustc_hash::FxHashMap`.
use vstd::prelude::*;
use rustc_hash::{FxHashMap, FxHasher};
use std::hash::BuildHasherDefault;

verus! {

#[verifier::external_type_specification]
#[verifier::external_body]
pub struct ExFxHasher(FxHasher);

#[verifier::external_type_specification]
#[verifier::external_body]
#[verifier::reject_recursive_types(H)]
pub struct ExBuildHasherDefault<H>(BuildHasherDefault<H>);

/// A table keyed by small integer ids.
pub type FxMap<V> = FxHashMap<u32, V>;

/// Relies on `FxHashMap::default` (std `HashMap::default` with `FxHasher`): an empty map.
#[verifier::external_body]
pub(crate) fn fx_new<V>() -> (r: FxMap<V>)
    ensures
        r@.dom() == Set::<u32>::empty(),
{
    FxHashMap::default()
}

/// Relies on std `HashMap::insert`: the entry for `k` becomes `v`; the previous value is returned.
#[verifier::external_body]
pub(crate) fn fx_insert<V>(m: &mut FxMap<V>, k: u32, v: V) -> (r: Option<V>)
    ensures
        final(m)@ == old(m)@.insert(k, v),
        match r {
            Some(p) => old(m)@.contains_key(k) && p == old(m)@[k],
            None => !old(m)@.contains_key(k),
        },
{
    m.insert(k, v)
}

/// Relies on std `HashMap::get`: the value stored for `k`, if any.
#[verifier::external_body]
pub(crate) fn fx_get<V>(m: &FxMap<V>, k: u32) -> (r: Option<&V>)
    ensures
        match r {
            Some(p) => m@.contains_key(k) && *p == m@[k],
            None => !m@.contains_key(k),
        },
{
    m.get(&k)
}

/// Relies on std `HashMap::drain`: every entry is handed out once and the map is left empty.
#[verifier::external_body]
pub(crate) fn fx_drain<V>(m: &mut FxMap<V>) -> (r: Vec<(u32, V)>)
    ensures
        final(m)@.dom() == Set::<u32>::empty(),
        forall|k: u32| old(m)@.contains_key(k) ==> exists|i: int| 0 <= i < r@.len() && #[trigger] r@[i].0 == k,
        forall|i: int, j: int| 0 <= i < j < r@.len() ==> r@[i].0 != r@[j].0,
        forall|i: int| 0 <= i < r@.len() ==> old(m)@.contains_key(#[trigger] r@[i].0) && old(m)@[r@[i].0] == r@[i].1,
{
    m.drain().collect()
}

} // verus!
