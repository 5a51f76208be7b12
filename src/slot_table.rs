use ahash::AHashMap;
use std::any::TypeId;
use vstd::prelude::*;

verus! {

/// `std::any::TypeId`: an opaque identity, compared by value.
#[verifier::external_type_specification]
#[verifier::external_body]
pub struct ExTypeId(TypeId);

/// `ahash::AHashMap`: a hash map with aHash's hasher.
#[verifier::external_type_specification]
#[verifier::external_body]
#[verifier::reject_recursive_types(K)]
#[verifier::reject_recursive_types(V)]
#[verifier::reject_recursive_types(S)]
pub struct ExAHashMap<K, V, S>(AHashMap<K, V, S>);

/// `ahash::RandomState`: the hasher builder that `AHashMap` uses by default.
#[verifier::external_type_specification]
#[verifier::external_body]
pub struct ExRandomState(ahash::RandomState);

/// The entries that a table from type identities to slot positions holds.
pub uninterp spec fn slot_table(t: AHashMap<TypeId, usize>) -> Map<TypeId, usize>;

/// Relies on `AHashMap::new`: the new map holds no entries.
#[verifier::external_body]
pub(crate) fn table_new() -> (r: AHashMap<TypeId, usize>)
    ensures
        slot_table(r).dom() == Set::<TypeId>::empty(),
{
    AHashMap::new()
}

/// Relies on `AHashMap::get`: the value stored under the key, if there is one.
#[verifier::external_body]
pub(crate) fn table_get(t: &AHashMap<TypeId, usize>, k: &TypeId) -> (r: Option<usize>)
    ensures
        slot_table(*t).contains_key(*k) ==> r == Some(slot_table(*t)[*k]),
        !slot_table(*t).contains_key(*k) ==> r.is_none(),
{
    t.get(k).copied()
}

/// Relies on `AHashMap::insert`: the key maps to the value afterwards, and every
/// other entry is kept.
#[verifier::external_body]
pub(crate) fn table_insert(t: &mut AHashMap<TypeId, usize>, k: TypeId, v: usize)
    ensures
        slot_table(*final(t)) == slot_table(*old(t)).insert(k, v),
{
    t.insert(k, v);
}

} // verus!
