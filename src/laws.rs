//! Properties of the slot store, stated over the `Map<TypeId, V>` model that the
//! contracts of `ScopedAnyMap` use.

use crate::scoped_map::lookup;
use std::any::TypeId;
use vstd::prelude::*;

verus! {

/// The model after applying `ops` in order, each an `insert` of a value under an
/// identity, starting from the model `m`.
pub open spec fn after_inserts<V>(m: Map<TypeId, V>, ops: Seq<(TypeId, V)>) -> Map<TypeId, V>
    decreases ops.len(),
{
    if ops.len() == 0 {
        m
    } else {
        after_inserts(m, ops.drop_last()).insert(ops.last().0, ops.last().1)
    }
}

/// Whatever was inserted before, a second insert under an identity wins: a lookup
/// under it yields the new value, never the one it replaced.
pub proof fn lemma_latest_insert_wins<V>(
    m: Map<TypeId, V>,
    ops: Seq<(TypeId, V)>,
    id: TypeId,
    first: V,
    second: V,
)
    requires
        ops.contains((id, first)),
    ensures
        lookup(after_inserts(m, ops.push((id, second))), id) == Some(second),
        first != second ==> lookup(after_inserts(m, ops.push((id, second))), id) != Some(first),
{
    assert(ops.push((id, second)).drop_last() =~= ops);
}

/// Values under two distinct identities are independent: inserting under one
/// leaves what a lookup under the other yields unchanged, and each lookup
/// yields its own value.
pub proof fn lemma_identities_separate<V>(m: Map<TypeId, V>, a: TypeId, b: TypeId, va: V, vb: V)
    requires
        a != b,
    ensures
        lookup(m.insert(b, vb), a) == lookup(m, a),
        lookup(m.insert(a, va).insert(b, vb), a) == Some(va),
        lookup(m.insert(a, va).insert(b, vb), b) == Some(vb),
{
}

/// A freshly created map holds nothing under any identity.
pub proof fn lemma_fresh_map_holds_nothing<V>(id: TypeId)
    ensures
        lookup(Map::<TypeId, V>::empty(), id).is_none(),
{
}

/// A lookup right after an insert yields the inserted value.
pub proof fn lemma_round_trip<V>(m: Map<TypeId, V>, id: TypeId, v: V)
    ensures
        lookup(m.insert(id, v), id) == Some(v),
{
}

/// A value written in place through the reference that `get_mut` hands out is
/// what a later lookup under that identity yields; other identities keep theirs.
pub proof fn lemma_mutation_visible<V>(m: Map<TypeId, V>, id: TypeId, other: TypeId, written: V)
    requires
        m.contains_key(id),
        other != id,
    ensures
        lookup(m.insert(id, written), id) == Some(written),
        lookup(m.insert(id, written), other) == lookup(m, other),
{
}

/// Inserting under one identity alone leaves every other identity empty: a value
/// stored under the identity of `&mut i32` is not found under that of `i32`.
pub proof fn lemma_only_inserted_identity_occupied<V>(stored: TypeId, asked: TypeId, v: V)
    requires
        stored != asked,
    ensures
        lookup(Map::<TypeId, V>::empty().insert(stored, v), asked).is_none(),
{
}

} // verus!
