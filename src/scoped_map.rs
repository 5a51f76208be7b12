use crate::slot_table::{slot_table, table_get, table_insert, table_new};
use ahash::AHashMap;
use std::any::TypeId;
use vstd::prelude::*;

verus! {

/// What a lookup under `id` yields in the abstract map `m`.
pub open spec fn lookup<V>(m: Map<TypeId, V>, id: TypeId) -> Option<V> {
    if m.contains_key(id) {
        Some(m[id])
    } else {
        None
    }
}

/// At most one value per type identity.
///
/// `V` is the form in which values are held: to keep values of mixed types, a
/// box behind a trait object whose lifetime bounds how long the values it holds
/// must stay valid. The map itself never looks inside a value.
///
/// Each identity present in `index` names a position in `values`; distinct
/// identities name distinct positions, so a value reached through one identity
/// is never reached through another.
pub struct ScopedAnyMap<V> {
    index: AHashMap<TypeId, usize>,
    values: Vec<V>,
}

impl<V> View for ScopedAnyMap<V> {
    type V = Map<TypeId, V>;

    closed spec fn view(&self) -> Map<TypeId, V> {
        Map::new(
            |id: TypeId| slot_table(self.index).contains_key(id),
            |id: TypeId| self.values@[slot_table(self.index)[id] as int],
        )
    }
}

impl<V> ScopedAnyMap<V> {
    /// Every identity names a position inside `values`, and no two identities
    /// name the same position.
    pub closed spec fn wf(&self) -> bool {
        let t = slot_table(self.index);
        &&& forall|id: TypeId| #[trigger] t.contains_key(id) ==> t[id] < self.values.len()
        &&& forall|a: TypeId, b: TypeId|
            #[trigger] t.contains_key(a) && #[trigger] t.contains_key(b) && a != b ==> t[a] != t[b]
    }

    /// An empty map.
    pub fn new() -> (r: Self)
        ensures
            r.wf(),
            r@ == Map::<TypeId, V>::empty(),
    {
        let r = ScopedAnyMap { index: table_new(), values: Vec::new() };
        assert(r@ =~= Map::<TypeId, V>::empty());
        r
    }

    /// Stores `value` under `id`, replacing (and dropping) any value stored there before.
    pub fn insert(&mut self, id: TypeId, value: V)
        requires
            old(self).wf(),
        ensures
            final(self).wf(),
            final(self)@ == old(self)@.insert(id, value),
    {
        match table_get(&self.index, &id) {
            Some(pos) => {
                self.values.set(pos, value);
            },
            None => {
                let pos = self.values.len();
                self.values.push(value);
                table_insert(&mut self.index, id, pos);
            },
        }
        assert(self@ =~= old(self)@.insert(id, value));
    }

    /// A shared reference to the value stored under `id`, if there is one.
    pub fn get_ref(&self, id: &TypeId) -> (r: Option<&V>)
        requires
            self.wf(),
        ensures
            match r {
                Some(v) => lookup(self@, *id) == Some(*v),
                None => lookup(self@, *id).is_none(),
            },
    {
        match table_get(&self.index, id) {
            Some(pos) => Some(&self.values[pos]),
            None => None,
        }
    }

    /// An exclusive reference to the value stored under `id`, if there is one.
    /// What is written through it is what the map holds under `id` afterwards.
    pub fn get_mut(&mut self, id: &TypeId) -> (r: Option<&mut V>)
        requires
            old(self).wf(),
        ensures
            final(self).wf(),
            match r {
                Some(v) => {
                    &&& lookup(old(self)@, *id) == Some(*v)
                    &&& final(self)@ == old(self)@.insert(*id, *final(v))
                },
                None => {
                    &&& lookup(old(self)@, *id).is_none()
                    &&& final(self)@ == old(self)@
                },
            },
    {
        match table_get(&self.index, id) {
            Some(pos) => Some(&mut self.values[pos]),
            None => None,
        }
    }
}

impl<V> Default for ScopedAnyMap<V> {
    /// An empty map.
    fn default() -> (r: Self)
        ensures
            r.wf(),
            r@ == Map::<TypeId, V>::empty(),
    {
        Self::new()
    }
}

} // verus!
