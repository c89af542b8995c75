//! The simulation store: entities and the plain component values they own.
//!
//! Entities are opaque identifiers handed out by the store; each owns a set of
//! component slots, at most one per component type. Systems mutate these values
//! during the update phase and nowhere else.

use vstd::prelude::*;

verus! {

/// One component value held by an entity: a plain counter-like value tagged
/// with the component type it belongs to.
#[derive(Clone, Copy, PartialEq, Eq, Structural, Debug)]
pub struct ComponentSlot {
    pub type_id: u64,
    pub value: i64,
}

/// The mathematical shape of one stored entity: its identifier and the
/// components it owns.
#[verifier::ext_equal]
pub struct EntityShape {
    pub id: u64,
    pub comps: Seq<ComponentSlot>,
}

/// One stored entity: an identifier plus its component slots.
pub struct EntityRecord {
    pub id: u64,
    pub components: Vec<ComponentSlot>,
}

impl View for EntityRecord {
    type V = EntityShape;

    open spec fn view(&self) -> EntityShape {
        EntityShape { id: self.id, comps: self.components@ }
    }
}

/// A sequence of slots is well formed when no component type occurs twice:
/// an entity owns at most one component of each type.
pub open spec fn slots_wf(cs: Seq<ComponentSlot>) -> bool {
    forall|p: int, q: int| 0 <= p < q < cs.len() ==> cs[p].type_id != cs[q].type_id
}

/// The entity store. Mutated only through its methods; the `Schedule` sweeps
/// it once per simulation update.
pub struct World {
    pub entities: Vec<EntityRecord>,
    pub next_id: u64,
}

impl View for World {
    type V = Seq<EntityShape>;

    open spec fn view(&self) -> Seq<EntityShape> {
        self.entities@.map(|i: int, e: EntityRecord| e@)
    }
}

/// First-match lookup of a component value among an entity's slots.
pub open spec fn slot_value(cs: Seq<ComponentSlot>, type_id: u64) -> Option<i64>
    decreases cs.len(),
{
    if cs.len() == 0 {
        None
    } else if cs[0].type_id == type_id {
        Some(cs[0].value)
    } else {
        slot_value(cs.drop_first(), type_id)
    }
}

/// First-match lookup of one component of one entity in the store.
pub open spec fn entity_component(w: Seq<EntityShape>, id: u64, type_id: u64) -> Option<i64>
    decreases w.len(),
{
    if w.len() == 0 {
        None
    } else if w[0].id == id {
        slot_value(w[0].comps, type_id)
    } else {
        entity_component(w.drop_first(), id, type_id)
    }
}

/// Whether the store holds an entity with the given identifier.
pub open spec fn has_entity(w: Seq<EntityShape>, id: u64) -> bool {
    exists|i: int| 0 <= i < w.len() && w[i].id == id
}

impl World {
    /// Entity identifiers are pairwise distinct and below the allocation
    /// counter, and every entity's slots are well formed.
    pub open spec fn wf(&self) -> bool {
        &&& forall|i: int, j: int| 0 <= i < j < self@.len() ==> self@[i].id != self@[j].id
        &&& forall|i: int| 0 <= i < self@.len() ==> (#[trigger] self@[i]).id < self.next_id
        &&& forall|i: int| 0 <= i < self@.len() ==> slots_wf((#[trigger] self@[i]).comps)
    }

    /// An empty store.
    pub fn new() -> (w: World)
        ensures
            w@ == Seq::<EntityShape>::empty(),
            w.wf(),
            w.next_id == 0,
    {
        let w = World { entities: Vec::new(), next_id: 0 };
        proof {
            assert(w@ =~= Seq::<EntityShape>::empty());
        }
        w
    }

    /// How many entities the store holds.
    pub fn entity_count(&self) -> (n: usize)
        ensures
            n == self@.len(),
    {
        self.entities.len()
    }

    /// Creates one entity owning the given components and returns its fresh
    /// identifier.
    pub fn push(&mut self, components: Vec<ComponentSlot>) -> (id: u64)
        requires
            old(self).wf(),
            slots_wf(components@),
            old(self).next_id < u64::MAX,
        ensures
            id == old(self).next_id,
            final(self)@ == old(self)@.push(EntityShape { id, comps: components@ }),
            final(self).next_id == old(self).next_id + 1,
            final(self).wf(),
    {
        let ghost cs = components@;
        let ghost pre = self@;
        let id = self.next_id;
        self.entities.push(EntityRecord { id, components });
        self.next_id = id + 1;
        proof {
            assert(self@ =~= pre.push(EntityShape { id, comps: cs }));
        }
        id
    }

    /// Removes the entity with the given identifier, if the store holds one;
    /// reports whether it did.
    pub fn destroy(&mut self, id: u64) -> (removed: bool)
        requires
            old(self).wf(),
        ensures
            removed == has_entity(old(self)@, id),
            !removed ==> final(self)@ == old(self)@,
            removed ==> exists|i: int|
                0 <= i < old(self)@.len() && old(self)@[i].id == id && final(self)@ == old(
                    self,
                )@.remove(i),
            final(self).next_id == old(self).next_id,
            final(self).wf(),
    {
        let ghost pre = self@;
        let n = self.entities.len();
        let mut i: usize = 0;
        while i < n
            invariant
                n == self.entities.len(),
                0 <= i <= n,
                forall|j: int| 0 <= j < i ==> self@[j].id != id,
                self == old(self),
                pre == self@,
                old(self).wf(),
            decreases n - i,
        {
            if self.entities[i].id == id {
                self.entities.remove(i);
                proof {
                    assert(pre[i as int].id == id);
                    assert(self@ =~= pre.remove(i as int));
                    assert forall|p: int, q: int| 0 <= p < q < self@.len() implies self@[p].id
                        != self@[q].id by {
                        let p0: int = if p < i { p } else { p + 1 };
                        let q0: int = if q < i { q } else { q + 1 };
                        assert(self@[p] == pre[p0]);
                        assert(self@[q] == pre[q0]);
                    }
                    assert forall|p: int| 0 <= p < self@.len() implies (#[trigger] self@[p]).id
                        < self.next_id && slots_wf(self@[p].comps) by {
                        let p0: int = if p < i { p } else { p + 1 };
                        assert(self@[p] == pre[p0]);
                    }
                }
                return true;
            }
            i += 1;
        }
        proof {
            assert(!has_entity(pre, id));
        }
        false
    }

    /// Reads one component value of one entity, `None` when the entity or the
    /// component is absent.
    pub fn get_component(&self, id: u64, type_id: u64) -> (r: Option<i64>)
        ensures
            r == entity_component(self@, id, type_id),
    {
        let n = self.entities.len();
        let mut i: usize = 0;
        proof {
            assert(self@.skip(0) =~= self@);
        }
        while i < n
            invariant
                n == self.entities.len(),
                0 <= i <= n,
                entity_component(self@, id, type_id) == entity_component(
                    self@.skip(i as int),
                    id,
                    type_id,
                ),
            decreases n - i,
        {
            proof {
                assert(self@.skip(i as int).drop_first() =~= self@.skip(i as int + 1));
                assert(self@.skip(i as int)[0] == self@[i as int]);
            }
            if self.entities[i].id == id {
                return self.slots_lookup(i, type_id);
            }
            i += 1;
        }
        None
    }

    /// First-match scan of the slots of the entity at index `i`.
    fn slots_lookup(&self, i: usize, type_id: u64) -> (r: Option<i64>)
        requires
            i < self@.len(),
        ensures
            r == slot_value(self@[i as int].comps, type_id),
    {
        let cs = &self.entities[i].components;
        let m = cs.len();
        let mut j: usize = 0;
        proof {
            assert(cs@.skip(0) =~= cs@);
        }
        while j < m
            invariant
                i < self@.len(),
                cs == &self.entities@[i as int].components,
                m == cs.len(),
                0 <= j <= m,
                slot_value(self@[i as int].comps, type_id) == slot_value(
                    cs@.skip(j as int),
                    type_id,
                ),
            decreases m - j,
        {
            proof {
                assert(cs@.skip(j as int).drop_first() =~= cs@.skip(j as int + 1));
                assert(cs@.skip(j as int)[0] == cs@[j as int]);
            }
            if cs[j].type_id == type_id {
                return Some(cs[j].value);
            }
            j += 1;
        }
        None
    }
}

} // verus!
