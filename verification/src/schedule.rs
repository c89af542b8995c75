//! Update systems and the compiled schedule that sweeps them over the store.
//!
//! A system is a registered update function over one component type, carrying
//! its declared write access so the builder can reject conflicts. A schedule
//! is the immutable, ordered collection of systems compiled once by the
//! builder; `execute` applies every system's effect exactly once per call.

use vstd::prelude::*;

use crate::store::ComponentSlot;
use crate::store::EntityShape;
use crate::store::EntityRecord;
use crate::store::World;
use crate::store::slots_wf;

verus! {

/// What a system does to each component value of its declared type.
#[derive(Clone, Copy, PartialEq, Eq, Structural, Debug)]
pub enum SystemOp {
    /// Add the given amount, saturating at the ends of the value range.
    AddDelta(i64),
    /// Overwrite with the given value.
    SetValue(i64),
}

/// A registered update function: the component type it writes, and the update
/// it applies to every component of that type, entity by entity.
#[derive(Clone, Copy, PartialEq, Eq, Structural, Debug)]
pub struct System {
    pub writes: u64,
    pub op: SystemOp,
}

/// Addition on component values that saturates instead of wrapping.
pub open spec fn sat_add(a: i64, b: i64) -> i64 {
    if a + b > i64::MAX {
        i64::MAX
    } else if a + b < i64::MIN {
        i64::MIN
    } else {
        (a + b) as i64
    }
}

/// The value a system op produces from one component value.
pub open spec fn step_value(op: SystemOp, v: i64) -> i64 {
    match op {
        SystemOp::AddDelta(d) => sat_add(v, d),
        SystemOp::SetValue(x) => x,
    }
}

/// One system's effect on one component slot: slots of other types are left
/// alone.
pub open spec fn apply_to_slot(s: System, c: ComponentSlot) -> ComponentSlot {
    if c.type_id == s.writes {
        ComponentSlot { type_id: c.type_id, value: step_value(s.op, c.value) }
    } else {
        c
    }
}

/// One system's effect on an entity's slots.
pub open spec fn apply_to_slots(s: System, cs: Seq<ComponentSlot>) -> Seq<ComponentSlot> {
    cs.map(|j: int, c: ComponentSlot| apply_to_slot(s, c))
}

/// One system's effect on one entity.
pub open spec fn apply_to_entity(s: System, e: EntityShape) -> EntityShape {
    EntityShape { id: e.id, comps: apply_to_slots(s, e.comps) }
}

/// One system's sweep over the whole store.
pub open spec fn apply_system(s: System, w: Seq<EntityShape>) -> Seq<EntityShape> {
    w.map(|i: int, e: EntityShape| apply_to_entity(s, e))
}

/// The whole schedule applied in registration order, each system exactly once.
pub open spec fn apply_all(ss: Seq<System>, w: Seq<EntityShape>) -> Seq<EntityShape>
    decreases ss.len(),
{
    if ss.len() == 0 {
        w
    } else {
        apply_system(ss.last(), apply_all(ss.drop_last(), w))
    }
}

/// No two systems declare write access to the same component type.
pub open spec fn conflict_free(ss: Seq<System>) -> bool {
    forall|i: int, j: int| 0 <= i < j < ss.len() ==> ss[i].writes != ss[j].writes
}

/// Whether some system of the schedule writes the given component type.
pub open spec fn writes_type(ss: Seq<System>, t: u64) -> bool {
    exists|k: int| 0 <= k < ss.len() && ss[k].writes == t
}

/// The system of the schedule that writes the given component type; under
/// `conflict_free` there is at most one.
pub open spec fn writer_of(ss: Seq<System>, t: u64) -> System {
    ss[choose|k: int| 0 <= k < ss.len() && ss[k].writes == t]
}

/// What one component slot becomes after the whole schedule has run.
pub open spec fn slot_after(ss: Seq<System>, c: ComponentSlot) -> ComponentSlot
    decreases ss.len(),
{
    if ss.len() == 0 {
        c
    } else {
        apply_to_slot(ss.last(), slot_after(ss.drop_last(), c))
    }
}

proof fn lemma_slot_after_type(ss: Seq<System>, c: ComponentSlot)
    ensures
        slot_after(ss, c).type_id == c.type_id,
    decreases ss.len(),
{
    if ss.len() > 0 {
        lemma_slot_after_type(ss.drop_last(), c);
    }
}

/// Law: a sweep acts on each entity and each slot independently — the store
/// after `apply_all` keeps every identifier and component type, and each slot
/// carries exactly the fold of the schedule over its old value.
pub proof fn lemma_apply_all_pointwise(ss: Seq<System>, w: Seq<EntityShape>)
    ensures
        apply_all(ss, w).len() == w.len(),
        forall|i: int| 0 <= i < w.len() ==> (#[trigger] apply_all(ss, w)[i]).id == w[i].id,
        forall|i: int|
            0 <= i < w.len() ==> (#[trigger] apply_all(ss, w)[i]).comps.len()
                == w[i].comps.len(),
        forall|i: int, j: int|
            0 <= i < w.len() && 0 <= j < w[i].comps.len() ==> (#[trigger] apply_all(
                ss,
                w,
            )[i].comps[j]) == slot_after(ss, w[i].comps[j]),
    decreases ss.len(),
{
    if ss.len() > 0 {
        let rest = ss.drop_last();
        let prev = apply_all(rest, w);
        lemma_apply_all_pointwise(rest, w);
        assert forall|i: int| 0 <= i < w.len() implies (#[trigger] apply_all(ss, w)[i]).id
            == w[i].id && apply_all(ss, w)[i].comps.len() == w[i].comps.len() by {
            assert(apply_all(ss, w)[i] == apply_to_entity(ss.last(), prev[i]));
        }
        assert forall|i: int, j: int|
            0 <= i < w.len() && 0 <= j < w[i].comps.len() implies (#[trigger] apply_all(
            ss,
            w,
        )[i].comps[j]) == slot_after(ss, w[i].comps[j]) by {
            assert(apply_all(ss, w)[i] == apply_to_entity(ss.last(), prev[i]));
            assert(prev[i].comps[j] == slot_after(rest, w[i].comps[j]));
            assert(apply_all(ss, w)[i].comps[j] == apply_to_slot(ss.last(), prev[i].comps[j]));
        }
    }
}

/// Law: in a conflict-free schedule a slot receives the effect of the unique
/// system writing its type exactly once, and stays put when no system writes
/// it.
pub proof fn lemma_slot_after_conflict_free(ss: Seq<System>, c: ComponentSlot)
    requires
        conflict_free(ss),
    ensures
        writes_type(ss, c.type_id) ==> slot_after(ss, c) == apply_to_slot(
            writer_of(ss, c.type_id),
            c,
        ),
        !writes_type(ss, c.type_id) ==> slot_after(ss, c) == c,
    decreases ss.len(),
{
    let t = c.type_id;
    if ss.len() > 0 {
        let last = ss.last();
        let rest = ss.drop_last();
        assert(conflict_free(rest)) by {
            assert(forall|i: int, j: int|
                0 <= i < j < rest.len() ==> rest[i] == ss[i] && rest[j] == ss[j]);
        }
        lemma_slot_after_conflict_free(rest, c);
        lemma_slot_after_type(rest, c);
        if last.writes == t {
            assert(ss[ss.len() - 1].writes == t);
            assert(!writes_type(rest, t)) by {
                if writes_type(rest, t) {
                    let k = choose|k: int| 0 <= k < rest.len() && rest[k].writes == t;
                    assert(ss[k].writes == t);
                }
            }
            assert(writes_type(ss, t));
            let k = choose|k: int| 0 <= k < ss.len() && ss[k].writes == t;
            assert(k == ss.len() - 1);
            assert(slot_after(ss, c) == apply_to_slot(last, c));
            assert(writer_of(ss, t) == last);
        } else {
            assert(slot_after(ss, c) == slot_after(rest, c));
            if writes_type(rest, t) {
                let k = choose|k: int| 0 <= k < rest.len() && rest[k].writes == t;
                assert(ss[k].writes == t);
                assert(writes_type(ss, t));
                let k2 = choose|k2: int| 0 <= k2 < ss.len() && ss[k2].writes == t;
                assert(k2 < ss.len() - 1);
                assert(rest[k2].writes == t);
                assert(k == k2);
                assert(writer_of(ss, t) == writer_of(rest, t));
            } else {
                assert(!writes_type(ss, t)) by {
                    if writes_type(ss, t) {
                        let k = choose|k: int| 0 <= k < ss.len() && ss[k].writes == t;
                        assert(k < ss.len() - 1);
                        assert(rest[k].writes == t);
                    }
                }
            }
        }
    }
}

/// Law: for a conflict-free schedule, execution order among the systems plays
/// no part. Two conflict-free schedules made of the same systems take any
/// store to the same result, so every interleaving of non-conflicting systems
/// applies each effect exactly once with one outcome.
pub proof fn lemma_schedule_order_independent(s1: Seq<System>, s2: Seq<System>, w: Seq<EntityShape>)
    requires
        conflict_free(s1),
        conflict_free(s2),
        forall|s: System| s1.contains(s) <==> s2.contains(s),
    ensures
        apply_all(s1, w) == apply_all(s2, w),
{
    lemma_apply_all_pointwise(s1, w);
    lemma_apply_all_pointwise(s2, w);
    assert forall|c: ComponentSlot| true implies slot_after(s1, c) == slot_after(s2, c) by {
        lemma_slot_after_conflict_free(s1, c);
        lemma_slot_after_conflict_free(s2, c);
        let t = c.type_id;
        if writes_type(s1, t) {
            let k1 = choose|k: int| 0 <= k < s1.len() && s1[k].writes == t;
            assert(s1.contains(s1[k1]));
            assert(s2.contains(s1[k1]));
            let m = choose|m: int| 0 <= m < s2.len() && s2[m] == s1[k1];
            assert(s2[m].writes == t);
            assert(writes_type(s2, t));
            let k2 = choose|k: int| 0 <= k < s2.len() && s2[k].writes == t;
            assert(k2 == m);
            assert(writer_of(s2, t) == s1[k1]);
            let k1b = choose|k: int| 0 <= k < s1.len() && s1[k].writes == t;
            assert(k1b == k1);
            assert(writer_of(s1, t) == s1[k1]);
        } else {
            assert(!writes_type(s2, t)) by {
                if writes_type(s2, t) {
                    let k = choose|k: int| 0 <= k < s2.len() && s2[k].writes == t;
                    assert(s2.contains(s2[k]));
                    assert(s1.contains(s2[k]));
                    let m = choose|m: int| 0 <= m < s1.len() && s1[m] == s2[k];
                    assert(s1[m].writes == t);
                }
            }
        }
    }
    assert forall|i: int| 0 <= i < w.len() implies apply_all(s1, w)[i] =~= apply_all(
        s2,
        w,
    )[i] by {
        assert forall|j: int| 0 <= j < w[i].comps.len() implies apply_all(s1, w)[i].comps[j]
            == apply_all(s2, w)[i].comps[j] by {
            assert(slot_after(s1, w[i].comps[j]) == slot_after(s2, w[i].comps[j]));
        }
        assert(apply_all(s1, w)[i].comps =~= apply_all(s2, w)[i].comps);
    }
    assert(apply_all(s1, w) =~~= apply_all(s2, w));
}

/// The executable saturating addition, exact against `sat_add`.
fn add_saturating(a: i64, b: i64) -> (r: i64)
    ensures
        r == sat_add(a, b),
{
    if b >= 0 {
        if a <= i64::MAX - b {
            a + b
        } else {
            i64::MAX
        }
    } else {
        if a >= i64::MIN - b {
            a + b
        } else {
            i64::MIN
        }
    }
}

/// The executable system op, exact against `step_value`.
fn step_value_exec(op: SystemOp, v: i64) -> (r: i64)
    ensures
        r == step_value(op, v),
{
    match op {
        SystemOp::AddDelta(d) => add_saturating(v, d),
        SystemOp::SetValue(x) => x,
    }
}

/// Applies one system to one entity record, producing the updated record.
fn apply_to_record(s: &System, rec: &EntityRecord) -> (out: EntityRecord)
    ensures
        out@ == apply_to_entity(*s, rec@),
{
    let m = rec.components.len();
    let mut comps: Vec<ComponentSlot> = Vec::new();
    let mut j: usize = 0;
    proof {
        assert(rec.components@.take(0) =~= Seq::<ComponentSlot>::empty());
        assert(comps@ =~= apply_to_slots(*s, rec.components@.take(0)));
    }
    while j < m
        invariant
            m == rec.components.len(),
            0 <= j <= m,
            comps@ == apply_to_slots(*s, rec.components@.take(j as int)),
        decreases m - j,
    {
        let c = rec.components[j];
        let nc = if c.type_id == s.writes {
            ComponentSlot { type_id: c.type_id, value: step_value_exec(s.op, c.value) }
        } else {
            c
        };
        proof {
            assert(nc == apply_to_slot(*s, rec.components@[j as int]));
        }
        comps.push(nc);
        proof {
            let taken = rec.components@.take(j as int + 1);
            assert(taken.drop_last() =~= rec.components@.take(j as int));
            assert(comps@ =~= apply_to_slots(*s, taken));
        }
        j += 1;
    }
    proof {
        assert(rec.components@.take(m as int) =~= rec.components@);
    }
    let out = EntityRecord { id: rec.id, components: comps };
    proof {
        assert(out@ =~= apply_to_entity(*s, rec@));
    }
    out
}

/// Applies one system to every entity of the store: one step of a sweep.
fn apply_system_to_world(s: &System, world: &mut World)
    ensures
        final(world)@ == apply_system(*s, old(world)@),
        final(world).next_id == old(world).next_id,
{
    let n = world.entities.len();
    let mut i: usize = 0;
    while i < n
        invariant
            n == world.entities.len(),
            0 <= i <= n,
            world.next_id == old(world).next_id,
            forall|p: int| i <= p < n ==> world@[p] == old(world)@[p],
            forall|p: int| 0 <= p < i ==> world@[p] == apply_to_entity(*s, old(world)@[p]),
        decreases n - i,
    {
        let nr = apply_to_record(s, &world.entities[i]);
        let ghost before = world@;
        let ghost before_ents = world.entities@;
        world.entities[i] = nr;
        proof {
            assert(world.entities@ == before_ents.update(i as int, nr));
            assert(world@.len() == n);
            assert forall|p: int| 0 <= p < i + 1 implies world@[p] == apply_to_entity(
                *s,
                old(world)@[p],
            ) by {
                if p == i {
                    assert(world.entities@[p] == nr);
                    assert(world@[p] == nr@);
                    assert(before[p] == before_ents[p]@);
                    assert(before[p] == old(world)@[p]);
                } else {
                    assert(world.entities@[p] == before_ents[p]);
                    assert(world@[p] == before_ents[p]@);
                    assert(before[p] == before_ents[p]@);
                    assert(before[p] == apply_to_entity(*s, old(world)@[p]));
                }
            }
            assert forall|p: int| i + 1 <= p < n implies world@[p] == old(world)@[p] by {
                assert(world.entities@[p] == before_ents[p]);
                assert(world@[p] == before_ents[p]@);
                assert(before[p] == before_ents[p]@);
            }
        }
        i += 1;
    }
    proof {
        assert(world@ =~= apply_system(*s, old(world)@));
    }
}

/// The compiled schedule: an immutable collection of systems, built once.
pub struct Schedule {
    pub systems: Vec<System>,
}

impl View for Schedule {
    type V = Seq<System>;

    open spec fn view(&self) -> Seq<System> {
        self.systems@
    }
}

impl Schedule {
    /// How many systems the schedule holds.
    pub fn system_count(&self) -> (n: usize)
        ensures
            n == self@.len(),
    {
        self.systems.len()
    }

    /// One simulation update: sweeps every registered system over the store
    /// exactly once, in registration order, as one atomic step. The schedule
    /// itself is immutable; entity identifiers and component types are left
    /// untouched, only component values move.
    pub fn execute(&self, world: &mut World)
        requires
            old(world).wf(),
        ensures
            final(world)@ == apply_all(self@, old(world)@),
            final(world).next_id == old(world).next_id,
            final(world).wf(),
    {
        let n = self.systems.len();
        let mut k: usize = 0;
        proof {
            assert(self@.take(0) =~= Seq::<System>::empty());
        }
        while k < n
            invariant
                n == self.systems.len(),
                0 <= k <= n,
                world.next_id == old(world).next_id,
                world@ == apply_all(self@.take(k as int), old(world)@),
            decreases n - k,
        {
            apply_system_to_world(&self.systems[k], world);
            proof {
                let taken = self@.take(k as int + 1);
                assert(taken.drop_last() =~= self@.take(k as int));
                assert(taken.last() == self@[k as int]);
            }
            k += 1;
        }
        proof {
            assert(self@.take(n as int) =~= self@);
            lemma_apply_all_pointwise(self@, old(world)@);
            assert forall|i: int| 0 <= i < world@.len() implies slots_wf(
                (#[trigger] world@[i]).comps,
            ) by {
                assert forall|p: int, q: int|
                    0 <= p < q < world@[i].comps.len() implies world@[i].comps[p].type_id
                    != world@[i].comps[q].type_id by {
                    lemma_slot_after_type(self@, old(world)@[i].comps[p]);
                    lemma_slot_after_type(self@, old(world)@[i].comps[q]);
                }
            }
        }
    }
}

} // verus!
