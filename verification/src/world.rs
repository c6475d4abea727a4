//! The game world's register of placed part instances.
//!
//! Every instance gets an id that no other instance in the world has ever
//! had. What an instance carries besides its id, its part and whether it is
//! locked (position, velocity, size and the like) is the game program's
//! `body`, which the register keeps but never looks into.
use vstd::prelude::*;

use crate::parts::PartId;
use crate::puzzle::InstanceId;

verus! {

/// A part placed in the world.
pub struct Instance<B> {
    pub id: InstanceId,
    pub part_id: PartId,
    /// Whether this part is locked (fixed in puzzle, not movable by player).
    pub locked: bool,
    pub body: B,
}

/// No two instances share an id.
pub open spec fn ids_distinct<B>(s: Seq<Instance<B>>) -> bool {
    forall|i: int, j: int| 0 <= i < j < s.len() ==> s[i].id != s[j].id
}

/// Some instance has id `id`.
pub open spec fn has_id<B>(s: Seq<Instance<B>>, id: InstanceId) -> bool {
    exists|i: int| 0 <= i < s.len() && #[trigger] s[i].id == id
}

/// The position of the instance with id `id`.
pub open spec fn index_of<B>(s: Seq<Instance<B>>, id: InstanceId) -> int {
    choose|i: int| 0 <= i < s.len() && #[trigger] s[i].id == id
}

/// The instance with id `id`, if there is one.
pub open spec fn lookup<B>(s: Seq<Instance<B>>, id: InstanceId) -> Option<Instance<B>> {
    if has_id(s, id) {
        Some(s[index_of(s, id)])
    } else {
        None
    }
}

/// Where in a list with distinct ids the instance with id `id` stands.
proof fn lemma_index_of<B>(s: Seq<Instance<B>>, id: InstanceId, i: int)
    requires
        ids_distinct(s),
        0 <= i < s.len(),
        s[i].id == id,
    ensures
        has_id(s, id),
        index_of(s, id) == i,
{
    let j = index_of(s, id);
    assert(0 <= j < s.len() && s[j].id == id);
}

/// All placed parts, with the next id to hand out.
pub struct World<B> {
    instances: Vec<Instance<B>>,
    next_id: u32,
}

impl<B> World<B> {
    /// The instances, in the order they were placed.
    pub closed spec fn instances_view(&self) -> Seq<Instance<B>> {
        self.instances@
    }

    /// The id the next spawned instance gets.
    pub closed spec fn next_id_view(&self) -> int {
        self.next_id as int
    }

    /// Ids are distinct, and every id handed out so far is below the next one.
    #[verifier::type_invariant]
    spec fn inv(self) -> bool {
        &&& self.next_id >= 1
        &&& ids_distinct(self.instances@)
        &&& forall|i: int|
            0 <= i < self.instances@.len() ==> 1 <= (#[trigger] self.instances@[i]).id.0
                < self.next_id
    }

    /// An empty world; the first id handed out is 1.
    pub fn new() -> (r: World<B>)
        ensures
            r.instances_view() == Seq::<Instance<B>>::empty(),
            r.next_id_view() == 1,
    {
        World { instances: Vec::new(), next_id: 1 }
    }

    /// Whether another instance can get an id.
    pub fn can_spawn(&self) -> (r: bool)
        ensures
            r == (self.next_id_view() < u32::MAX),
    {
        self.next_id < u32::MAX
    }

    fn spawn_with(&mut self, part_id: PartId, body: B, locked: bool) -> (id: InstanceId)
        requires
            old(self).next_id_view() < u32::MAX,
        ensures
            id == InstanceId(old(self).next_id_view() as u32),
            !has_id(old(self).instances_view(), id),
            forall|i: int|
                0 <= i < old(self).instances_view().len() ==> (#[trigger] old(
                    self,
                ).instances_view()[i]).id.0 < id.0,
            final(self).instances_view() == old(self).instances_view().push(
                Instance { id, part_id, locked, body },
            ),
            final(self).next_id_view() == old(self).next_id_view() + 1,
    {
        proof {
            use_type_invariant(&*self);
        }
        let id = InstanceId(self.next_id);
        let mut instances: Vec<Instance<B>> = Vec::new();
        std::mem::swap(&mut instances, &mut self.instances);
        let ghost before = instances@;
        instances.push(Instance { id, part_id, locked, body });
        proof {
            assert forall|i: int| 0 <= i < before.len() implies #[trigger] before[i].id != id by {
                assert(before[i].id.0 < self.next_id);
            }
        }
        self.next_id = self.next_id + 1;
        self.instances = instances;
        id
    }

    /// Place a new instance of `part_id`; it gets a fresh id.
    pub fn spawn(&mut self, part_id: PartId, body: B) -> (id: InstanceId)
        requires
            old(self).next_id_view() < u32::MAX,
        ensures
            id == InstanceId(old(self).next_id_view() as u32),
            !has_id(old(self).instances_view(), id),
            forall|i: int|
                0 <= i < old(self).instances_view().len() ==> (#[trigger] old(
                    self,
                ).instances_view()[i]).id.0 < id.0,
            final(self).instances_view() == old(self).instances_view().push(
                Instance { id, part_id, locked: false, body },
            ),
            final(self).next_id_view() == old(self).next_id_view() + 1,
    {
        self.spawn_with(part_id, body, false)
    }

    /// Place a new locked instance of `part_id` (a fixed part of the puzzle).
    pub fn spawn_locked(&mut self, part_id: PartId, body: B) -> (id: InstanceId)
        requires
            old(self).next_id_view() < u32::MAX,
        ensures
            id == InstanceId(old(self).next_id_view() as u32),
            !has_id(old(self).instances_view(), id),
            forall|i: int|
                0 <= i < old(self).instances_view().len() ==> (#[trigger] old(
                    self,
                ).instances_view()[i]).id.0 < id.0,
            final(self).instances_view() == old(self).instances_view().push(
                Instance { id, part_id, locked: true, body },
            ),
            final(self).next_id_view() == old(self).next_id_view() + 1,
    {
        self.spawn_with(part_id, body, true)
    }

    /// All instances, in the order they were placed.
    pub fn instances(&self) -> (r: &Vec<Instance<B>>)
        ensures
            r@ == self.instances_view(),
            ids_distinct(r@),
            forall|i: int| 0 <= i < r@.len() ==> 1 <= (#[trigger] r@[i]).id.0 < self.next_id_view(),
    {
        proof {
            use_type_invariant(self);
        }
        &self.instances
    }

    /// The position of the instance with id `id`, if there is one.
    pub fn position(&self, id: InstanceId) -> (r: Option<usize>)
        ensures
            r is Some <==> has_id(self.instances_view(), id),
            r matches Some(i) ==> i == index_of(self.instances_view(), id),
    {
        proof {
            use_type_invariant(self);
        }
        let mut i: usize = 0;
        while i < self.instances.len()
            invariant
                i <= self.instances@.len(),
                ids_distinct(self.instances@),
                forall|k: int| 0 <= k < i ==> (#[trigger] self.instances@[k]).id != id,
            decreases self.instances@.len() - i,
        {
            if self.instances[i].id == id {
                proof {
                    lemma_index_of(self.instances@, id, i as int);
                }
                return Some(i);
            }
            i = i + 1;
        }
        None
    }

    /// The instance with id `id`, if there is one.
    pub fn get(&self, id: InstanceId) -> (r: Option<&Instance<B>>)
        ensures
            r is Some <==> has_id(self.instances_view(), id),
            r matches Some(inst) ==> Some(*inst) == lookup(self.instances_view(), id),
    {
        match self.position(id) {
            Some(i) => Some(&self.instances[i]),
            None => None,
        }
    }

    /// Take the instance with id `id` out of the world; `None` when there is none.
    pub fn remove(&mut self, id: InstanceId) -> (r: Option<Instance<B>>)
        ensures
            r == lookup(old(self).instances_view(), id),
            has_id(old(self).instances_view(), id) ==> final(self).instances_view() == old(
                self,
            ).instances_view().remove(index_of(old(self).instances_view(), id)),
            !has_id(old(self).instances_view(), id) ==> final(self).instances_view() == old(
                self,
            ).instances_view(),
            final(self).next_id_view() == old(self).next_id_view(),
    {
        proof {
            use_type_invariant(&*self);
        }
        match self.position(id) {
            Some(pos) => {
                let mut instances: Vec<Instance<B>> = Vec::new();
                std::mem::swap(&mut instances, &mut self.instances);
                let ghost before = instances@;
                let inst = instances.remove(pos);
                proof {
                    assert forall|i: int, j: int|
                        0 <= i < j < instances@.len() implies instances@[i].id
                        != instances@[j].id by {
                        let a = if i < pos { i } else { i + 1 };
                        let b = if j < pos { j } else { j + 1 };
                        assert(instances@[i] == before[a] && instances@[j] == before[b]);
                    }
                    assert forall|i: int| 0 <= i < instances@.len() implies 1 <= (
                    #[trigger] instances@[i]).id.0 < self.next_id by {
                        let a = if i < pos { i } else { i + 1 };
                        assert(instances@[i] == before[a]);
                    }
                }
                self.instances = instances;
                Some(inst)
            },
            None => None,
        }
    }

    /// Replace the body of the instance with id `id`; returns whether there is one.
    pub fn set_body(&mut self, id: InstanceId, body: B) -> (found: bool)
        ensures
            found == has_id(old(self).instances_view(), id),
            found ==> final(self).instances_view() == old(self).instances_view().update(
                index_of(old(self).instances_view(), id),
                Instance { body, ..old(self).instances_view()[index_of(old(self).instances_view(), id)] },
            ),
            !found ==> final(self).instances_view() == old(self).instances_view(),
            final(self).next_id_view() == old(self).next_id_view(),
    {
        proof {
            use_type_invariant(&*self);
        }
        match self.position(id) {
            Some(pos) => {
                let mut instances: Vec<Instance<B>> = Vec::new();
                std::mem::swap(&mut instances, &mut self.instances);
                let ghost before = instances@;
                let old_inst = instances.remove(pos);
                instances.insert(
                    pos,
                    Instance { id: old_inst.id, part_id: old_inst.part_id, locked: old_inst.locked, body },
                );
                proof {
                    assert(instances@ =~= before.update(
                        pos as int,
                        Instance { body, ..before[pos as int] },
                    ));
                }
                self.instances = instances;
                true
            },
            None => false,
        }
    }
}

// ── Laws ─────────────────────────────────────────────────────────

/// A freshly spawned instance is found by its id, and ids stay distinct.
pub proof fn lemma_lookup_after_spawn<B>(s: Seq<Instance<B>>, inst: Instance<B>)
    requires
        ids_distinct(s),
        !has_id(s, inst.id),
    ensures
        ids_distinct(s.push(inst)),
        lookup(s.push(inst), inst.id) == Some(inst),
{
    let t = s.push(inst);
    assert(t[s.len() as int] == inst);
    lemma_index_of(t, inst.id, s.len() as int);
}

/// Spawning leaves what every other id finds unchanged.
pub proof fn lemma_spawn_keeps_others<B>(s: Seq<Instance<B>>, inst: Instance<B>, other: InstanceId)
    requires
        ids_distinct(s),
        !has_id(s, inst.id),
        other != inst.id,
    ensures
        lookup(s.push(inst), other) == lookup(s, other),
{
    let t = s.push(inst);
    lemma_lookup_after_spawn(s, inst);
    if has_id(s, other) {
        let i = index_of(s, other);
        assert(t[i] == s[i]);
        lemma_index_of(t, other, i);
    } else {
        if has_id(t, other) {
            let i = index_of(t, other);
            assert(s[i] == t[i]);
        }
    }
}

/// Once removed, an id finds nothing, while every other id finds what it did.
pub proof fn lemma_lookup_after_remove<B>(s: Seq<Instance<B>>, id: InstanceId, other: InstanceId)
    requires
        ids_distinct(s),
        has_id(s, id),
        other != id,
    ensures
        ids_distinct(s.remove(index_of(s, id))),
        lookup(s.remove(index_of(s, id)), id) == None::<Instance<B>>,
        lookup(s.remove(index_of(s, id)), other) == lookup(s, other),
{
    let p = index_of(s, id);
    let t = s.remove(p);
    assert forall|i: int, j: int| 0 <= i < j < t.len() implies t[i].id != t[j].id by {
        let a = if i < p { i } else { i + 1 };
        let b = if j < p { j } else { j + 1 };
        assert(t[i] == s[a] && t[j] == s[b]);
    }
    if has_id(t, id) {
        let i = index_of(t, id);
        let a = if i < p { i } else { i + 1 };
        assert(t[i] == s[a]);
    }
    if has_id(s, other) {
        let i = index_of(s, other);
        let k = if i < p { i } else { i - 1 };
        assert(t[k] == s[i]);
        lemma_index_of(t, other, k);
    } else if has_id(t, other) {
        let i = index_of(t, other);
        let a = if i < p { i } else { i + 1 };
        assert(t[i] == s[a]);
    }
}

/// Removing a part right after spawning it gives back the instances as they were.
pub proof fn lemma_remove_undoes_spawn<B>(s: Seq<Instance<B>>, inst: Instance<B>)
    requires
        ids_distinct(s),
        !has_id(s, inst.id),
    ensures
        s.push(inst).remove(index_of(s.push(inst), inst.id)) == s,
{
    lemma_lookup_after_spawn(s, inst);
    lemma_index_of(s.push(inst), inst.id, s.len() as int);
    assert(s.push(inst).remove(s.len() as int) =~= s);
}

} // verus!
