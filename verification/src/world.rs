//! The table of live entities and their components.

use vstd::prelude::*;
use crate::combat::AttackRateTimer;
use crate::models::attributes::ComputedAttributes;
use crate::models::enemy::Enemy;
use crate::models::player::Player;
use crate::sequences::lemma_filter_step;
use crate::spatial::Position;
use crate::utils::Collider;

verus! {

/// A reference to an entity: the slot it lives in and the generation of that
/// slot. A slot that is used again gets a new generation, so a reference to a
/// despawned entity never comes to mean another one.
#[derive(Clone, Copy, Debug, PartialEq, Eq, Structural, Hash)]
pub struct Entity {
    pub index: u32,
    pub generation: u32,
}

impl Entity {
    /// The reference that stands for "no entity yet"; no entity is ever spawned
    /// under it.
    #[verifier::when_used_as_spec(spec_placeholder)]
    pub fn placeholder() -> (r: Entity)
        ensures
            r == Entity::spec_placeholder(),
    {
        Entity { index: 0xFFFF_FFFF, generation: 0xFFFF_FFFF }
    }

    /// The placeholder: the last index and the last generation.
    pub open spec fn spec_placeholder() -> Entity {
        Entity { index: 0xFFFF_FFFF, generation: 0xFFFF_FFFF }
    }
}

/// Everything the rules know of one entity. A component that the entity does
/// not have is `None`.
#[derive(Clone, Copy, Debug, PartialEq, Eq, Structural)]
pub struct Combatant {
    pub position: Position,
    pub collider: Option<Collider>,
    pub comp_attribs: Option<ComputedAttributes>,
    pub attack_timer: Option<AttackRateTimer>,
    pub player: Option<Player>,
    pub enemy: Option<Enemy>,
}

#[derive(Clone, Copy, Debug)]
struct Slot {
    generation: u32,
    occupant: Option<Combatant>,
}

/// The live entities. Its view is the map from each live entity to its record.
pub struct World {
    slots: Vec<Slot>,
}

/// How many slots can hold an entity: the placeholder's index is never used.
spec fn slot_limit(slots: Seq<Slot>) -> nat {
    if slots.len() < u32::MAX {
        slots.len()
    } else {
        u32::MAX as nat
    }
}

/// The live entities among the first `n` slots, in slot order.
spec fn live_prefix(slots: Seq<Slot>, n: nat) -> Seq<Entity>
    decreases n,
{
    if n == 0 {
        Seq::empty()
    } else {
        let rest = live_prefix(slots, (n - 1) as nat);
        if n <= slots.len() && slots[n - 1].occupant is Some {
            rest.push(Entity { index: (n - 1) as u32, generation: slots[n - 1].generation })
        } else {
            rest
        }
    }
}

proof fn lemma_live_prefix(slots: Seq<Slot>, n: nat)
    requires
        n <= slots.len(),
        n <= u32::MAX,
    ensures
        forall|e: Entity| #[trigger]
            live_prefix(slots, n).contains(e) <==> e.index < n && slots[e.index as int].occupant
                is Some && slots[e.index as int].generation == e.generation,
        forall|i: int, j: int|
            0 <= i < j < live_prefix(slots, n).len() ==> (#[trigger] live_prefix(slots, n)[i]).index
                < (#[trigger] live_prefix(slots, n)[j]).index,
        live_prefix(slots, n).len() <= n,
    decreases n,
{
    if n > 0 {
        let m = (n - 1) as nat;
        lemma_live_prefix(slots, m);
        let rest = live_prefix(slots, m);
        let all = live_prefix(slots, n);
        if slots[n - 1].occupant is Some {
            let last = Entity { index: m as u32, generation: slots[n - 1].generation };
            assert(all == rest.push(last));
            assert forall|e: Entity| #[trigger]
                all.contains(e) <==> e.index < n && slots[e.index as int].occupant is Some
                    && slots[e.index as int].generation == e.generation by {
                if all.contains(e) {
                    let k = choose|k: int| 0 <= k < all.len() && all[k] == e;
                    if k < rest.len() {
                        assert(rest[k] == e);
                        assert(rest.contains(e));
                    }
                }
                if e.index < n && slots[e.index as int].occupant is Some && slots[e.index as int].generation
                    == e.generation {
                    if e.index < m {
                        assert(rest.contains(e));
                        let k = choose|k: int| 0 <= k < rest.len() && rest[k] == e;
                        assert(all[k] == e);
                    } else {
                        assert(e == last);
                        assert(all[rest.len() as int] == e);
                    }
                }
            }
            assert forall|i: int, j: int| 0 <= i < j < all.len() implies (#[trigger] all[i]).index < (
            #[trigger] all[j]).index by {
                if j == rest.len() {
                    assert(rest[i] == all[i]);
                    assert(rest.contains(all[i]));
                } else {
                    assert(rest[i] == all[i]);
                    assert(rest[j] == all[j]);
                }
            }
        } else {
            assert(all == rest);
        }
    }
}

impl View for World {
    type V = Map<Entity, Combatant>;

    closed spec fn view(&self) -> Map<Entity, Combatant> {
        Map::new(
            |e: Entity|
                e.index < slot_limit(self.slots@) && self.slots@[e.index as int].occupant is Some
                    && self.slots@[e.index as int].generation == e.generation,
            |e: Entity| self.slots@[e.index as int].occupant->0,
        )
    }
}

impl World {
    /// Whether `e` once lived here and was despawned. It stays so for good.
    pub closed spec fn retired(&self, e: Entity) -> bool {
        e.index < slot_limit(self.slots@) && (self.slots@[e.index as int].generation > e.generation || (
        self.slots@[e.index as int].generation == e.generation && self.slots@[e.index as int].occupant
            is None))
    }

    /// How many slots the table has handed out so far.
    pub closed spec fn slot_count(&self) -> nat {
        self.slots@.len()
    }

    /// Whether no further entity can be spawned: every slot index is taken and
    /// no vacant slot has a generation left.
    pub closed spec fn exhausted(&self) -> bool {
        self.slots@.len() >= u32::MAX && forall|i: int|
            0 <= i < u32::MAX ==> (#[trigger] self.slots@[i]).occupant is Some
                || self.slots@[i].generation == u32::MAX
    }

    /// The live entities in ascending order of their index.
    pub closed spec fn entity_seq(&self) -> Seq<Entity> {
        live_prefix(self.slots@, slot_limit(self.slots@))
    }

    /// `entity_seq` lists exactly the live entities, each once, by ascending index.
    pub proof fn lemma_entity_seq(&self)
        ensures
            forall|e: Entity| #[trigger] self.entity_seq().contains(e) <==> self@.contains_key(e),
            forall|i: int, j: int|
                0 <= i < j < self.entity_seq().len() ==> (#[trigger] self.entity_seq()[i]).index < (
                #[trigger] self.entity_seq()[j]).index,
            self.entity_seq().len() <= self.slot_count(),
    {
        lemma_live_prefix(self.slots@, slot_limit(self.slots@));
    }

    /// An entity is never both live and retired, and the placeholder is never
    /// live.
    pub proof fn lemma_live_not_retired(&self, e: Entity)
        ensures
            self@.contains_key(e) ==> !self.retired(e),
            self.retired(e) ==> !self@.contains_key(e),
            !self@.contains_key(Entity::placeholder()),
    {
    }

    /// An empty world.
    pub fn new() -> (r: World)
        ensures
            r@ == Map::<Entity, Combatant>::empty(),
            r.slot_count() == 0,
            !r.exhausted(),
            forall|e: Entity| !r.retired(e),
    {
        let r = World { slots: Vec::new() };
        assert(r@ =~= Map::<Entity, Combatant>::empty());
        r
    }

    /// Whether `e` is live.
    pub fn contains(&self, e: Entity) -> (r: bool)
        ensures
            r == self@.contains_key(e),
    {
        let i: usize = e.index as usize;
        if i < self.slots.len() && i < 0xFFFF_FFFF {
            let slot = &self.slots[i];
            slot.occupant.is_some() && slot.generation == e.generation
        } else {
            false
        }
    }

    /// The record of `e`, if it is live.
    pub fn get(&self, e: Entity) -> (r: Option<Combatant>)
        ensures
            r == (if self@.contains_key(e) {
                Some(self@[e])
            } else {
                None
            }),
    {
        let i: usize = e.index as usize;
        if i < self.slots.len() && i < 0xFFFF_FFFF {
            let slot = &self.slots[i];
            if slot.generation == e.generation {
                slot.occupant
            } else {
                None
            }
        } else {
            None
        }
    }

    /// Replaces the record of `e`. Does nothing, and says so, if `e` is not live.
    pub fn replace(&mut self, e: Entity, record: Combatant) -> (r: bool)
        ensures
            r == old(self)@.contains_key(e),
            final(self)@ == (if r {
                old(self)@.insert(e, record)
            } else {
                old(self)@
            }),
            final(self).slot_count() == old(self).slot_count(),
            final(self).exhausted() == old(self).exhausted(),
            final(self).entity_seq() == old(self).entity_seq(),
            forall|x: Entity| final(self).retired(x) == old(self).retired(x),
    {
        let i: usize = e.index as usize;
        if i < self.slots.len() && i < 0xFFFF_FFFF && self.slots[i].occupant.is_some()
            && self.slots[i].generation == e.generation {
            let ghost before = self.slots@;
            self.slots.set(i, Slot { generation: e.generation, occupant: Some(record) });
            proof {
                assert(self@ =~= old(self)@.insert(e, record));
                lemma_live_prefix_same(before, self.slots@, slot_limit(before));
                if old(self).exhausted() {
                    assert forall|k: int| 0 <= k < u32::MAX implies (#[trigger] self.slots@[k]).occupant
                        is Some || self.slots@[k].generation == u32::MAX by {
                        assert(before[k].occupant is Some || before[k].generation == u32::MAX);
                    }
                }
                if self.exhausted() {
                    assert forall|k: int| 0 <= k < u32::MAX implies (#[trigger] before[k]).occupant
                        is Some || before[k].generation == u32::MAX by {
                        assert(self.slots@[k].occupant is Some || self.slots@[k].generation
                            == u32::MAX);
                    }
                }
            }
            true
        } else {
            false
        }
    }

    /// Removes `e` from the world. Does nothing, and says so, if `e` is not live.
    pub fn despawn(&mut self, e: Entity) -> (r: bool)
        ensures
            r == old(self)@.contains_key(e),
            final(self)@ == old(self)@.remove(e),
            r ==> final(self).retired(e),
            final(self).slot_count() == old(self).slot_count(),
            forall|x: Entity| old(self).retired(x) ==> final(self).retired(x),
            forall|x: Entity| final(self).retired(x) ==> old(self).retired(x) || x == e,
    {
        let i: usize = e.index as usize;
        if i < self.slots.len() && i < 0xFFFF_FFFF && self.slots[i].occupant.is_some()
            && self.slots[i].generation == e.generation {
            self.slots.set(i, Slot { generation: e.generation, occupant: None });
            proof {
                assert(self@ =~= old(self)@.remove(e));
            }
            true
        } else {
            proof {
                assert(self@ =~= old(self)@.remove(e));
            }
            false
        }
    }

    /// Adds an entity with the given record and returns its reference, which no
    /// entity of this world has had before. Returns `None`, and changes
    /// nothing, only when the table is exhausted.
    pub fn spawn(&mut self, record: Combatant) -> (r: Option<Entity>)
        ensures
            r is Some <==> !old(self).exhausted(),
            old(self).slot_count() < u32::MAX ==> r is Some,
            match r {
                Some(e) => {
                    &&& !old(self)@.contains_key(e)
                    &&& !old(self).retired(e)
                    &&& e != Entity::placeholder()
                    &&& final(self)@ == old(self)@.insert(e, record)
                },
                None => final(self)@ == old(self)@,
            },
            old(self).slot_count() <= final(self).slot_count() <= old(self).slot_count() + 1,
            forall|x: Entity| final(self).retired(x) == old(self).retired(x),
    {
        let len: usize = self.slots.len();
        let n: usize = if len < 0xFFFF_FFFF {
            len
        } else {
            0xFFFF_FFFF
        };
        let mut i: usize = 0;
        while i < n
            invariant
                i <= n,
                n == slot_limit(self.slots@),
                self.slots@ == old(self).slots@,
                forall|k: int|
                    0 <= k < i ==> (#[trigger] self.slots@[k]).occupant is Some
                        || self.slots@[k].generation == u32::MAX,
            decreases n - i,
        {
            if self.slots[i].occupant.is_none() && self.slots[i].generation < u32::MAX {
                let generation: u32 = self.slots[i].generation + 1;
                let e = Entity { index: i as u32, generation };
                self.slots.set(i, Slot { generation, occupant: Some(record) });
                proof {
                    assert(self@ =~= old(self)@.insert(e, record));
                    assert(!old(self).exhausted());
                }
                return Some(e);
            }
            i = i + 1;
        }
        if len < 0xFFFF_FFFF {
            let e = Entity { index: n as u32, generation: 0 };
            self.slots.push(Slot { generation: 0, occupant: Some(record) });
            proof {
                assert(self@ =~= old(self)@.insert(e, record));
            }
            Some(e)
        } else {
            None
        }
    }

    /// The live entities in ascending order of their index.
    pub fn entities(&self) -> (r: Vec<Entity>)
        ensures
            r@ == self.entity_seq(),
    {
        let mut out: Vec<Entity> = Vec::new();
        let len: usize = self.slots.len();
        let n: usize = if len < 0xFFFF_FFFF {
            len
        } else {
            0xFFFF_FFFF
        };
        let mut i: usize = 0;
        while i < n
            invariant
                i <= n,
                n == slot_limit(self.slots@),
                out@ == live_prefix(self.slots@, i as nat),
            decreases n - i,
        {
            if self.slots[i].occupant.is_some() {
                out.push(Entity { index: i as u32, generation: self.slots[i].generation });
            }
            i = i + 1;
        }
        out
    }
}

/// Which entities are live does not depend on what their records hold.
proof fn lemma_live_prefix_same(a: Seq<Slot>, b: Seq<Slot>, n: nat)
    requires
        a.len() == b.len(),
        forall|i: int|
            0 <= i < a.len() ==> (#[trigger] a[i]).generation == b[i].generation && (a[i].occupant
                is Some) == (b[i].occupant is Some),
    ensures
        live_prefix(a, n) == live_prefix(b, n),
    decreases n,
{
    if n > 0 {
        lemma_live_prefix_same(a, b, (n - 1) as nat);
    }
}

/// Whether `c` counts as a player for a system that may also need its collider.
pub open spec fn is_player(c: Combatant, need_collider: bool) -> bool {
    c.player is Some && (need_collider ==> c.collider is Some)
}

/// The players among `ents`, in their order.
pub open spec fn players_in(m: Map<Entity, Combatant>, ents: Seq<Entity>, need_collider: bool)
    -> Seq<Entity> {
    ents.filter(|e: Entity| m.contains_key(e) && is_player(m[e], need_collider))
}

/// The one player among `ents`. With none, or with more than one, there is no
/// such player, and the systems that count on one do nothing.
pub open spec fn single_player_in(
    m: Map<Entity, Combatant>,
    ents: Seq<Entity>,
    need_collider: bool,
) -> Option<Entity> {
    let players = players_in(m, ents, need_collider);
    if players.len() == 1 {
        Some(players[0])
    } else {
        None
    }
}

impl World {
    /// The one player of this world, if there is exactly one.
    pub open spec fn the_player(&self, need_collider: bool) -> Option<Entity> {
        single_player_in(self@, self.entity_seq(), need_collider)
    }

    /// The one player of this world, if there is exactly one.
    pub fn single_player(&self, need_collider: bool) -> (r: Option<Entity>)
        ensures
            r == self.the_player(need_collider),
            r is Some ==> self@.contains_key(r->0) && is_player(self@[r->0], need_collider),
    {
        let entities = self.entities();
        let ghost pred = |e: Entity| self@.contains_key(e) && is_player(self@[e], need_collider);
        let mut found: Vec<Entity> = Vec::new();
        let mut i: usize = 0;
        proof {
            assert(entities@.take(0) =~= Seq::<Entity>::empty());
            assert(entities@.take(0).filter(pred) =~= Seq::<Entity>::empty());
        }
        while i < entities.len()
            invariant
                i <= entities.len(),
                entities@ == self.entity_seq(),
                pred == (|e: Entity| self@.contains_key(e) && is_player(self@[e], need_collider)),
                found@ == entities@.take(i as int).filter(pred),
                forall|k: int| 0 <= k < found@.len() ==> pred(#[trigger] found@[k]),
            decreases entities.len() - i,
        {
            let e = entities[i];
            proof {
                lemma_filter_step(entities@, pred, i as int);
            }
            match self.get(e) {
                Some(c) => {
                    if c.player.is_some() && (!need_collider || c.collider.is_some()) {
                        found.push(e);
                    }
                },
                None => {},
            }
            i = i + 1;
        }
        proof {
            assert(entities@.take(entities.len() as int) =~= entities@);
        }
        if found.len() == 1 {
            Some(found[0])
        } else {
            None
        }
    }
}

} // verus!
