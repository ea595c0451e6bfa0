//! What an enemy does each tick: pick up its target, go after it, attack.

use vstd::prelude::*;
use crate::event::queue::{drain, drained, MOVEMENT_DRAIN};
use crate::event::types::{AttackEvent, PositionChangeEvent};
use crate::models::enemy::Enemy;
use crate::spatial::{
    beyond_collision_distance,
    collision_distance,
    desired_velocity,
    in_attack_range,
    planar_distance_sq,
    planar_distance_squared,
    velocity_towards,
    within_attack_range,
    PlanarVelocity,
    Position,
};
use crate::utils::{capsule_radius, get_capsule_radius};
use crate::world::{single_player_in, Combatant, Entity, World};

verus! {

/// `c` as an enemy that is after `target`, last seen at `position`.
pub open spec fn with_target(c: Combatant, target: Entity, position: Position) -> Combatant {
    match c.enemy {
        Some(enemy) => Combatant {
            enemy: Some(
                Enemy { target_entity: Some(target), target_position: Some(position), ..enemy },
            ),
            ..c
        },
        None => c,
    }
}

/// `c` as an enemy that is after nobody.
pub open spec fn without_target(c: Combatant) -> Combatant {
    match c.enemy {
        Some(enemy) => Combatant {
            enemy: Some(Enemy { target_entity: None, target_position: None, ..enemy }),
            ..c
        },
        None => c,
    }
}

/// The world after the request `ev`: its enemy is after its player, at the
/// place where the player is now. A request that names a missing entity, or
/// an entity of the wrong kind, leaves the world as it was.
pub open spec fn target_acquired(m: Map<Entity, Combatant>, ev: PositionChangeEvent) -> Map<
    Entity,
    Combatant,
> {
    if m.contains_key(ev.entity) && m[ev.entity].enemy is Some && m.contains_key(ev.target)
        && m[ev.target].player is Some {
        m.insert(ev.entity, with_target(m[ev.entity], ev.target, m[ev.target].position))
    } else {
        m
    }
}

/// A request that names an entity which is not in the world, be it the one
/// that is to go or the one to go after, changes nothing.
pub proof fn lemma_stale_request_is_dropped(m: Map<Entity, Combatant>, ev: PositionChangeEvent)
    requires
        !m.contains_key(ev.entity) || !m.contains_key(ev.target),
    ensures
        target_acquired(m, ev) == m,
{
}

/// The world after the requests `evs`, taken oldest first.
pub open spec fn targets_acquired(m: Map<Entity, Combatant>, evs: Seq<PositionChangeEvent>) -> Map<
    Entity,
    Combatant,
>
    decreases evs.len(),
{
    if evs.len() == 0 {
        m
    } else {
        target_acquired(targets_acquired(m, evs.drop_last()), evs.last())
    }
}

/// The world after the requests of a tick: only the oldest is taken up.
pub open spec fn targets_updated(m: Map<Entity, Combatant>, evs: Seq<PositionChangeEvent>) -> Map<
    Entity,
    Combatant,
> {
    targets_acquired(m, drained(evs, MOVEMENT_DRAIN))
}

/// With one request taken up a tick, the world changes by that request alone.
pub proof fn lemma_targets_updated(m: Map<Entity, Combatant>, evs: Seq<PositionChangeEvent>)
    ensures
        targets_updated(m, evs) == (if evs.len() > 0 {
            target_acquired(m, evs[0])
        } else {
            m
        }),
{
    if evs.len() > 0 {
        let one = seq![evs[0]];
        assert(drained(evs, MOVEMENT_DRAIN) == one);
        assert(one.drop_last() =~= Seq::<PositionChangeEvent>::empty());
        assert(targets_acquired(m, one.drop_last()) == m);
    }
}

fn acquire_target(world: &mut World, ev: PositionChangeEvent)
    ensures
        final(world)@ == target_acquired(old(world)@, ev),
        final(world).slot_count() == old(world).slot_count(),
        final(world).entity_seq() == old(world).entity_seq(),
        forall|x: Entity| final(world).retired(x) == old(world).retired(x),
{
    let (record, enemy) = match world.get(ev.entity) {
        Some(record) => match record.enemy {
            Some(enemy) => (record, enemy),
            None => {
                return ;
            },
        },
        None => {
            return ;
        },
    };
    let player_position = match world.get(ev.target) {
        Some(player_record) => match player_record.player {
            Some(_) => player_record.position,
            None => {
                return ;
            },
        },
        None => {
            return ;
        },
    };
    let updated = Combatant {
        enemy: Some(
            Enemy {
                id: enemy.id,
                aggro_radius: enemy.aggro_radius,
                target_entity: Some(ev.target),
                target_position: Some(player_position),
            },
        ),
        ..record
    };
    world.replace(ev.entity, updated);
}

/// Takes up the oldest request of the tick, and only that one: its enemy goes
/// after its player from now on, to where the player is at this moment.
pub fn update_target_position(movement_evt: &Vec<PositionChangeEvent>, world: &mut World)
    ensures
        final(world)@ == targets_updated(old(world)@, movement_evt@),
        final(world)@ == (if movement_evt@.len() > 0 {
            target_acquired(old(world)@, movement_evt@[0])
        } else {
            old(world)@
        }),
        final(world).slot_count() == old(world).slot_count(),
        final(world).entity_seq() == old(world).entity_seq(),
        forall|x: Entity| final(world).retired(x) == old(world).retired(x),
{
    let taken = drain(movement_evt, MOVEMENT_DRAIN);
    let mut i: usize = 0;
    proof {
        lemma_targets_updated(world@, movement_evt@);
        assert(taken@.take(0) =~= Seq::<PositionChangeEvent>::empty());
    }
    while i < taken.len()
        invariant
            i <= taken.len(),
            world@ == targets_acquired(old(world)@, taken@.take(i as int)),
            world.slot_count() == old(world).slot_count(),
            world.entity_seq() == old(world).entity_seq(),
            forall|x: Entity| world.retired(x) == old(world).retired(x),
        decreases taken.len() - i,
    {
        acquire_target(world, taken[i]);
        proof {
            assert(taken@.take(i + 1).drop_last() =~= taken@.take(i as int));
            assert(taken@.take(i + 1).last() == taken@[i as int]);
        }
        i = i + 1;
    }
    proof {
        assert(taken@.take(taken.len() as int) =~= taken@);
    }
}

/// What the character-motion controller is asked to do with one entity.
#[derive(Clone, Copy, Debug, PartialEq, Eq, Structural)]
pub struct MoveOrder {
    pub entity: Entity,
    /// Zero where the entity has arrived.
    pub desired_velocity: PlanarVelocity,
    /// Whether the entity is to turn towards where it is going: it is, unless
    /// it stands on the very spot or has arrived.
    pub face_forward: bool,
}

/// Whether `c` is an enemy that the planner moves: it is after a position and
/// has stats and a capsule collider.
pub open spec fn is_chasing(c: Combatant) -> bool {
    &&& c.enemy is Some
    &&& c.enemy->0.target_position is Some
    &&& c.comp_attribs is Some
    &&& c.collider is Some
    &&& capsule_radius(c.collider->0) is Some
}

/// Whether a chasing enemy still has ground to cover: its ground-plane
/// distance to the target position is at least the collision distance.
pub open spec fn has_way_to_go(c: Combatant, target_radius: u32) -> bool {
    let stop = collision_distance(capsule_radius(c.collider->0)->0, target_radius);
    planar_distance_sq(c.position, c.enemy->0.target_position->0) >= stop * stop
}

/// The order for one enemy: at its move speed straight towards the target
/// position while it has way to go, and to stand still once it has arrived.
pub open spec fn move_order(c: Combatant, entity: Entity, target_radius: u32) -> Option<MoveOrder> {
    if !is_chasing(c) {
        None
    } else if has_way_to_go(c, target_radius) {
        let target = c.enemy->0.target_position->0;
        Some(
            MoveOrder {
                entity,
                desired_velocity: velocity_towards(
                    c.position,
                    target,
                    c.comp_attribs->0.move_speed,
                ),
                face_forward: planar_distance_sq(c.position, target) > 0,
            },
        )
    } else {
        Some(MoveOrder { entity, desired_velocity: PlanarVelocity::zero(), face_forward: false })
    }
}

/// The enemy after planning: one that has arrived is after nobody any more.
pub open spec fn after_planning(c: Combatant, target_radius: u32) -> Combatant {
    if is_chasing(c) && !has_way_to_go(c, target_radius) {
        without_target(c)
    } else {
        c
    }
}

/// The orders for `ents`, in their order.
pub open spec fn move_orders(m: Map<Entity, Combatant>, ents: Seq<Entity>, target_radius: u32)
    -> Seq<MoveOrder>
    decreases ents.len(),
{
    if ents.len() == 0 {
        Seq::empty()
    } else {
        let rest = move_orders(m, ents.drop_last(), target_radius);
        if m.contains_key(ents.last()) {
            match move_order(m[ents.last()], ents.last(), target_radius) {
                Some(order) => rest.push(order),
                None => rest,
            }
        } else {
            rest
        }
    }
}

/// The capsule radius of the one player of the world, which the planner takes
/// for the radius of every target. Without exactly one player that has a
/// collider, or where that collider is no capsule, there is none.
pub open spec fn player_radius_in(m: Map<Entity, Combatant>, ents: Seq<Entity>) -> Option<u32> {
    match single_player_in(m, ents, true) {
        Some(p) => capsule_radius(m[p].collider->0),
        None => None,
    }
}

/// The capsule radius of the one player of `world`, if there is one.
pub open spec fn player_radius(world: &World) -> Option<u32> {
    player_radius_in(world@, world.entity_seq())
}

fn plan(c: &Combatant, entity: Entity, target_radius: u32) -> (r: (Option<MoveOrder>, Combatant))
    ensures
        r.0 == move_order(*c, entity, target_radius),
        r.1 == after_planning(*c, target_radius),
{
    let (enemy, stats, collider) = match (c.enemy, c.comp_attribs, c.collider) {
        (Some(enemy), Some(stats), Some(collider)) => (enemy, stats, collider),
        _ => {
            return (None, *c);
        },
    };
    let target_position = match enemy.target_position {
        Some(p) => p,
        None => {
            return (None, *c);
        },
    };
    let enemy_radius: u32 = match get_capsule_radius(&collider) {
        Some(r) => r,
        None => {
            return (None, *c);
        },
    };
    if beyond_collision_distance(c.position, enemy_radius, target_position, target_radius) {
        let velocity = desired_velocity(c.position, target_position, stats.move_speed);
        let apart = planar_distance_squared(c.position, target_position) > 0;
        (Some(MoveOrder { entity, desired_velocity: velocity, face_forward: apart }), *c)
    } else {
        let arrived = Combatant {
            enemy: Some(
                Enemy {
                    id: enemy.id,
                    aggro_radius: enemy.aggro_radius,
                    target_entity: None,
                    target_position: None,
                },
            ),
            ..*c
        };
        (
            Some(
                MoveOrder {
                    entity,
                    desired_velocity: PlanarVelocity { x: 0, z: 0 },
                    face_forward: false,
                },
            ),
            arrived,
        )
    }
}

/// Plans the movement of every enemy that is after a position, and lets go of
/// the targets that have been reached. Never moves anything itself: the orders
/// are for the character-motion controller. Without exactly one player that
/// has a capsule collider nothing is planned.
pub fn move_to_pos(world: &mut World) -> (orders: Vec<MoveOrder>)
    ensures
        match player_radius(old(world)) {
            Some(radius) => {
                &&& orders@ == move_orders(old(world)@, old(world).entity_seq(), radius)
                &&& final(world)@ == old(world)@.map_values(
                    |c: Combatant| after_planning(c, radius),
                )
            },
            None => orders@ == Seq::<MoveOrder>::empty() && final(world)@ == old(world)@,
        },
        final(world).slot_count() == old(world).slot_count(),
        final(world).entity_seq() == old(world).entity_seq(),
        forall|x: Entity| final(world).retired(x) == old(world).retired(x),
{
    let mut orders: Vec<MoveOrder> = Vec::new();
    let radius: u32 = match world.single_player(true) {
        Some(p) => match world.get(p) {
            Some(Combatant { collider: Some(collider), .. }) => match get_capsule_radius(
                &collider,
            ) {
                Some(radius) => radius,
                None => {
                    return orders;
                },
            },
            _ => {
                return orders;
            },
        },
        None => {
            return orders;
        },
    };
    let entities = world.entities();
    let mut i: usize = 0;
    proof {
        world.lemma_entity_seq();
        assert(entities@.take(0) =~= Seq::<Entity>::empty());
    }
    while i < entities.len()
        invariant
            i <= entities.len(),
            entities@ == old(world).entity_seq(),
            world.entity_seq() == old(world).entity_seq(),
            world.slot_count() == old(world).slot_count(),
            orders@ == move_orders(old(world)@, entities@.take(i as int), radius),
            forall|x: Entity| world.retired(x) == old(world).retired(x),
            forall|x: Entity| world@.contains_key(x) == old(world)@.contains_key(x),
            forall|x: Entity| #[trigger] entities@.contains(x) <==> old(world)@.contains_key(x),
            forall|a: int, b: int|
                0 <= a < b < entities@.len() ==> (#[trigger] entities@[a]).index < (
                #[trigger] entities@[b]).index,
            forall|k: int|
                0 <= k < i ==> world@[#[trigger] entities@[k]] == after_planning(
                    old(world)@[entities@[k]],
                    radius,
                ),
            forall|k: int|
                i <= k < entities@.len() ==> world@[#[trigger] entities@[k]] == old(
                    world,
                )@[entities@[k]],
        decreases entities.len() - i,
    {
        let e = entities[i];
        proof {
            assert(entities@.contains(e));
            assert(entities@.take(i + 1).drop_last() =~= entities@.take(i as int));
            assert(entities@.take(i + 1).last() == e);
        }
        match world.get(e) {
            Some(c) => {
                let (order, after) = plan(&c, e, radius);
                match order {
                    Some(order) => {
                        orders.push(order);
                    },
                    None => {},
                }
                world.replace(e, after);
            },
            None => {},
        }
        i = i + 1;
    }
    proof {
        assert(entities@.take(entities.len() as int) =~= entities@);
        let target = old(world)@.map_values(|c: Combatant| after_planning(c, radius));
        assert forall|x: Entity| world@.contains_key(x) implies #[trigger] world@[x] == target[x] by {
            assert(entities@.contains(x));
            let k = choose|k: int| 0 <= k < entities@.len() && entities@[k] == x;
            assert(world@[entities@[k]] == after_planning(old(world)@[entities@[k]], radius));
        }
        assert(world@ =~= target);
    }
    orders
}

/// Whether the enemy `c` is within its attack range of the player `p`.
pub open spec fn enemy_reaches(c: Combatant, p: Combatant) -> bool {
    &&& c.enemy is Some
    &&& c.comp_attribs is Some
    &&& c.collider is Some
    &&& capsule_radius(c.collider->0) is Some
    &&& p.collider is Some
    &&& capsule_radius(p.collider->0) is Some
    &&& within_attack_range(
        c.position,
        capsule_radius(c.collider->0)->0,
        p.position,
        capsule_radius(p.collider->0)->0,
        c.comp_attribs->0.attack_range,
    )
}

/// The attack requests of the enemies among `ents` on the player `p`.
pub open spec fn enemy_attacks(m: Map<Entity, Combatant>, ents: Seq<Entity>, p: Combatant) -> Seq<
    AttackEvent,
>
    decreases ents.len(),
{
    if ents.len() == 0 {
        Seq::empty()
    } else {
        let rest = enemy_attacks(m, ents.drop_last(), p);
        if m.contains_key(ents.last()) && enemy_reaches(m[ents.last()], p) {
            rest.push(
                AttackEvent { attacker: m[ents.last()].enemy->0.id, target: p.player->0.id },
            )
        } else {
            rest
        }
    }
}

fn reaches(c: &Combatant, p: &Combatant) -> (r: bool)
    ensures
        r == enemy_reaches(*c, *p),
{
    let (stats, collider, player_collider) = match (
        c.enemy,
        c.comp_attribs,
        c.collider,
        p.collider,
    ) {
        (Some(_), Some(stats), Some(collider), Some(player_collider)) => (
            stats,
            collider,
            player_collider,
        ),
        _ => {
            return false;
        },
    };
    let player_radius: u32 = match get_capsule_radius(&player_collider) {
        Some(r) => r,
        None => {
            return false;
        },
    };
    let enemy_radius: u32 = match get_capsule_radius(&collider) {
        Some(r) => r,
        None => {
            return false;
        },
    };
    in_attack_range(c.position, enemy_radius, p.position, player_radius, stats.attack_range)
}

/// Appends an attack request for every enemy that has the player within its
/// attack range. Whether the attack lands is decided when the request is
/// resolved. Without exactly one player that has a collider nothing is asked.
pub fn attack_player(world: &World, attack_event: &mut Vec<AttackEvent>)
    ensures
        final(attack_event)@ == old(attack_event)@ + (match world.the_player(true) {
            Some(p) => enemy_attacks(world@, world.entity_seq(), world@[p]),
            None => Seq::empty(),
        }),
{
    proof {
        assert(old(attack_event)@ + Seq::<AttackEvent>::empty() =~= old(attack_event)@);
    }
    let (player_record, player) = match world.single_player(true) {
        Some(p) => match world.get(p) {
            Some(record) => match record.player {
                Some(player) => (record, player),
                None => {
                    return ;
                },
            },
            None => {
                return ;
            },
        },
        None => {
            return ;
        },
    };
    let entities = world.entities();
    let mut i: usize = 0;
    proof {
        assert(entities@.take(0) =~= Seq::<Entity>::empty());
    }
    while i < entities.len()
        invariant
            i <= entities.len(),
            entities@ == world.entity_seq(),
            player_record.player == Some(player),
            attack_event@ == old(attack_event)@ + enemy_attacks(
                world@,
                entities@.take(i as int),
                player_record,
            ),
        decreases entities.len() - i,
    {
        let e = entities[i];
        proof {
            assert(entities@.take(i + 1).drop_last() =~= entities@.take(i as int));
            assert(entities@.take(i + 1).last() == e);
        }
        match world.get(e) {
            Some(c) => {
                if reaches(&c, &player_record) {
                    match c.enemy {
                        Some(enemy) => {
                            let ev = AttackEvent { attacker: enemy.id, target: player.id };
                            attack_event.push(ev);
                            proof {
                                let rest = enemy_attacks(
                                    world@,
                                    entities@.take(i as int),
                                    player_record,
                                );
                                assert(attack_event@ =~= old(attack_event)@ + rest.push(ev));
                            }
                        },
                        None => {},
                    }
                }
            },
            None => {},
        }
        i = i + 1;
    }
    proof {
        assert(entities@.take(entities.len() as int) =~= entities@);
    }
}

} // verus!
