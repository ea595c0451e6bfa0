//! How an enemy comes into the world.

use vstd::prelude::*;
use crate::combat::AttackRateTimer;
use crate::event::triggers::{enemy_spawned, with_enemy_id};
use crate::models::attributes::{ComputedAttributes, Health};
use crate::models::enemy::Enemy;
use crate::models::pre_load::Hitbox;
use crate::spatial::Position;
use crate::utils::Collider;
use crate::world::{Combatant, Entity, World};

verus! {

/// Where an enemy appears: twenty units along x, five up.
pub open spec fn enemy_start() -> Position {
    Position { x: 20_000, y: 5_000, z: 0 }
}

/// The stats of an enemy: it moves at 3, hits for 2 every 1.6 seconds from a
/// range of 2, and has 10 hit points.
pub open spec fn enemy_stats() -> ComputedAttributes {
    ComputedAttributes {
        move_speed: 3_000,
        attack: 2_000,
        attack_range: 2_000,
        attack_rate: 1_600,
        health: Health { max_hp: 10_000, hp: 10_000 },
        ..ComputedAttributes::initial()
    }
}

/// The record of a newly spawned enemy with the given hitbox, before it knows
/// which entity it is.
pub open spec fn new_enemy(hitbox: Hitbox) -> Combatant {
    Combatant {
        position: enemy_start(),
        collider: Some(Collider::Capsule { radius: hitbox.radius, height: hitbox.height }),
        comp_attribs: Some(enemy_stats()),
        attack_timer: Some(AttackRateTimer { duration: 1_600_000_000, remaining: 0 }),
        player: None,
        enemy: Some(Enemy::initial()),
    }
}

/// Puts an enemy into the world. It is ready to attack at once and after
/// nobody. Returns its entity, or `None` where the world has no room left.
pub fn spawn_enemy(hitbox: &Hitbox, world: &mut World) -> (r: Option<Entity>)
    ensures
        r is Some <==> !old(world).exhausted(),
        old(world).slot_count() < u32::MAX ==> r is Some,
        match r {
            Some(e) => {
                &&& !old(world)@.contains_key(e)
                &&& !old(world).retired(e)
                &&& final(world)@ == old(world)@.insert(e, with_enemy_id(new_enemy(*hitbox), e))
            },
            None => final(world)@ == old(world)@,
        },
        forall|x: Entity| final(world).retired(x) == old(world).retired(x),
{
    let stats = ComputedAttributes {
        attack: 2_000,
        defence: 0,
        magic_defence: 0,
        magic_attack: 1000,
        hit_rate: 1000,
        dodge_rate: 0,
        crit_rate: 0,
        attack_rate: 1_600,
        attack_range: 2_000,
        move_speed: 3_000,
        health: Health::new(10_000),
        mana: crate::models::attributes::Mana::new(1000),
    };
    let record = Combatant {
        position: Position { x: 20_000, y: 5_000, z: 0 },
        collider: Some(Collider::capsule(hitbox.radius, hitbox.height)),
        comp_attribs: Some(stats),
        attack_timer: Some(AttackRateTimer::new(stats.attack_rate)),
        player: None,
        enemy: Some(Enemy::default()),
    };
    match world.spawn(record) {
        Some(e) => {
            enemy_spawned(world, e);
            proof {
                assert(world@ =~= old(world)@.insert(e, with_enemy_id(new_enemy(*hitbox), e)));
            }
            Some(e)
        },
        None => None,
    }
}

} // verus!
