//! How the player comes into the world.

use vstd::prelude::*;
use crate::combat::AttackRateTimer;
use crate::event::triggers::{player_spawned, with_player_id};
use crate::models::attributes::{Attributes, ComputedAttributes, Health, Mana};
use crate::models::event_dispatch::SwitchInputCtx;
use crate::models::input::Context;
use crate::models::player::{AnimationState, Player};
use crate::models::pre_load::PlayerConfig;
use crate::spatial::Position;
use crate::utils::Collider;
use crate::world::{Combatant, Entity, World};

verus! {

/// Where the player appears: above the origin, five units up.
pub open spec fn player_start() -> Position {
    Position { x: 0, y: 5_000, z: 0 }
}

/// The stats of the player: it moves at `speed`, hits for 5 every 1.6 seconds
/// from a range of 2, and has 30 hit points.
pub open spec fn player_stats(speed: u32) -> ComputedAttributes {
    ComputedAttributes {
        move_speed: speed,
        attack: 5_000,
        attack_rate: 1_600,
        attack_range: 2_000,
        health: Health { max_hp: 30_000, hp: 30_000 },
        ..ComputedAttributes::initial()
    }
}

/// The record of a newly spawned player, before it knows which entity it is.
pub open spec fn new_player(cfg: PlayerConfig) -> Combatant {
    Combatant {
        position: player_start(),
        collider: Some(Collider::Capsule { radius: cfg.hitbox.radius, height: cfg.hitbox.height }),
        comp_attribs: Some(player_stats(cfg.movement.speed)),
        attack_timer: Some(AttackRateTimer { duration: 1_600_000_000, remaining: 0 }),
        player: Some(Player { speed: cfg.movement.speed, ..Player::initial() }),
        enemy: None,
    }
}

/// What spawning the player gives: its entity, and the switches of the input
/// context that it asks for.
pub struct SpawnedPlayer {
    pub entity: Entity,
    pub switches: Vec<SwitchInputCtx>,
}

/// Puts the player into the world, ready to attack at once, and asks for the
/// gameplay input context. Returns `None` where the world has no room left.
pub fn spawn_player(cfg: &PlayerConfig, world: &mut World) -> (r: Option<SpawnedPlayer>)
    ensures
        r is Some <==> !old(world).exhausted(),
        old(world).slot_count() < u32::MAX ==> r is Some,
        match r {
            Some(spawned) => {
                &&& !old(world)@.contains_key(spawned.entity)
                &&& !old(world).retired(spawned.entity)
                &&& final(world)@ == old(world)@.insert(
                    spawned.entity,
                    with_player_id(new_player(*cfg), spawned.entity),
                )
                &&& spawned.switches@ == seq![
                    SwitchInputCtx { ctx: Context::Gameplay, entity: spawned.entity },
                    SwitchInputCtx { ctx: Context::Gameplay, entity: Entity::placeholder() },
                ]
            },
            None => final(world)@ == old(world)@,
        },
        forall|x: Entity| final(world).retired(x) == old(world).retired(x),
{
    let player = Player {
        id: Entity::placeholder(),
        speed: cfg.movement.speed,
        animation_state: AnimationState::StandIdle,
        target_position: None,
        attribs: Attributes::default(),
        comp_attribs: ComputedAttributes::default(),
    };
    let comp_attribs = ComputedAttributes {
        attack: 5_000,
        defence: 0,
        magic_defence: 0,
        magic_attack: 1000,
        hit_rate: 1000,
        dodge_rate: 0,
        crit_rate: 0,
        attack_rate: 1_600,
        attack_range: 2_000,
        move_speed: cfg.movement.speed,
        health: Health::new(30_000),
        mana: Mana::new(1000),
    };
    let record = Combatant {
        position: Position { x: 0, y: 5_000, z: 0 },
        collider: Some(Collider::capsule(cfg.hitbox.radius, cfg.hitbox.height)),
        comp_attribs: Some(comp_attribs),
        attack_timer: Some(AttackRateTimer::new(comp_attribs.attack_rate)),
        player: Some(player),
        enemy: None,
    };
    match world.spawn(record) {
        Some(entity) => {
            let switches = player_spawned(world, entity);
            proof {
                assert(world@ =~= old(world)@.insert(
                    entity,
                    with_player_id(new_player(*cfg), entity),
                ));
            }
            Some(SpawnedPlayer { entity, switches })
        },
        None => None,
    }
}

} // verus!
