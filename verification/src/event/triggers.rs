//! What happens when an entity is spawned or clicked.

use vstd::prelude::*;
use crate::event::types::EnemyClickEvent;
use crate::models::enemy::Enemy;
use crate::models::event_dispatch::SwitchInputCtx;
use crate::models::input::Context;
use crate::models::player::Player;
use crate::world::{Combatant, Entity, World};

verus! {

/// What a click on `target_entity` comes to: an enemy click, where the world
/// has exactly one player and the clicked entity is an enemy.
pub open spec fn enemy_click(world: &World, target_entity: Entity) -> Option<EnemyClickEvent> {
    match world.the_player(false) {
        Some(player) => if world@.contains_key(target_entity) && world@[target_entity].enemy
            is Some {
            Some(
                EnemyClickEvent {
                    target: world@[target_entity].enemy->0.id,
                    player: world@[player].player->0.id,
                },
            )
        } else {
            None
        },
        None => None,
    }
}

/// Appends an enemy click where the clicked entity is an enemy. Without
/// exactly one player in the world the click is dropped.
pub fn enemy_click_emitter(
    target_entity: Entity,
    world: &World,
    enemy_click_events: &mut Vec<EnemyClickEvent>,
)
    ensures
        final(enemy_click_events)@ == (match enemy_click(world, target_entity) {
            Some(ev) => old(enemy_click_events)@.push(ev),
            None => old(enemy_click_events)@,
        }),
{
    let player: Player = match world.single_player(false) {
        Some(entity) => match world.get(entity) {
            Some(Combatant { player: Some(player), .. }) => player,
            _ => {
                return ;
            },
        },
        None => {
            return ;
        },
    };
    match world.get(target_entity) {
        Some(Combatant { enemy: Some(enemy), .. }) => {
            enemy_click_events.push(EnemyClickEvent { target: enemy.id, player: player.id });
        },
        _ => {},
    }
}

/// `c` as an enemy that knows its own entity.
pub open spec fn with_enemy_id(c: Combatant, entity: Entity) -> Combatant {
    match c.enemy {
        Some(enemy) => Combatant { enemy: Some(Enemy { id: entity, ..enemy }), ..c },
        None => c,
    }
}

/// `c` as a player that knows its own entity.
pub open spec fn with_player_id(c: Combatant, entity: Entity) -> Combatant {
    match c.player {
        Some(player) => Combatant { player: Some(Player { id: entity, ..player }), ..c },
        None => c,
    }
}

/// Tells a newly spawned enemy which entity it is.
pub fn enemy_spawned(world: &mut World, enemy: Entity)
    ensures
        final(world)@ == (if old(world)@.contains_key(enemy) {
            old(world)@.insert(enemy, with_enemy_id(old(world)@[enemy], enemy))
        } else {
            old(world)@
        }),
        final(world).slot_count() == old(world).slot_count(),
        final(world).entity_seq() == old(world).entity_seq(),
        forall|x: Entity| final(world).retired(x) == old(world).retired(x),
{
    match world.get(enemy) {
        Some(record) => {
            let updated = match record.enemy {
                Some(e) => Combatant {
                    enemy: Some(
                        Enemy {
                            id: enemy,
                            aggro_radius: e.aggro_radius,
                            target_position: e.target_position,
                            target_entity: e.target_entity,
                        },
                    ),
                    ..record
                },
                None => record,
            };
            world.replace(enemy, updated);
        },
        None => {},
    }
}

/// Tells a newly spawned player which entity it is, and asks for the gameplay
/// input context: once for that player and once for the global context.
pub fn player_spawned(world: &mut World, player: Entity) -> (switches: Vec<SwitchInputCtx>)
    ensures
        final(world)@ == (if old(world)@.contains_key(player) {
            old(world)@.insert(player, with_player_id(old(world)@[player], player))
        } else {
            old(world)@
        }),
        final(world).slot_count() == old(world).slot_count(),
        final(world).entity_seq() == old(world).entity_seq(),
        forall|x: Entity| final(world).retired(x) == old(world).retired(x),
        switches@ == seq![
            SwitchInputCtx { ctx: Context::Gameplay, entity: player },
            SwitchInputCtx { ctx: Context::Gameplay, entity: Entity::placeholder() },
        ],
{
    match world.get(player) {
        Some(record) => {
            let updated = match record.player {
                Some(p) => Combatant {
                    player: Some(
                        Player {
                            id: player,
                            speed: p.speed,
                            animation_state: p.animation_state,
                            target_position: p.target_position,
                            attribs: p.attribs,
                            comp_attribs: p.comp_attribs,
                        },
                    ),
                    ..record
                },
                None => record,
            };
            world.replace(player, updated);
        },
        None => {},
    }
    let mut switches: Vec<SwitchInputCtx> = Vec::new();
    switches.push(SwitchInputCtx::new(player, Context::Gameplay));
    switches.push(SwitchInputCtx::from_context(Context::Gameplay));
    switches
}

} // verus!
