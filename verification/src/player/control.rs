//! What the player's input comes to: where to go, how fast, whom to attack.

use vstd::prelude::*;
use crate::enemy::behaviours::MoveOrder;
use crate::event::types::{AttackEvent, EnemyClickEvent, GroundClickEvent};
use crate::models::player::Player;
use crate::models::pre_load::Movement;
use crate::spatial::{
    desired_velocity,
    in_attack_range,
    is_within_planar_radius,
    planar_distance_sq,
    planar_distance_squared,
    velocity_towards,
    within_attack_range,
    within_planar_radius,
    PlanarVelocity,
    Position,
};
use crate::utils::{capsule_radius, get_capsule_radius};
use crate::world::{Combatant, Entity, World};

verus! {

/// How close to the clicked spot the player has to come to have arrived: a
/// twentieth of a unit.
pub const ARRIVAL_DISTANCE: u32 = 50;

/// Whether the player `p` is within its attack range of the enemy `e`.
pub open spec fn player_reaches(p: Combatant, e: Combatant) -> bool {
    &&& e.enemy is Some
    &&& e.collider is Some
    &&& capsule_radius(e.collider->0) is Some
    &&& p.player is Some
    &&& p.comp_attribs is Some
    &&& p.collider is Some
    &&& capsule_radius(p.collider->0) is Some
    &&& within_attack_range(
        p.position,
        capsule_radius(p.collider->0)->0,
        e.position,
        capsule_radius(e.collider->0)->0,
        p.comp_attribs->0.attack_range,
    )
}

/// What a click on an enemy comes to: an attack request of the player on the
/// enemy, where both are there and the enemy is within the player's range.
pub open spec fn click_attack(m: Map<Entity, Combatant>, click: EnemyClickEvent) -> Option<
    AttackEvent,
> {
    if m.contains_key(click.target) && m.contains_key(click.player) && player_reaches(
        m[click.player],
        m[click.target],
    ) {
        Some(
            AttackEvent {
                attacker: m[click.player].player->0.id,
                target: m[click.target].enemy->0.id,
            },
        )
    } else {
        None
    }
}

/// A click that names an entity which is not in the world asks for nothing.
pub proof fn lemma_stale_click_is_dropped(m: Map<Entity, Combatant>, click: EnemyClickEvent)
    requires
        !m.contains_key(click.target) || !m.contains_key(click.player),
    ensures
        click_attack(m, click) is None,
{
}

/// The attack requests that the clicks `clicks` come to, in their order.
pub open spec fn click_attacks(m: Map<Entity, Combatant>, clicks: Seq<EnemyClickEvent>) -> Seq<
    AttackEvent,
>
    decreases clicks.len(),
{
    if clicks.len() == 0 {
        Seq::empty()
    } else {
        let rest = click_attacks(m, clicks.drop_last());
        match click_attack(m, clicks.last()) {
            Some(ev) => rest.push(ev),
            None => rest,
        }
    }
}

fn attack_on_click(world: &World, click: &EnemyClickEvent) -> (r: Option<AttackEvent>)
    ensures
        r == click_attack(world@, *click),
{
    let (enemy_record, enemy, enemy_collider) = match world.get(click.target) {
        Some(record) => match (record.enemy, record.collider) {
            (Some(enemy), Some(collider)) => (record, enemy, collider),
            _ => {
                return None;
            },
        },
        None => {
            return None;
        },
    };
    let (player_record, player, stats, player_collider) = match world.get(click.player) {
        Some(record) => match (record.player, record.comp_attribs, record.collider) {
            (Some(player), Some(stats), Some(collider)) => (record, player, stats, collider),
            _ => {
                return None;
            },
        },
        None => {
            return None;
        },
    };
    let player_radius: u32 = match get_capsule_radius(&player_collider) {
        Some(r) => r,
        None => {
            return None;
        },
    };
    let enemy_radius: u32 = match get_capsule_radius(&enemy_collider) {
        Some(r) => r,
        None => {
            return None;
        },
    };
    if in_attack_range(
        player_record.position,
        player_radius,
        enemy_record.position,
        enemy_radius,
        stats.attack_range,
    ) {
        Some(AttackEvent { attacker: player.id, target: enemy.id })
    } else {
        None
    }
}

/// Appends an attack request for every click on an enemy that is within the
/// player's attack range. A click that names a missing entity is dropped.
pub fn attack_enemy(
    enemy_click_event: &Vec<EnemyClickEvent>,
    world: &World,
    attack_event: &mut Vec<AttackEvent>,
)
    ensures
        final(attack_event)@ == old(attack_event)@ + click_attacks(world@, enemy_click_event@),
{
    let mut i: usize = 0;
    proof {
        assert(enemy_click_event@.take(0) =~= Seq::<EnemyClickEvent>::empty());
        assert(old(attack_event)@ + Seq::<AttackEvent>::empty() =~= old(attack_event)@);
    }
    while i < enemy_click_event.len()
        invariant
            i <= enemy_click_event.len(),
            attack_event@ == old(attack_event)@ + click_attacks(
                world@,
                enemy_click_event@.take(i as int),
            ),
        decreases enemy_click_event.len() - i,
    {
        let click = enemy_click_event[i];
        proof {
            assert(enemy_click_event@.take(i + 1).drop_last() =~= enemy_click_event@.take(
                i as int,
            ));
            assert(enemy_click_event@.take(i + 1).last() == click);
        }
        match attack_on_click(world, &click) {
            Some(ev) => {
                attack_event.push(ev);
                proof {
                    let rest = click_attacks(world@, enemy_click_event@.take(i as int));
                    assert(attack_event@ =~= old(attack_event)@ + rest.push(ev));
                }
            },
            None => {},
        }
        i = i + 1;
    }
    proof {
        assert(enemy_click_event@.take(enemy_click_event.len() as int) =~= enemy_click_event@);
    }
}

/// Where the player is headed once the oldest ground click of the tick, if
/// there is one, has been taken up.
pub open spec fn heading(player: Player, clicks: Seq<GroundClickEvent>) -> Option<Position> {
    if clicks.len() > 0 {
        Some(clicks[0].position)
    } else {
        player.target_position
    }
}

/// The order for the player at `position`: at its speed straight towards
/// where it is headed, and to stand still where it is headed nowhere.
pub open spec fn player_order(
    entity: Entity,
    position: Position,
    player: Player,
    clicks: Seq<GroundClickEvent>,
) -> MoveOrder {
    match heading(player, clicks) {
        Some(target) => MoveOrder {
            entity,
            desired_velocity: velocity_towards(position, target, player.speed),
            face_forward: planar_distance_sq(position, target) > 0,
        },
        None => MoveOrder { entity, desired_velocity: PlanarVelocity::zero(), face_forward: false },
    }
}

/// The player after the tick's movement: headed for the clicked spot, or for
/// nowhere once it is within the arrival distance of where it was headed.
pub open spec fn player_moved(c: Combatant, clicks: Seq<GroundClickEvent>) -> Combatant {
    match c.player {
        Some(player) => {
            let target = heading(player, clicks);
            let kept = if target is Some && within_planar_radius(
                c.position,
                target->0,
                ARRIVAL_DISTANCE,
            ) {
                None
            } else {
                target
            };
            Combatant { player: Some(Player { target_position: kept, ..player }), ..c }
        },
        None => c,
    }
}

/// Plans the player's movement for one tick. The oldest ground click, if any,
/// becomes the new destination. Without exactly one player nothing is planned
/// and nothing changes.
pub fn movement(ground_click_evt: &Vec<GroundClickEvent>, world: &mut World) -> (order: Option<
    MoveOrder,
>)
    ensures
        match old(world).the_player(false) {
            Some(p) => {
                &&& order == Some(
                    player_order(
                        p,
                        old(world)@[p].position,
                        old(world)@[p].player->0,
                        ground_click_evt@,
                    ),
                )
                &&& final(world)@ == old(world)@.insert(
                    p,
                    player_moved(old(world)@[p], ground_click_evt@),
                )
            },
            None => order is None && final(world)@ == old(world)@,
        },
        final(world).slot_count() == old(world).slot_count(),
        final(world).entity_seq() == old(world).entity_seq(),
        forall|x: Entity| final(world).retired(x) == old(world).retired(x),
{
    let (entity, record, player) = match world.single_player(false) {
        Some(p) => match world.get(p) {
            Some(record) => match record.player {
                Some(player) => (p, record, player),
                None => {
                    return None;
                },
            },
            None => {
                return None;
            },
        },
        None => {
            return None;
        },
    };
    let target: Option<Position> = if ground_click_evt.len() > 0 {
        Some(ground_click_evt[0].position)
    } else {
        player.target_position
    };
    let (order, kept) = match target {
        Some(target_position) => {
            let velocity = desired_velocity(record.position, target_position, player.speed);
            let apart = planar_distance_squared(record.position, target_position) > 0;
            let arrived = is_within_planar_radius(
                record.position,
                target_position,
                ARRIVAL_DISTANCE,
            );
            (
                MoveOrder { entity, desired_velocity: velocity, face_forward: apart },
                if arrived {
                    None
                } else {
                    target
                },
            )
        },
        None => (
            MoveOrder {
                entity,
                desired_velocity: PlanarVelocity { x: 0, z: 0 },
                face_forward: false,
            },
            None,
        ),
    };
    let updated = Combatant {
        player: Some(
            Player {
                id: player.id,
                speed: player.speed,
                animation_state: player.animation_state,
                target_position: kept,
                attribs: player.attribs,
                comp_attribs: player.comp_attribs,
            },
        ),
        ..record
    };
    world.replace(entity, updated);
    Some(order)
}

/// `speed` times `factor`, a factor in thousandths: rounded down, and held at
/// the highest value a speed has.
pub open spec fn speed_times(speed: u32, factor: u32) -> u32 {
    if (speed * factor) / 1000 > u32::MAX {
        u32::MAX
    } else {
        ((speed * factor) / 1000) as u32
    }
}

pub(crate) fn times(speed: u32, factor: u32) -> (r: u32)
    ensures
        r == speed_times(speed, factor),
{
    proof {
        assert(0 <= speed * factor <= 0xFFFF_FFFF * 0xFFFF_FFFF) by (nonlinear_arith)
            requires
                0 <= speed <= 0xFFFF_FFFF,
                0 <= factor <= 0xFFFF_FFFF,
        ;
    }
    let product: u64 = (speed as u64 * factor as u64) / 1000;
    if product > 0xFFFF_FFFF {
        0xFFFF_FFFF
    } else {
        product as u32
    }
}

/// Starts a sprint: a player that is not faster than its normal speed gets
/// faster by the sprint factor. One that is sprinting already stays as it is.
pub fn handle_sprint_in(player: &mut Player, movement: &Movement)
    ensures
        *final(player) == (Player {
            speed: if old(player).speed <= movement.speed {
                speed_times(old(player).speed, movement.sprint_factor)
            } else {
                old(player).speed
            },
            ..*old(player)
        }),
{
    if player.speed <= movement.speed {
        player.speed = times(player.speed, movement.sprint_factor);
    }
}

/// Ends a sprint: a player that is faster than its normal speed goes back to it.
pub fn handle_sprint_out(player: &mut Player, movement: &Movement)
    ensures
        *final(player) == (Player {
            speed: if old(player).speed > movement.speed {
                movement.speed
            } else {
                old(player).speed
            },
            ..*old(player)
        }),
{
    if player.speed > movement.speed {
        player.speed = movement.speed;
    }
}

/// Starts a crouch: the player gets slower by the crouch factor.
pub fn crouch_in(player: &mut Player, movement: &Movement)
    ensures
        *final(player) == (Player {
            speed: speed_times(old(player).speed, movement.crouch_factor),
            ..*old(player)
        }),
{
    player.speed = times(player.speed, movement.crouch_factor);
}

/// Ends a crouch: the player goes back to its normal speed.
pub fn crouch_out(player: &mut Player, movement: &Movement)
    ensures
        *final(player) == (Player { speed: movement.speed, ..*old(player) }),
{
    player.speed = movement.speed;
}

/// Below this speed a character counts as standing: a hundredth of a unit per
/// second.
pub const IDLE_TO_RUN_TRESHOLD: u32 = 10;

/// The time between two footsteps of a character that moves at
/// `actual_speed`, where `step` is the time between two steps at its
/// `nominal_speed`: as much longer as the character is slower. A standing
/// character takes no steps.
pub open spec fn step_time(step: u32, nominal_speed: u32, actual_speed: u32) -> Option<int> {
    if actual_speed > IDLE_TO_RUN_TRESHOLD {
        Some((step * nominal_speed) / (actual_speed as int))
    } else {
        None
    }
}

/// The time to set the step timer to, in the unit of `step`, or `None` where
/// the timer is to be left alone because the character stands.
pub fn adjusted_step_time(step: u32, nominal_speed: u32, actual_speed: u32) -> (r: Option<u64>)
    ensures
        match step_time(step, nominal_speed, actual_speed) {
            Some(time) => r == Some(time as u64),
            None => r is None,
        },
{
    if actual_speed > IDLE_TO_RUN_TRESHOLD {
        proof {
            assert(0 <= step * nominal_speed <= 0xFFFF_FFFF * 0xFFFF_FFFF) by (nonlinear_arith)
                requires
                    0 <= step <= 0xFFFF_FFFF,
                    0 <= nominal_speed <= 0xFFFF_FFFF,
            ;
        }
        Some((step as u64 * nominal_speed as u64) / actual_speed as u64)
    } else {
        None
    }
}

/// Whether a dash may start in the air: as long as no more than the allowed
/// number of air actions have been spent.
pub fn dash_allowed_in_air(air_count: usize, movement: &Movement) -> (r: bool)
    ensures
        r == (air_count <= movement.actions_in_air),
{
    air_count <= movement.actions_in_air as usize
}

} // verus!
