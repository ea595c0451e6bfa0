//! One tick of the game: the systems in the order in which each finds the
//! signals of the one before it.

use vstd::prelude::*;
use crate::combat::{
    attack_reports,
    attacks_applied,
    handle_attack_event,
    tick_attack_timers,
    with_ticked_timer,
    AttackOutcome,
};
use crate::enemy::behaviours::{
    after_planning,
    attack_player,
    enemy_attacks,
    move_orders,
    move_to_pos,
    player_radius_in,
    targets_updated,
    update_target_position,
    MoveOrder,
};
use crate::event::emitters::{aggro_detector, detected, movement_emitter, movement_intents};
use crate::event::types::{
    AttackEvent,
    EnemyClickEvent,
    GroundClickEvent,
    PositionChangeEvent,
    ProximityEvent,
};
use crate::player::control::{
    attack_enemy,
    click_attacks,
    movement,
    player_moved,
    player_order,
};
use crate::world::{single_player_in, Combatant, Entity, World};

verus! {

/// What the engine reports for one tick.
pub struct TickInput {
    /// Simulated time since the last tick, in nanoseconds.
    pub delta: u64,
    /// How many players, and how many enemies, have moved since the last tick.
    pub moved_players: usize,
    pub moved_enemies: usize,
    /// The clicks on enemies and on the ground, oldest first.
    pub enemy_clicks: Vec<EnemyClickEvent>,
    pub ground_clicks: Vec<GroundClickEvent>,
}

/// What one tick asks of the engine, and what came of its attacks.
pub struct TickOutput {
    /// For the character-motion controller.
    pub enemy_orders: Vec<MoveOrder>,
    pub player_order: Option<MoveOrder>,
    /// The attack requests of the tick, oldest first, and what each came to.
    pub attacks: Vec<AttackEvent>,
    pub reports: Vec<AttackOutcome>,
}

/// The world once the timers have been ticked and the oldest proximity signal
/// of the tick has been taken up.
pub open spec fn after_tracking(
    m: Map<Entity, Combatant>,
    ents: Seq<Entity>,
    delta: u64,
    moved_players: usize,
    moved_enemies: usize,
) -> Map<Entity, Combatant> {
    let ticked = m.map_values(|c: Combatant| with_ticked_timer(c, delta));
    let proximity = detected(ticked, ents, moved_players, moved_enemies);
    targets_updated(ticked, movement_intents(proximity))
}

/// The orders for the enemies in the world `m`.
pub open spec fn planned_orders(m: Map<Entity, Combatant>, ents: Seq<Entity>) -> Seq<MoveOrder> {
    match player_radius_in(m, ents) {
        Some(radius) => move_orders(m, ents, radius),
        None => Seq::empty(),
    }
}

/// The world `m` once the enemies' movement has been planned.
pub open spec fn after_planning_all(m: Map<Entity, Combatant>, ents: Seq<Entity>) -> Map<
    Entity,
    Combatant,
> {
    match player_radius_in(m, ents) {
        Some(radius) => m.map_values(|c: Combatant| after_planning(c, radius)),
        None => m,
    }
}

/// The order for the player in the world `m`.
pub open spec fn planned_player_order(
    m: Map<Entity, Combatant>,
    ents: Seq<Entity>,
    clicks: Seq<GroundClickEvent>,
) -> Option<MoveOrder> {
    match single_player_in(m, ents, false) {
        Some(p) => Some(player_order(p, m[p].position, m[p].player->0, clicks)),
        None => None,
    }
}

/// The world `m` once the player's movement has been planned.
pub open spec fn after_player_movement(
    m: Map<Entity, Combatant>,
    ents: Seq<Entity>,
    clicks: Seq<GroundClickEvent>,
) -> Map<Entity, Combatant> {
    match single_player_in(m, ents, false) {
        Some(p) => m.insert(p, player_moved(m[p], clicks)),
        None => m,
    }
}

/// The attack requests in the world `m`: those of the enemies first, then
/// those that the clicks on enemies come to.
pub open spec fn requested_attacks(
    m: Map<Entity, Combatant>,
    ents: Seq<Entity>,
    clicks: Seq<EnemyClickEvent>,
) -> Seq<AttackEvent> {
    (match single_player_in(m, ents, true) {
        Some(p) => enemy_attacks(m, ents, m[p]),
        None => Seq::empty(),
    }) + click_attacks(m, clicks)
}

/// The world in which the attacks of the tick are resolved: timers ticked,
/// targets taken up, movement planned.
pub open spec fn before_resolution(
    m: Map<Entity, Combatant>,
    ents: Seq<Entity>,
    delta: u64,
    moved_players: usize,
    moved_enemies: usize,
    ground_clicks: Seq<GroundClickEvent>,
) -> Map<Entity, Combatant> {
    after_player_movement(
        after_planning_all(after_tracking(m, ents, delta, moved_players, moved_enemies), ents),
        ents,
        ground_clicks,
    )
}

/// Runs one tick. Every attack timer counts down first, whoever attacks or
/// not. Then each system runs after the one whose signals it reads:
/// proximity detection, target tracking, movement planning, and at last
/// attack resolution, which removes the dead at once.
pub fn update(world: &mut World, input: &TickInput) -> (out: TickOutput)
    ensures
        ({
            let ents = old(world).entity_seq();
            let aimed = after_tracking(
                old(world)@,
                ents,
                input.delta,
                input.moved_players,
                input.moved_enemies,
            );
            let planned = after_planning_all(aimed, ents);
            let ready = before_resolution(
                old(world)@,
                ents,
                input.delta,
                input.moved_players,
                input.moved_enemies,
                input.ground_clicks@,
            );
            &&& out.enemy_orders@ == planned_orders(aimed, ents)
            &&& out.player_order == planned_player_order(planned, ents, input.ground_clicks@)
            &&& out.attacks@ == requested_attacks(ready, ents, input.enemy_clicks@)
            &&& out.reports@ == attack_reports(ready, out.attacks@)
            &&& final(world)@ == attacks_applied(ready, out.attacks@)
        }),
        final(world).slot_count() == old(world).slot_count(),
        forall|x: Entity| old(world).retired(x) ==> final(world).retired(x),
        forall|x: Entity|
            old(world)@.contains_key(x) && !final(world)@.contains_key(x) ==> final(world).retired(
                x,
            ),
        forall|x: Entity| final(world)@.contains_key(x) ==> old(world)@.contains_key(x),
{
    tick_attack_timers(world, input.delta);

    let mut proximity: Vec<ProximityEvent> = Vec::new();
    aggro_detector(world, input.moved_players, input.moved_enemies, &mut proximity);
    proof {
        let found = detected(
            world@,
            old(world).entity_seq(),
            input.moved_players,
            input.moved_enemies,
        );
        assert(Seq::<ProximityEvent>::empty() + found =~= found);
    }
    let mut intents: Vec<PositionChangeEvent> = Vec::new();
    movement_emitter(&proximity, &mut intents);
    proof {
        assert(Seq::<PositionChangeEvent>::empty() + movement_intents(proximity@)
            =~= movement_intents(proximity@));
    }
    update_target_position(&intents, world);

    let enemy_orders = move_to_pos(world);
    let player_order = movement(&input.ground_clicks, world);

    let mut attacks: Vec<AttackEvent> = Vec::new();
    attack_player(world, &mut attacks);
    attack_enemy(&input.enemy_clicks, world, &mut attacks);
    proof {
        let ents = old(world).entity_seq();
        assert(attacks@ =~= requested_attacks(world@, ents, input.enemy_clicks@));
    }
    let reports = handle_attack_event(&attacks, world);
    TickOutput { enemy_orders, player_order, attacks, reports }
}

} // verus!
