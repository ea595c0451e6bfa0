//! The systems that turn what happened in the world into signals.

use vstd::prelude::*;
use crate::event::queue::{drain, drained, PROXIMITY_DRAIN};
use crate::event::types::{GroundClickEvent, PositionChangeEvent, ProximityEvent};
use crate::spatial::{is_within_planar_radius, within_planar_radius, Position};
use crate::world::{Combatant, Entity, World};

verus! {

/// Whether `enemy` notices `player`: both are live, one is an enemy, the other
/// a player, and their ground-plane distance is within the enemy's aggro radius.
pub open spec fn in_aggro(m: Map<Entity, Combatant>, enemy: Entity, player: Entity) -> bool {
    &&& m.contains_key(enemy)
    &&& m.contains_key(player)
    &&& m[enemy].enemy is Some
    &&& m[player].player is Some
    &&& within_planar_radius(m[enemy].position, m[player].position, m[enemy].enemy->0.aggro_radius)
}

/// The proximity signals of one enemy, one for each of `players` that it
/// notices, in their order.
pub open spec fn proximity_row(m: Map<Entity, Combatant>, enemy: Entity, players: Seq<Entity>)
    -> Seq<ProximityEvent>
    decreases players.len(),
{
    if players.len() == 0 {
        Seq::empty()
    } else {
        let rest = proximity_row(m, enemy, players.drop_last());
        if in_aggro(m, enemy, players.last()) {
            rest.push(ProximityEvent { player_entity: players.last(), enemy_entity: enemy })
        } else {
            rest
        }
    }
}

/// The proximity signals of a tick: enemy by enemy, and for each enemy player
/// by player.
pub open spec fn proximity_events(
    m: Map<Entity, Combatant>,
    enemies: Seq<Entity>,
    players: Seq<Entity>,
) -> Seq<ProximityEvent>
    decreases enemies.len(),
{
    if enemies.len() == 0 {
        Seq::empty()
    } else {
        proximity_events(m, enemies.drop_last(), players) + proximity_row(
            m,
            enemies.last(),
            players,
        )
    }
}

/// A row holds a signal exactly for the players that the enemy notices.
pub proof fn lemma_proximity_row(
    m: Map<Entity, Combatant>,
    enemy: Entity,
    players: Seq<Entity>,
    ev: ProximityEvent,
)
    ensures
        proximity_row(m, enemy, players).contains(ev) <==> ev.enemy_entity == enemy
            && players.contains(ev.player_entity) && in_aggro(m, enemy, ev.player_entity),
    decreases players.len(),
{
    if players.len() > 0 {
        let front = players.drop_last();
        let rest = proximity_row(m, enemy, front);
        let row = proximity_row(m, enemy, players);
        lemma_proximity_row(m, enemy, front, ev);
        if front.contains(ev.player_entity) {
            let k = choose|k: int| 0 <= k < front.len() && front[k] == ev.player_entity;
            assert(players[k] == ev.player_entity);
        }
        if players.contains(ev.player_entity) && !front.contains(ev.player_entity) {
            let k = choose|k: int| 0 <= k < players.len() && players[k] == ev.player_entity;
            if k < front.len() {
                assert(front[k] == ev.player_entity);
            }
            assert(players.last() == ev.player_entity);
        }
        if in_aggro(m, enemy, players.last()) {
            let last = ProximityEvent { player_entity: players.last(), enemy_entity: enemy };
            assert(row == rest.push(last));
            if row.contains(ev) {
                let k = choose|k: int| 0 <= k < row.len() && row[k] == ev;
                if k < rest.len() {
                    assert(rest[k] == ev);
                } else {
                    assert(players[players.len() - 1] == ev.player_entity);
                }
            }
            if rest.contains(ev) {
                let k = choose|k: int| 0 <= k < rest.len() && rest[k] == ev;
                assert(row[k] == ev);
            }
            if ev == last {
                assert(row[rest.len() as int] == ev);
            }
        }
    }
}

/// The signals of a tick are exactly the pairs of an enemy and a player that
/// it notices.
pub proof fn lemma_proximity_events(
    m: Map<Entity, Combatant>,
    enemies: Seq<Entity>,
    players: Seq<Entity>,
    ev: ProximityEvent,
)
    ensures
        proximity_events(m, enemies, players).contains(ev) <==> enemies.contains(ev.enemy_entity)
            && players.contains(ev.player_entity) && in_aggro(
            m,
            ev.enemy_entity,
            ev.player_entity,
        ),
    decreases enemies.len(),
{
    if enemies.len() > 0 {
        let front = enemies.drop_last();
        let before = proximity_events(m, front, players);
        let row = proximity_row(m, enemies.last(), players);
        let all = proximity_events(m, enemies, players);
        lemma_proximity_events(m, front, players, ev);
        lemma_proximity_row(m, enemies.last(), players, ev);
        if front.contains(ev.enemy_entity) {
            let k = choose|k: int| 0 <= k < front.len() && front[k] == ev.enemy_entity;
            assert(enemies[k] == ev.enemy_entity);
        }
        if enemies.contains(ev.enemy_entity) && !front.contains(ev.enemy_entity) {
            let k = choose|k: int| 0 <= k < enemies.len() && enemies[k] == ev.enemy_entity;
            if k < front.len() {
                assert(front[k] == ev.enemy_entity);
            }
        }
        if all.contains(ev) {
            let k = choose|k: int| 0 <= k < all.len() && all[k] == ev;
            if k < before.len() {
                assert(before[k] == ev);
            } else {
                assert(row[k - before.len()] == ev);
                assert(enemies[enemies.len() - 1] == ev.enemy_entity);
            }
        }
        if before.contains(ev) {
            let k = choose|k: int| 0 <= k < before.len() && before[k] == ev;
            assert(all[k] == ev);
        }
        if row.contains(ev) {
            let k = choose|k: int| 0 <= k < row.len() && row[k] == ev;
            assert(all[before.len() + k] == ev);
        }
    }
}

fn notices(world: &World, enemy: Entity, player: Entity) -> (r: bool)
    ensures
        r == in_aggro(world@, enemy, player),
{
    let (enemy_record, player_record) = match (world.get(enemy), world.get(player)) {
        (Some(e), Some(p)) => (e, p),
        _ => {
            return false;
        },
    };
    match (enemy_record.enemy, player_record.player) {
        (Some(enemy_side), Some(_)) => is_within_planar_radius(
            enemy_record.position,
            player_record.position,
            enemy_side.aggro_radius,
        ),
        _ => false,
    }
}

/// Appends a proximity signal for every enemy and every player within its
/// aggro radius. The distance is taken on the ground plane.
pub fn proximity_emitter(world: &World, proximity_evt_writer: &mut Vec<ProximityEvent>)
    ensures
        final(proximity_evt_writer)@ == old(proximity_evt_writer)@ + proximity_events(
            world@,
            world.entity_seq(),
            world.entity_seq(),
        ),
{
    let entities = world.entities();
    let mut i: usize = 0;
    proof {
        assert(entities@.take(0) =~= Seq::<Entity>::empty());
        assert(old(proximity_evt_writer)@ + Seq::<ProximityEvent>::empty() =~= old(
            proximity_evt_writer,
        )@);
    }
    while i < entities.len()
        invariant
            i <= entities.len(),
            entities@ == world.entity_seq(),
            proximity_evt_writer@ == old(proximity_evt_writer)@ + proximity_events(
                world@,
                entities@.take(i as int),
                entities@,
            ),
        decreases entities.len() - i,
    {
        let enemy = entities[i];
        let ghost before = proximity_evt_writer@;
        let mut j: usize = 0;
        proof {
            assert(entities@.take(0) =~= Seq::<Entity>::empty());
            assert(before + Seq::<ProximityEvent>::empty() =~= before);
        }
        while j < entities.len()
            invariant
                j <= entities.len(),
                i < entities.len(),
                enemy == entities@[i as int],
                proximity_evt_writer@ == before + proximity_row(
                    world@,
                    enemy,
                    entities@.take(j as int),
                ),
            decreases entities.len() - j,
        {
            let player = entities[j];
            proof {
                assert(entities@.take(j + 1).drop_last() =~= entities@.take(j as int));
                assert(entities@.take(j + 1).last() == player);
            }
            if notices(world, enemy, player) {
                proximity_evt_writer.push(
                    ProximityEvent { player_entity: player, enemy_entity: enemy },
                );
                proof {
                    let row = proximity_row(world@, enemy, entities@.take(j as int));
                    assert(proximity_evt_writer@ =~= before + row.push(
                        ProximityEvent { player_entity: player, enemy_entity: enemy },
                    ));
                }
            }
            j = j + 1;
        }
        proof {
            assert(entities@.take(entities.len() as int) =~= entities@);
            assert(entities@.take(i + 1).drop_last() =~= entities@.take(i as int));
            assert(entities@.take(i + 1).last() == enemy);
            let done = proximity_events(world@, entities@.take(i as int), entities@);
            let row = proximity_row(world@, enemy, entities@);
            assert(old(proximity_evt_writer)@ + done + row =~= old(proximity_evt_writer)@ + (done
                + row));
        }
        i = i + 1;
    }
    proof {
        assert(entities@.take(entities.len() as int) =~= entities@);
    }
}

/// What a proximity signal asks for: that its enemy go after its player.
pub open spec fn movement_intent(ev: ProximityEvent) -> PositionChangeEvent {
    PositionChangeEvent { entity: ev.enemy_entity, target: ev.player_entity }
}

/// The requests that the proximity signals of a tick come to: one for each
/// signal that is taken up, which is the oldest only.
pub open spec fn movement_intents(proximity: Seq<ProximityEvent>) -> Seq<PositionChangeEvent> {
    drained(proximity, PROXIMITY_DRAIN).map_values(|ev: ProximityEvent| movement_intent(ev))
}

/// Turns the oldest proximity signal of the tick, and only that one, into a
/// request to go after the player.
pub fn movement_emitter(
    proximity_evt_reader: &Vec<ProximityEvent>,
    movement_event_writer: &mut Vec<PositionChangeEvent>,
)
    ensures
        final(movement_event_writer)@ == old(movement_event_writer)@ + movement_intents(
            proximity_evt_reader@,
        ),
        movement_intents(proximity_evt_reader@) == (if proximity_evt_reader@.len() > 0 {
            seq![movement_intent(proximity_evt_reader@[0])]
        } else {
            Seq::empty()
        }),
{
    let taken = drain(proximity_evt_reader, PROXIMITY_DRAIN);
    let mut i: usize = 0;
    proof {
        assert(old(movement_event_writer)@ + Seq::<PositionChangeEvent>::empty() =~= old(
            movement_event_writer,
        )@);
        assert(movement_intents(proximity_evt_reader@) =~= (if proximity_evt_reader@.len() > 0 {
            seq![movement_intent(proximity_evt_reader@[0])]
        } else {
            Seq::empty()
        }));
    }
    while i < taken.len()
        invariant
            i <= taken.len(),
            taken@ == drained(proximity_evt_reader@, PROXIMITY_DRAIN),
            movement_event_writer@ == old(movement_event_writer)@ + taken@.take(
                i as int,
            ).map_values(|ev: ProximityEvent| movement_intent(ev)),
        decreases taken.len() - i,
    {
        let proximity_evt = &taken[i];
        let move_evt = PositionChangeEvent::new(
            proximity_evt.enemy_entity,
            proximity_evt.player_entity,
        );
        movement_event_writer.push(move_evt);
        proof {
            assert(movement_event_writer@ =~= old(movement_event_writer)@ + taken@.take(
                i + 1,
            ).map_values(|ev: ProximityEvent| movement_intent(ev)));
        }
        i = i + 1;
    }
    proof {
        assert(taken@.take(taken.len() as int) =~= taken@);
    }
}

/// Whether proximity has to be looked at again: only when a player or an enemy
/// has moved since the last tick.
pub fn transform_changed(moved_players: usize, moved_enemies: usize) -> (r: bool)
    ensures
        r == (moved_players > 0 || moved_enemies > 0),
{
    moved_players != 0 || moved_enemies != 0
}

/// The proximity signals of a tick in which `moved_players` players and
/// `moved_enemies` enemies have moved: none where nobody has.
pub open spec fn detected(
    m: Map<Entity, Combatant>,
    ents: Seq<Entity>,
    moved_players: usize,
    moved_enemies: usize,
) -> Seq<ProximityEvent> {
    if moved_players > 0 || moved_enemies > 0 {
        proximity_events(m, ents, ents)
    } else {
        Seq::empty()
    }
}

/// Looks for players within the aggro radius of an enemy, once a tick, but
/// only where a player or an enemy has moved since the last tick: in a world
/// at rest nothing is measured and nothing is signalled.
pub fn aggro_detector(
    world: &World,
    moved_players: usize,
    moved_enemies: usize,
    proximity_evt_writer: &mut Vec<ProximityEvent>,
)
    ensures
        final(proximity_evt_writer)@ == old(proximity_evt_writer)@ + detected(
            world@,
            world.entity_seq(),
            moved_players,
            moved_enemies,
        ),
{
    if transform_changed(moved_players, moved_enemies) {
        proximity_emitter(world, proximity_evt_writer);
    } else {
        proof {
            assert(old(proximity_evt_writer)@ + Seq::<ProximityEvent>::empty() =~= old(
                proximity_evt_writer,
            )@);
        }
    }
}

/// A click that a pointer made on some entity.
#[derive(Clone, Copy, Debug, PartialEq, Eq, Structural)]
pub struct PointerClick {
    pub target: Entity,
    /// Where the pointer's ray met the entity, if the picking layer knows.
    pub hit_position: Option<Position>,
}

/// A piece of ground: the height of its centre and how thick it is.
#[derive(Clone, Copy, Debug, PartialEq, Eq, Structural)]
pub struct GroundPlane {
    pub entity: Entity,
    pub translation_y: i32,
    pub scale_y: u32,
}

/// The height of the ground's surface: its centre plus half its thickness,
/// held at the highest value a coordinate has.
pub open spec fn surface_height(ground: GroundPlane) -> i32 {
    if ground.translation_y + ground.scale_y / 2 > i32::MAX {
        i32::MAX
    } else {
        (ground.translation_y + ground.scale_y / 2) as i32
    }
}

/// What a click comes to: a ground click at the hit position, lifted or
/// lowered to the surface, where the click met `ground` and the hit is known.
pub open spec fn ground_click(click: PointerClick, ground: GroundPlane) -> Option<
    GroundClickEvent,
> {
    if click.target == ground.entity && click.hit_position is Some {
        Some(
            GroundClickEvent {
                position: Position {
                    x: click.hit_position->0.x,
                    y: surface_height(ground),
                    z: click.hit_position->0.z,
                },
            },
        )
    } else {
        None
    }
}

/// The ground clicks among `clicks`, in their order.
pub open spec fn ground_clicks(clicks: Seq<PointerClick>, ground: GroundPlane) -> Seq<
    GroundClickEvent,
>
    decreases clicks.len(),
{
    if clicks.len() == 0 {
        Seq::empty()
    } else {
        let rest = ground_clicks(clicks.drop_last(), ground);
        match ground_click(clicks.last(), ground) {
            Some(ev) => rest.push(ev),
            None => rest,
        }
    }
}

/// Appends a ground click for every click that met the ground.
pub fn ground_click_emitter(
    click_events: &Vec<PointerClick>,
    ground: &GroundPlane,
    ground_click_events: &mut Vec<GroundClickEvent>,
)
    ensures
        final(ground_click_events)@ == old(ground_click_events)@ + ground_clicks(
            click_events@,
            *ground,
        ),
{
    let mut i: usize = 0;
    proof {
        assert(click_events@.take(0) =~= Seq::<PointerClick>::empty());
        assert(old(ground_click_events)@ + Seq::<GroundClickEvent>::empty() =~= old(
            ground_click_events,
        )@);
    }
    while i < click_events.len()
        invariant
            i <= click_events.len(),
            ground_click_events@ == old(ground_click_events)@ + ground_clicks(
                click_events@.take(i as int),
                *ground,
            ),
        decreases click_events.len() - i,
    {
        let click = click_events[i];
        proof {
            assert(click_events@.take(i + 1).drop_last() =~= click_events@.take(i as int));
            assert(click_events@.take(i + 1).last() == click);
        }
        if click.target == ground.entity {
            match click.hit_position {
                Some(click_position) => {
                    let raised: i64 = ground.translation_y as i64 + (ground.scale_y / 2) as i64;
                    let surface_y: i32 = if raised > 0x7FFF_FFFF {
                        0x7FFF_FFFF
                    } else {
                        raised as i32
                    };
                    let position = Position {
                        x: click_position.x,
                        y: surface_y,
                        z: click_position.z,
                    };
                    ground_click_events.push(GroundClickEvent { position });
                    proof {
                        let rest = ground_clicks(click_events@.take(i as int), *ground);
                        assert(ground_click_events@ =~= old(ground_click_events)@ + rest.push(
                            GroundClickEvent { position },
                        ));
                    }
                },
                None => {},
            }
        }
        i = i + 1;
    }
    proof {
        assert(click_events@.take(click_events.len() as int) =~= click_events@);
    }
}

} // verus!
