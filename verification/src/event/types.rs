//! The signal types. A signal lives for one tick, in a queue of its own kind,
//! oldest first.

use vstd::prelude::*;
use crate::spatial::Position;
use crate::world::Entity;

verus! {

/// The player clicked on an enemy.
#[derive(Clone, Copy, Debug, PartialEq, Eq, Structural)]
pub struct EnemyClickEvent {
    pub target: Entity,
    pub player: Entity,
}

/// `attacker` tries to hit `target`. Range and cooldown decide whether it does.
#[derive(Clone, Copy, Debug, PartialEq, Eq, Structural)]
pub struct AttackEvent {
    pub attacker: Entity,
    pub target: Entity,
}

/// A player has come within an enemy's aggro radius.
#[derive(Clone, Copy, Debug, PartialEq, Eq, Structural)]
pub struct ProximityEvent {
    pub player_entity: Entity,
    pub enemy_entity: Entity,
}

/// `entity` is to go after `target`.
#[derive(Clone, Copy, Debug, PartialEq, Eq, Structural)]
pub struct PositionChangeEvent {
    pub entity: Entity,
    pub target: Entity,
}

impl PositionChangeEvent {
    pub fn new(entity: Entity, target: Entity) -> (r: Self)
        ensures
            r == (PositionChangeEvent { entity, target }),
    {
        Self { entity, target }
    }
}

/// The player clicked on the ground at `position`.
#[derive(Clone, Copy, Debug, PartialEq, Eq, Structural)]
pub struct GroundClickEvent {
    pub position: Position,
}

} // verus!
