//! What makes an entity an enemy.

use vstd::prelude::*;
use crate::spatial::Position;
use crate::world::Entity;

verus! {

/// How far an enemy notices a player when nothing else is configured: 14 units.
pub const DEFAULT_AGGRO_RADIUS: u32 = 14_000;

/// The enemy side of an engagement: whom the enemy is after, and where that
/// target was last seen. Both are unset until a player has come close.
#[derive(Clone, Copy, Debug, PartialEq, Eq, Structural)]
pub struct Enemy {
    /// The entity that carries this record; filled in when it is spawned.
    pub id: Entity,
    /// Ground-plane distance within which a player is noticed, in thousandths.
    pub aggro_radius: u32,
    pub target_position: Option<Position>,
    pub target_entity: Option<Entity>,
}

impl Enemy {
    /// An enemy that is not in the world yet and is after nobody.
    pub open spec fn initial() -> Enemy {
        Enemy {
            id: Entity::placeholder(),
            aggro_radius: DEFAULT_AGGRO_RADIUS,
            target_position: None,
            target_entity: None,
        }
    }
}

impl Default for Enemy {
    fn default() -> (r: Self)
        ensures
            r == Enemy::initial(),
    {
        Enemy {
            id: Entity::placeholder(),
            aggro_radius: DEFAULT_AGGRO_RADIUS,
            target_position: None,
            target_entity: None,
        }
    }
}

} // verus!
