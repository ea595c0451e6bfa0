//! What makes an entity a player.

use vstd::prelude::*;
use crate::models::attributes::{Attributes, ComputedAttributes};
use crate::spatial::Position;
use crate::world::Entity;

verus! {

/// Which animation a character shows. The payload, where there is one, is the
/// speed at which the animation plays, in thousandths of its own speed.
#[derive(Clone, Copy, Debug, PartialEq, Eq, Structural)]
pub enum AnimationState {
    StandIdle,
    Run(u32),
    Sprint(u32),
    /// Negative while climbing down.
    Climb(i32),
    JumpStart,
    JumpLoop,
    JumpLand,
    Fall,
    Crawl(u32),
    Crouch,
    Dash,
    WallSlide,
    WallJump,
    KnockBack,
}

impl Default for AnimationState {
    fn default() -> (r: Self)
        ensures
            r == AnimationState::StandIdle,
    {
        AnimationState::StandIdle
    }
}

/// The player side of a character.
#[derive(Clone, Copy, Debug, PartialEq, Eq, Structural)]
pub struct Player {
    /// The entity that carries this record; filled in when it is spawned.
    pub id: Entity,
    /// Current movement speed, in thousandths of a unit per second.
    pub speed: u32,
    pub animation_state: AnimationState,
    /// Where the last click on the ground sent the player, until it gets there.
    pub target_position: Option<Position>,
    pub attribs: Attributes,
    pub comp_attribs: ComputedAttributes,
}

impl Player {
    /// A player that is not in the world yet: standing, at speed one, going nowhere.
    pub open spec fn initial() -> Player {
        Player {
            id: Entity::placeholder(),
            speed: 1000,
            animation_state: AnimationState::StandIdle,
            target_position: None,
            attribs: Attributes::initial(),
            comp_attribs: ComputedAttributes::initial(),
        }
    }
}

impl Default for Player {
    fn default() -> (r: Self)
        ensures
            r == Player::initial(),
    {
        Player {
            id: Entity::placeholder(),
            speed: 1000,
            animation_state: AnimationState::StandIdle,
            target_position: None,
            attribs: Attributes::default(),
            comp_attribs: ComputedAttributes::default(),
        }
    }
}

} // verus!
