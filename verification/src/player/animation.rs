//! Which animation the player's character shows, and what the animation
//! player is told when that changes.

use vstd::prelude::*;
use crate::models::player::{AnimationState, Player};
use crate::models::pre_load::Movement;
use crate::player::control::{speed_times, times};

verus! {

/// How fast the running animations play for a given speed: a tenth.
pub const ANIMATION_FACTOR: u32 = 100;

/// How fast the crawling animation plays for a given speed: four tenths.
pub const CRAWL_FACTOR: u32 = 400;

/// How fast the climbing animation plays for a given vertical speed: three tenths.
pub const CLIMB_FACTOR: u32 = 300;

/// Below this height above its crouching stance a character is crouching: a
/// twentieth of a unit.
pub const CROUCH_OFFSET: i32 = 50;

#[derive(Clone, Copy, Debug, PartialEq, Eq, Structural)]
pub enum KnockbackState {
    Shove,
    Pushback,
}

#[derive(Clone, Copy, Debug, PartialEq, Eq, Structural)]
pub enum CrouchState {
    Maintaining,
    Rising,
    Sinking,
}

#[derive(Clone, Copy, Debug, PartialEq, Eq, Structural)]
pub enum JumpState {
    NoJump,
    StartingJump,
    SlowDownTooFastSlopeJump,
    MaintainingJump,
    StoppedMaintainingJump,
    FallSection,
}

/// What the character controller says of walking.
#[derive(Clone, Copy, Debug, PartialEq, Eq, Structural)]
pub struct WalkBasis {
    /// The size of the running velocity, in thousandths of a unit per second.
    pub running_speed: u32,
    /// How far above its crouching stance the character stands, in thousandths.
    pub standing_offset_y: i32,
    pub standing_on_entity: bool,
}

/// What the character is doing besides walking.
#[derive(Clone, Copy, Debug, PartialEq, Eq, Structural)]
pub enum Action {
    Knockback(KnockbackState),
    Crouch(CrouchState),
    Jump(JumpState),
    /// The vertical climbing speed in thousandths, or nothing while the
    /// character is not actually climbing.
    Climb(Option<i32>),
    Dash,
    WallSlide,
    WallJump,
}

/// The state of the character controller, as far as animation reads it.
#[derive(Clone, Copy, Debug, PartialEq, Eq, Structural)]
pub struct ControllerState {
    pub action: Option<Action>,
    pub basis: Option<WalkBasis>,
    /// Whether the action has started in this very tick.
    pub just_starting: bool,
}

/// The animation clips of the character.
#[derive(Clone, Copy, Debug, PartialEq, Eq, Structural)]
pub enum ClipName {
    IdleLoop,
    JogFwdLoop,
    SprintLoop,
    JumpStart,
    JumpLand,
    JumpLoop,
    CrouchFwdLoop,
    CrouchIdleLoop,
    Roll,
    HitChest,
}

impl ClipName {
    /// The name of the clip in the character's model.
    pub fn as_str(&self) -> (r: &'static str)
        ensures
            r@ == (match self {
                ClipName::IdleLoop => "Idle_Loop"@,
                ClipName::JogFwdLoop => "Jog_Fwd_Loop"@,
                ClipName::SprintLoop => "Sprint_Loop"@,
                ClipName::JumpStart => "Jump_Start"@,
                ClipName::JumpLand => "Jump_Land"@,
                ClipName::JumpLoop => "Jump_Loop"@,
                ClipName::CrouchFwdLoop => "Crouch_Fwd_Loop"@,
                ClipName::CrouchIdleLoop => "Crouch_Idle_Loop"@,
                ClipName::Roll => "Roll"@,
                ClipName::HitChest => "Hit_Chest"@,
            }),
    {
        match self {
            ClipName::IdleLoop => "Idle_Loop",
            ClipName::JogFwdLoop => "Jog_Fwd_Loop",
            ClipName::SprintLoop => "Sprint_Loop",
            ClipName::JumpStart => "Jump_Start",
            ClipName::JumpLand => "Jump_Land",
            ClipName::JumpLoop => "Jump_Loop",
            ClipName::CrouchFwdLoop => "Crouch_Fwd_Loop",
            ClipName::CrouchIdleLoop => "Crouch_Idle_Loop",
            ClipName::Roll => "Roll",
            ClipName::HitChest => "Hit_Chest",
        }
    }
}

/// A clip to start: which one, how fast (in thousandths of its own speed)
/// and whether it starts over when it ends.
#[derive(Clone, Copy, Debug, PartialEq, Eq, Structural)]
pub struct Clip {
    pub name: ClipName,
    pub speed: i64,
    pub repeat: bool,
}

/// What the animation player is told.
#[derive(Clone, Copy, Debug, PartialEq, Eq, Structural)]
pub enum AnimationCommand {
    /// Play whatever is playing at this speed.
    SetSpeed(i64),
    /// Start whatever is playing from its beginning.
    SeekAllToStart,
    StopAll,
    Start(Clip),
}

/// The animation that was shown last, to tell a change of animation from a
/// change of its speed alone.
#[derive(Clone, Copy, Debug, PartialEq, Eq, Structural)]
pub struct AnimatingState {
    pub current: Option<AnimationState>,
}

/// Whether `a` and `b` are the same animation, whatever the speed.
pub open spec fn same_animation(a: AnimationState, b: AnimationState) -> bool {
    match (a, b) {
        (AnimationState::StandIdle, AnimationState::StandIdle) => true,
        (AnimationState::Run(_), AnimationState::Run(_)) => true,
        (AnimationState::Sprint(_), AnimationState::Sprint(_)) => true,
        (AnimationState::Climb(_), AnimationState::Climb(_)) => true,
        (AnimationState::JumpStart, AnimationState::JumpStart) => true,
        (AnimationState::JumpLoop, AnimationState::JumpLoop) => true,
        (AnimationState::JumpLand, AnimationState::JumpLand) => true,
        (AnimationState::Fall, AnimationState::Fall) => true,
        (AnimationState::Crawl(_), AnimationState::Crawl(_)) => true,
        (AnimationState::Crouch, AnimationState::Crouch) => true,
        (AnimationState::Dash, AnimationState::Dash) => true,
        (AnimationState::WallSlide, AnimationState::WallSlide) => true,
        (AnimationState::WallJump, AnimationState::WallJump) => true,
        (AnimationState::KnockBack, AnimationState::KnockBack) => true,
        _ => false,
    }
}

/// The speed of the climbing animation for a vertical speed: three tenths of
/// it, rounded towards zero.
pub open spec fn climb_speed(vertical: i32) -> i32 {
    if vertical >= 0 {
        ((vertical * CLIMB_FACTOR) / 1000) as i32
    } else {
        (-((-vertical * CLIMB_FACTOR) / 1000)) as i32
    }
}

/// The animation of a character that only walks, or does not even that: it
/// falls while it stands on nothing, stands idle up to the idle threshold,
/// runs up to its normal speed, and sprints beyond.
pub open spec fn walking_animation(basis: WalkBasis, movement: Movement) -> AnimationState {
    if !basis.standing_on_entity {
        AnimationState::Fall
    } else if basis.running_speed > movement.idle_to_run_threshold {
        let speed = speed_times(basis.running_speed, ANIMATION_FACTOR);
        if basis.running_speed > movement.speed {
            AnimationState::Sprint(speed)
        } else {
            AnimationState::Run(speed)
        }
    } else {
        AnimationState::StandIdle
    }
}

/// The animation of a character that the controller has crouch: what it
/// shows depends on whether it is down yet and whether it moves.
pub open spec fn crouching_animation(basis: WalkBasis, movement: Movement) -> AnimationState {
    let moving = movement.idle_to_run_threshold < basis.running_speed;
    let is_crouching = basis.standing_offset_y < CROUCH_OFFSET;
    if !moving && !is_crouching {
        AnimationState::StandIdle
    } else if !moving {
        AnimationState::Crouch
    } else if !is_crouching {
        AnimationState::Run(speed_times(basis.running_speed, ANIMATION_FACTOR))
    } else {
        AnimationState::Crawl(speed_times(basis.running_speed, CRAWL_FACTOR))
    }
}

/// The animation that fits what the controller reports, or `None` where the
/// report does not say: then everything stays as it is.
pub open spec fn animation_for(controller: ControllerState, movement: Movement) -> Option<
    AnimationState,
> {
    match controller.action {
        Some(Action::Knockback(_)) => Some(AnimationState::KnockBack),
        Some(Action::Crouch(_)) => match controller.basis {
            Some(basis) => Some(crouching_animation(basis, movement)),
            None => None,
        },
        Some(Action::Jump(jump)) => match jump {
            JumpState::NoJump => None,
            JumpState::StartingJump => Some(AnimationState::JumpStart),
            JumpState::SlowDownTooFastSlopeJump => Some(AnimationState::JumpStart),
            JumpState::MaintainingJump => Some(AnimationState::JumpLoop),
            JumpState::StoppedMaintainingJump => Some(AnimationState::JumpLand),
            JumpState::FallSection => Some(AnimationState::Fall),
        },
        Some(Action::Climb(climbing)) => match climbing {
            Some(vertical) => Some(AnimationState::Climb(climb_speed(vertical))),
            None => None,
        },
        Some(Action::Dash) => Some(AnimationState::Dash),
        Some(Action::WallSlide) => Some(AnimationState::WallSlide),
        Some(Action::WallJump) => Some(AnimationState::WallJump),
        None => match controller.basis {
            Some(basis) => Some(walking_animation(basis, movement)),
            None => None,
        },
    }
}

/// The clip with which an animation starts.
pub open spec fn clip_for(state: AnimationState) -> Clip {
    match state {
        AnimationState::StandIdle => Clip { name: ClipName::IdleLoop, speed: 1000, repeat: true },
        AnimationState::Run(speed) => Clip {
            name: ClipName::JogFwdLoop,
            speed: speed as i64,
            repeat: true,
        },
        AnimationState::Sprint(speed) => Clip {
            name: ClipName::SprintLoop,
            speed: (speed * 3) as i64,
            repeat: true,
        },
        AnimationState::JumpStart => Clip { name: ClipName::JumpStart, speed: 10, repeat: false },
        AnimationState::JumpLand => Clip { name: ClipName::JumpLand, speed: 10, repeat: false },
        AnimationState::JumpLoop => Clip { name: ClipName::JumpLoop, speed: 500, repeat: true },
        AnimationState::WallJump => Clip { name: ClipName::JumpStart, speed: 2000, repeat: false },
        AnimationState::WallSlide => Clip { name: ClipName::JumpLoop, speed: 1000, repeat: true },
        AnimationState::Fall => Clip { name: ClipName::JumpLoop, speed: 1000, repeat: true },
        AnimationState::Crawl(speed) => Clip {
            name: ClipName::CrouchFwdLoop,
            speed: speed as i64,
            repeat: true,
        },
        AnimationState::Crouch => Clip {
            name: ClipName::CrouchIdleLoop,
            speed: 1000,
            repeat: true,
        },
        AnimationState::Dash => Clip { name: ClipName::Roll, speed: 3000, repeat: false },
        AnimationState::KnockBack => Clip { name: ClipName::HitChest, speed: 1000, repeat: false },
        AnimationState::Climb(speed) => Clip {
            name: ClipName::JumpLoop,
            speed: speed as i64,
            repeat: true,
        },
    }
}

/// What the animation player is told while the animation stays the same: a
/// moving animation follows the speed, a jump or dash that has just been
/// chained to another starts over, and the others play on.
pub open spec fn maintain_commands(state: AnimationState, just_starting: bool) -> Seq<
    AnimationCommand,
> {
    match state {
        AnimationState::Run(speed) => seq![AnimationCommand::SetSpeed(speed as i64)],
        AnimationState::Sprint(speed) => seq![AnimationCommand::SetSpeed(speed as i64)],
        AnimationState::Crawl(speed) => seq![AnimationCommand::SetSpeed(speed as i64)],
        AnimationState::Climb(speed) => seq![AnimationCommand::SetSpeed(speed as i64)],
        AnimationState::JumpStart => if just_starting {
            seq![AnimationCommand::SeekAllToStart]
        } else {
            Seq::empty()
        },
        AnimationState::Dash => if just_starting {
            seq![AnimationCommand::SeekAllToStart]
        } else {
            Seq::empty()
        },
        _ => Seq::empty(),
    }
}

/// What the animation player is told when `state` follows `before`.
pub open spec fn animation_commands(
    before: Option<AnimationState>,
    state: AnimationState,
    just_starting: bool,
) -> Seq<AnimationCommand> {
    if before is Some && same_animation(before->0, state) {
        maintain_commands(state, just_starting)
    } else {
        seq![AnimationCommand::StopAll, AnimationCommand::Start(clip_for(state))]
    }
}

fn climbing(vertical: i32) -> (r: i32)
    ensures
        r == climb_speed(vertical),
{
    if vertical >= 0 {
        let share: i64 = (vertical as i64 * 300) / 1000;
        share as i32
    } else {
        let down: i64 = -(vertical as i64);
        let share: i64 = (down * 300) / 1000;
        (-share) as i32
    }
}

/// The animation that fits what the controller reports.
pub fn current_animation(controller: &ControllerState, movement: &Movement) -> (r: Option<
    AnimationState,
>)
    ensures
        r == animation_for(*controller, *movement),
{
    match controller.action {
        Some(Action::Knockback(_)) => Some(AnimationState::KnockBack),
        Some(Action::Crouch(_)) => {
            let basis = match controller.basis {
                Some(basis) => basis,
                None => {
                    return None;
                },
            };
            let moving = movement.idle_to_run_threshold < basis.running_speed;
            let is_crouching = basis.standing_offset_y < CROUCH_OFFSET;
            if !moving && !is_crouching {
                Some(AnimationState::StandIdle)
            } else if !moving {
                Some(AnimationState::Crouch)
            } else if !is_crouching {
                Some(AnimationState::Run(times(basis.running_speed, ANIMATION_FACTOR)))
            } else {
                Some(AnimationState::Crawl(times(basis.running_speed, CRAWL_FACTOR)))
            }
        },
        Some(Action::Jump(jump)) => match jump {
            JumpState::NoJump => None,
            JumpState::StartingJump => Some(AnimationState::JumpStart),
            JumpState::SlowDownTooFastSlopeJump => Some(AnimationState::JumpStart),
            JumpState::MaintainingJump => Some(AnimationState::JumpLoop),
            JumpState::StoppedMaintainingJump => Some(AnimationState::JumpLand),
            JumpState::FallSection => Some(AnimationState::Fall),
        },
        Some(Action::Climb(climb)) => match climb {
            Some(vertical) => Some(AnimationState::Climb(climbing(vertical))),
            None => None,
        },
        Some(Action::Dash) => Some(AnimationState::Dash),
        Some(Action::WallSlide) => Some(AnimationState::WallSlide),
        Some(Action::WallJump) => Some(AnimationState::WallJump),
        None => {
            let basis = match controller.basis {
                Some(basis) => basis,
                None => {
                    return None;
                },
            };
            if !basis.standing_on_entity {
                Some(AnimationState::Fall)
            } else if basis.running_speed > movement.idle_to_run_threshold {
                let speed = times(basis.running_speed, ANIMATION_FACTOR);
                if basis.running_speed > movement.speed {
                    Some(AnimationState::Sprint(speed))
                } else {
                    Some(AnimationState::Run(speed))
                }
            } else {
                Some(AnimationState::StandIdle)
            }
        },
    }
}

fn same(a: AnimationState, b: AnimationState) -> (r: bool)
    ensures
        r == same_animation(a, b),
{
    match (a, b) {
        (AnimationState::StandIdle, AnimationState::StandIdle) => true,
        (AnimationState::Run(_), AnimationState::Run(_)) => true,
        (AnimationState::Sprint(_), AnimationState::Sprint(_)) => true,
        (AnimationState::Climb(_), AnimationState::Climb(_)) => true,
        (AnimationState::JumpStart, AnimationState::JumpStart) => true,
        (AnimationState::JumpLoop, AnimationState::JumpLoop) => true,
        (AnimationState::JumpLand, AnimationState::JumpLand) => true,
        (AnimationState::Fall, AnimationState::Fall) => true,
        (AnimationState::Crawl(_), AnimationState::Crawl(_)) => true,
        (AnimationState::Crouch, AnimationState::Crouch) => true,
        (AnimationState::Dash, AnimationState::Dash) => true,
        (AnimationState::WallSlide, AnimationState::WallSlide) => true,
        (AnimationState::WallJump, AnimationState::WallJump) => true,
        (AnimationState::KnockBack, AnimationState::KnockBack) => true,
        _ => false,
    }
}

/// The clip with which the animation `state` starts.
pub fn starting_clip(state: AnimationState) -> (r: Clip)
    ensures
        r == clip_for(state),
{
    match state {
        AnimationState::StandIdle => Clip { name: ClipName::IdleLoop, speed: 1000, repeat: true },
        AnimationState::Run(speed) => Clip {
            name: ClipName::JogFwdLoop,
            speed: speed as i64,
            repeat: true,
        },
        AnimationState::Sprint(speed) => Clip {
            name: ClipName::SprintLoop,
            speed: speed as i64 * 3,
            repeat: true,
        },
        AnimationState::JumpStart => Clip { name: ClipName::JumpStart, speed: 10, repeat: false },
        AnimationState::JumpLand => Clip { name: ClipName::JumpLand, speed: 10, repeat: false },
        AnimationState::JumpLoop => Clip { name: ClipName::JumpLoop, speed: 500, repeat: true },
        AnimationState::WallJump => Clip { name: ClipName::JumpStart, speed: 2000, repeat: false },
        AnimationState::WallSlide => Clip { name: ClipName::JumpLoop, speed: 1000, repeat: true },
        AnimationState::Fall => Clip { name: ClipName::JumpLoop, speed: 1000, repeat: true },
        AnimationState::Crawl(speed) => Clip {
            name: ClipName::CrouchFwdLoop,
            speed: speed as i64,
            repeat: true,
        },
        AnimationState::Crouch => Clip {
            name: ClipName::CrouchIdleLoop,
            speed: 1000,
            repeat: true,
        },
        AnimationState::Dash => Clip { name: ClipName::Roll, speed: 3000, repeat: false },
        AnimationState::KnockBack => Clip { name: ClipName::HitChest, speed: 1000, repeat: false },
        AnimationState::Climb(speed) => Clip {
            name: ClipName::JumpLoop,
            speed: speed as i64,
            repeat: true,
        },
    }
}

/// Picks the animation that fits what the controller reports, remembers it on
/// the player, and says what the animation player is to do. Where the report
/// does not say what the character is doing, nothing changes and nothing is
/// said.
pub fn animating(
    controller: &ControllerState,
    movement: &Movement,
    player: &mut Player,
    animating_state: &mut AnimatingState,
) -> (cmds: Vec<AnimationCommand>)
    ensures
        match animation_for(*controller, *movement) {
            Some(state) => {
                &&& *final(player) == (Player { animation_state: state, ..*old(player) })
                &&& final(animating_state).current == Some(state)
                &&& cmds@ == animation_commands(
                    old(animating_state).current,
                    state,
                    controller.just_starting,
                )
            },
            None => {
                &&& *final(player) == *old(player)
                &&& *final(animating_state) == *old(animating_state)
                &&& cmds@ == Seq::<AnimationCommand>::empty()
            },
        },
{
    let mut cmds: Vec<AnimationCommand> = Vec::new();
    let state = match current_animation(controller, movement) {
        Some(state) => state,
        None => {
            return cmds;
        },
    };
    player.animation_state = state;
    let maintained = match animating_state.current {
        Some(before) => same(before, state),
        None => false,
    };
    animating_state.current = Some(state);
    if maintained {
        match state {
            AnimationState::Run(speed) | AnimationState::Sprint(speed) | AnimationState::Crawl(
                speed,
            ) => {
                cmds.push(AnimationCommand::SetSpeed(speed as i64));
            },
            AnimationState::Climb(speed) => {
                cmds.push(AnimationCommand::SetSpeed(speed as i64));
            },
            AnimationState::JumpStart | AnimationState::Dash => {
                if controller.just_starting {
                    cmds.push(AnimationCommand::SeekAllToStart);
                }
            },
            _ => {},
        }
    } else {
        cmds.push(AnimationCommand::StopAll);
        cmds.push(AnimationCommand::Start(starting_clip(state)));
    }
    cmds
}

} // verus!
