//! Which sound to play, and when none.

use vstd::prelude::*;
use rand::Rng;
use crate::models::states::GameState;
use crate::ui::interaction::Interaction;

verus! {

/// Whether the game makes any sound at the moment: not while it is muted, and
/// not while it is paused.
pub open spec fn audible(state: &GameState) -> bool {
    !state.muted && !state.paused
}

/// The sounds that a button makes.
#[derive(Clone, Copy, Debug, PartialEq, Eq, Structural)]
pub enum ButtonSound {
    Hover,
    Press,
}

/// The sound that a button makes when the pointer comes over it or presses
/// it; it makes none when the pointer leaves.
pub fn btn_sounds(interaction: Interaction) -> (r: Option<ButtonSound>)
    ensures
        r == (match interaction {
            Interaction::Hovered => Some(ButtonSound::Hover),
            Interaction::Pressed => Some(ButtonSound::Press),
            Interaction::Idle => None,
        }),
{
    match interaction {
        Interaction::Hovered => Some(ButtonSound::Hover),
        Interaction::Pressed => Some(ButtonSound::Press),
        _ => None,
    }
}

/// Draws a number below `len` from the thread's random generator, by
/// `rand::Rng::gen_range` on the range from zero to `len`. All that is
/// claimed is that the number lies in that range; an empty range would make
/// the call panic, so `len` has to be positive.
#[verifier::external_body]
fn random_index(len: usize) -> (i: usize)
    requires
        len > 0,
    ensures
        i < len,
{
    rand::thread_rng().gen_range(0..len)
}

/// The step sound to play for a footstep, given the one that was drawn: the
/// drawn one where the game is audible, a step is due and the walker stands
/// on something, and none otherwise.
pub fn step_choice(state: &GameState, step_due: bool, grounded: bool, drawn: usize) -> (r: Option<
    usize,
>)
    ensures
        r == (if audible(state) && step_due && grounded {
            Some(drawn)
        } else {
            None
        }),
{
    if state.muted || state.paused {
        return None;
    }
    if step_due && grounded {
        Some(drawn)
    } else {
        None
    }
}

/// Picks at random one of the `steps` step sounds for a footstep. A step
/// sounds only where the game is audible, the step timer has run out
/// (`step_due`) and the walker stands on something (`grounded`).
pub fn movement_sound(state: &GameState, step_due: bool, grounded: bool, steps: usize) -> (r:
    Option<usize>)
    requires
        steps > 0,
    ensures
        r is Some <==> audible(state) && step_due && grounded,
        r is Some ==> r->0 < steps,
{
    if state.muted || state.paused || !step_due || !grounded {
        return None;
    }
    let drawn: usize = random_index(steps);
    step_choice(state, step_due, grounded, drawn)
}

/// Picks at random one of the `tracks` tracks of background music to start
/// the soundtrack with.
pub fn start_soundtrack(tracks: usize) -> (r: usize)
    requires
        tracks > 0,
    ensures
        r < tracks,
{
    random_index(tracks)
}

/// Picks at random one of the `steps` step sounds for a jump; none where the
/// game is not audible.
pub fn jump_sound(state: &GameState, steps: usize) -> (r: Option<usize>)
    requires
        steps > 0,
    ensures
        r is Some <==> audible(state),
        r is Some ==> r->0 < steps,
{
    if state.muted || state.paused {
        return None;
    }
    let drawn: usize = random_index(steps);
    step_choice(state, true, true, drawn)
}

/// Picks at random one of the `steps` step sounds for a dash; none where the
/// game is not audible.
pub fn dash_sound(state: &GameState, steps: usize) -> (r: Option<usize>)
    requires
        steps > 0,
    ensures
        r is Some <==> audible(state),
        r is Some ==> r->0 < steps,
{
    if state.muted || state.paused {
        return None;
    }
    let drawn: usize = random_index(steps);
    step_choice(state, true, true, drawn)
}

} // verus!
