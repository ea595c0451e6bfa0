//! Which screen comes next.

use vstd::prelude::*;
use crate::asset_loading::tracking::ResourceHandles;
use crate::models::event_dispatch::{Back, OnGoTo};
use crate::models::states::{GameState, Screen};

verus! {

/// A change of screen: the screen that was left, if any, and the one entered.
#[derive(Clone, Copy, Debug, PartialEq, Eq, Structural)]
pub struct StateTransition {
    pub exited: Option<Screen>,
    pub entered: Option<Screen>,
}

/// The screen to remember as the last one after the transitions of a tick: the
/// one that the newest transition left, or the title where it left none.
pub open spec fn last_screen_after(before: Screen, transitions: Seq<StateTransition>) -> Screen {
    if transitions.len() == 0 {
        before
    } else {
        match transitions.last().exited {
            Some(screen) => screen,
            None => Screen::Title,
        }
    }
}

/// Remembers the screen that was left last.
pub fn track_last_screen(transitions: &Vec<StateTransition>, state: &mut GameState)
    ensures
        final(state).last_screen == last_screen_after(old(state).last_screen, transitions@),
        final(state).modals == old(state).modals,
        final(state).diagnostics == old(state).diagnostics,
        final(state).debug_ui == old(state).debug_ui,
        final(state).paused == old(state).paused,
        final(state).muted == old(state).muted,
{
    if transitions.len() == 0 {
        return ;
    }
    let transition = transitions[transitions.len() - 1];
    state.last_screen = match transition.exited {
        Some(screen) => screen,
        None => Screen::Title,
    };
}

/// What Escape asks for on `screen`: to go back to the screen shown before,
/// except on the splash, title and loading screens, which have no way back.
pub fn back(screen: Screen, state: &GameState) -> (r: Option<Back>)
    ensures
        r == (if screen == Screen::Splash || screen == Screen::Title || screen == Screen::Loading {
            None
        } else {
            Some(Back(state.last_screen))
        }),
{
    match screen {
        Screen::Splash | Screen::Title | Screen::Loading => None,
        _ => Some(Back(state.last_screen)),
    }
}

/// Where a request to go back leads: to the screen it names, unless the game
/// is being played, where Escape is for the menus instead.
pub fn on_back(trigger: Back, screen: Screen) -> (next_screen: Option<Screen>)
    ensures
        next_screen == (if screen == Screen::Gameplay {
            None
        } else {
            Some(trigger.0)
        }),
{
    if screen == Screen::Gameplay {
        return None;
    }
    Some(trigger.0)
}

/// Where a request to go to a screen leads: there.
pub fn on_go_to(trig: OnGoTo) -> (next_screen: Screen)
    ensures
        next_screen == trig.0,
{
    trig.0
}

pub fn title() -> (r: OnGoTo)
    ensures
        r == OnGoTo(Screen::Title),
{
    OnGoTo(Screen::Title)
}

pub fn settings() -> (r: OnGoTo)
    ensures
        r == OnGoTo(Screen::Settings),
{
    OnGoTo(Screen::Settings)
}

pub fn credits() -> (r: OnGoTo)
    ensures
        r == OnGoTo(Screen::Credits),
{
    OnGoTo(Screen::Credits)
}

/// Where "Play" leads: into the game once every resource is loaded, and to
/// the loading screen until then.
pub fn gameplay_or_loading(resource_handles: &ResourceHandles) -> (next_screen: Screen)
    ensures
        next_screen == (if resource_handles.waiting().len() == 0 {
            Screen::Gameplay
        } else {
            Screen::Loading
        }),
{
    if resource_handles.is_all_done() {
        Screen::Gameplay
    } else {
        Screen::Loading
    }
}

/// Whether the loading screen may give way to the title.
pub fn all_assets_loaded(resource_handles: &ResourceHandles) -> (r: bool)
    ensures
        r == (resource_handles.waiting().len() == 0),
{
    resource_handles.is_all_done()
}

} // verus!
