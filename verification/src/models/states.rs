//! Screens, modals and the state that outlives a screen.

use vstd::prelude::*;

verus! {

/// The game's screens.
#[derive(Clone, Copy, Debug, PartialEq, Eq, Structural, Hash)]
pub enum Screen {
    Splash,
    Loading,
    Tutorial,
    Credits,
    Settings,
    Title,
    Gameplay,
}

impl Default for Screen {
    fn default() -> (r: Self)
        ensures
            r == Screen::Splash,
    {
        Screen::Splash
    }
}

/// A dialog on top of the gameplay screen.
#[derive(Clone, Copy, Debug, PartialEq, Eq, Structural)]
pub enum Modal {
    Main,
    Settings,
}

/// How the sky passes the time.
#[derive(Clone, Copy, Debug, PartialEq, Eq, Structural)]
pub enum SunCycle {
    DayNight,
    Nimbus,
}

impl SunCycle {
    pub fn as_str(&self) -> (r: &'static str)
        ensures
            r@ == (match self {
                SunCycle::DayNight => "DayNight"@,
                SunCycle::Nimbus => "Nimbus"@,
            }),
    {
        match self {
            SunCycle::DayNight => "DayNight",
            SunCycle::Nimbus => "Nimbus",
        }
    }
}

/// What the game remembers across screens.
#[derive(Clone, Debug)]
pub struct GameState {
    /// The open modals, the topmost last. Only the gameplay screen has any.
    pub modals: Vec<Modal>,
    pub last_screen: Screen,
    pub diagnostics: bool,
    pub debug_ui: bool,
    pub paused: bool,
    pub muted: bool,
}

impl Default for GameState {
    fn default() -> (r: Self)
        ensures
            r.modals@ == Seq::<Modal>::empty(),
            r.last_screen == Screen::Title,
            r.diagnostics,
            !r.debug_ui,
            !r.paused,
            !r.muted,
    {
        GameState {
            modals: Vec::new(),
            last_screen: Screen::Title,
            diagnostics: true,
            debug_ui: false,
            paused: false,
            muted: false,
        }
    }
}

impl GameState {
    /// Closes every modal and ends pause and mute. The rest stays.
    pub fn reset(&mut self)
        ensures
            final(self).modals@ == Seq::<Modal>::empty(),
            !final(self).paused,
            !final(self).muted,
            final(self).last_screen == old(self).last_screen,
            final(self).diagnostics == old(self).diagnostics,
            final(self).debug_ui == old(self).debug_ui,
    {
        self.modals.clear();
        self.paused = false;
        self.muted = false;
    }
}

} // verus!
