//! What the knobs and switches of the settings dialog do.

use vstd::prelude::*;
use crate::models::event_dispatch::OnPopModal;
use crate::models::pre_load::SettingsPreloaded;
use crate::models::settings::{scaled, ActiveTab, Settings, UiTab};
use crate::models::states::{GameState, Screen, SunCycle};
use crate::ui::layout::Display;

verus! {

/// `value` less `step`, but not below `floor`.
pub open spec fn lowered(value: u32, step: u32, floor: u32) -> u32 {
    if value - step < floor {
        floor
    } else {
        (value - step) as u32
    }
}

/// `value` plus `step`, but not above `ceiling`.
pub open spec fn raised(value: u32, step: u32, ceiling: u32) -> u32 {
    if value + step > ceiling {
        ceiling
    } else {
        (value + step) as u32
    }
}

fn lower(value: u32, step: u32, floor: u32) -> (r: u32)
    ensures
        r == lowered(value, step, floor),
{
    if value < step || value - step < floor {
        floor
    } else {
        value - step
    }
}

fn raise(value: u32, step: u32, ceiling: u32) -> (r: u32)
    ensures
        r == raised(value, step, ceiling),
{
    if value as u64 + step as u64 > ceiling as u64 {
        ceiling
    } else {
        value + step
    }
}

/// Turns the general volume down by one step and returns the volume to set
/// on the main bus.
pub fn lower_general(settings: &mut Settings, limits: &SettingsPreloaded) -> (volume: u32)
    ensures
        volume == lowered(old(settings).sound.general, limits.step, limits.min_volume),
        final(settings).sound.general == volume,
        final(settings).sound.music == old(settings).sound.music,
        final(settings).sound.sfx == old(settings).sound.sfx,
        final(settings).fov == old(settings).fov,
        final(settings).sun_cycle == old(settings).sun_cycle,
        final(settings).keybind == old(settings).keybind,
{
    let new_volume = lower(settings.sound.general, limits.step, limits.min_volume);
    settings.sound.general = new_volume;
    new_volume
}

/// Turns the general volume up by one step and returns the volume to set on
/// the main bus.
pub fn raise_general(settings: &mut Settings, limits: &SettingsPreloaded) -> (volume: u32)
    ensures
        volume == raised(old(settings).sound.general, limits.step, limits.max_volume),
        final(settings).sound.general == volume,
        final(settings).sound.music == old(settings).sound.music,
        final(settings).sound.sfx == old(settings).sound.sfx,
        final(settings).fov == old(settings).fov,
        final(settings).sun_cycle == old(settings).sun_cycle,
        final(settings).keybind == old(settings).keybind,
{
    let new_volume = raise(settings.sound.general, limits.step, limits.max_volume);
    settings.sound.general = new_volume;
    new_volume
}

/// Turns the music down by one step and returns the volume to set on the
/// music: its own volume times the general one.
pub fn lower_music(settings: &mut Settings, limits: &SettingsPreloaded) -> (volume: u64)
    ensures
        final(settings).sound.music == lowered(
            old(settings).sound.music,
            limits.step,
            limits.min_volume,
        ),
        volume == scaled(final(settings).sound.general, final(settings).sound.music),
        final(settings).sound.general == old(settings).sound.general,
        final(settings).sound.sfx == old(settings).sound.sfx,
        final(settings).fov == old(settings).fov,
        final(settings).sun_cycle == old(settings).sun_cycle,
        final(settings).keybind == old(settings).keybind,
{
    settings.sound.music = lower(settings.sound.music, limits.step, limits.min_volume);
    settings.music()
}

/// Turns the music up by one step and returns the volume to set on the music.
pub fn raise_music(settings: &mut Settings, limits: &SettingsPreloaded) -> (volume: u64)
    ensures
        final(settings).sound.music == raised(
            old(settings).sound.music,
            limits.step,
            limits.max_volume,
        ),
        volume == scaled(final(settings).sound.general, final(settings).sound.music),
        final(settings).sound.general == old(settings).sound.general,
        final(settings).sound.sfx == old(settings).sound.sfx,
        final(settings).fov == old(settings).fov,
        final(settings).sun_cycle == old(settings).sun_cycle,
        final(settings).keybind == old(settings).keybind,
{
    settings.sound.music = raise(settings.sound.music, limits.step, limits.max_volume);
    settings.music()
}

/// Turns the effects down by one step and returns the volume to set on them.
pub fn lower_sfx(settings: &mut Settings, limits: &SettingsPreloaded) -> (volume: u64)
    ensures
        final(settings).sound.sfx == lowered(
            old(settings).sound.sfx,
            limits.step,
            limits.min_volume,
        ),
        volume == scaled(final(settings).sound.general, final(settings).sound.sfx),
        final(settings).sound.general == old(settings).sound.general,
        final(settings).sound.music == old(settings).sound.music,
        final(settings).fov == old(settings).fov,
        final(settings).sun_cycle == old(settings).sun_cycle,
        final(settings).keybind == old(settings).keybind,
{
    settings.sound.sfx = lower(settings.sound.sfx, limits.step, limits.min_volume);
    settings.sfx()
}

/// Turns the effects up by one step and returns the volume to set on them.
pub fn raise_sfx(settings: &mut Settings, limits: &SettingsPreloaded) -> (volume: u64)
    ensures
        final(settings).sound.sfx == raised(
            old(settings).sound.sfx,
            limits.step,
            limits.max_volume,
        ),
        volume == scaled(final(settings).sound.general, final(settings).sound.sfx),
        final(settings).sound.general == old(settings).sound.general,
        final(settings).sound.music == old(settings).sound.music,
        final(settings).fov == old(settings).fov,
        final(settings).sun_cycle == old(settings).sun_cycle,
        final(settings).keybind == old(settings).keybind,
{
    settings.sound.sfx = raise(settings.sound.sfx, limits.step, limits.max_volume);
    settings.sfx()
}

/// Narrows the field of view by `step` thousandths of a degree, down to the
/// narrowest allowed, and returns the new one.
pub fn lower_fov(settings: &mut Settings, limits: &SettingsPreloaded, step: u32) -> (fov: u32)
    ensures
        fov == lowered(old(settings).fov, step, limits.min_fov),
        final(settings).fov == fov,
        final(settings).sound == old(settings).sound,
        final(settings).sun_cycle == old(settings).sun_cycle,
        final(settings).keybind == old(settings).keybind,
{
    let new_fov = lower(settings.fov, step, limits.min_fov);
    settings.fov = new_fov;
    new_fov
}

/// Widens the field of view by `step` thousandths of a degree, up to the
/// widest allowed, and returns the new one.
pub fn raise_fov(settings: &mut Settings, limits: &SettingsPreloaded, step: u32) -> (fov: u32)
    ensures
        fov == raised(old(settings).fov, step, limits.max_fov),
        final(settings).fov == fov,
        final(settings).sound == old(settings).sound,
        final(settings).sun_cycle == old(settings).sun_cycle,
        final(settings).keybind == old(settings).keybind,
{
    let new_fov = raise(settings.fov, step, limits.max_fov);
    settings.fov = new_fov;
    new_fov
}

/// Shows `tab`.
pub fn switch_to_tab(tab: UiTab, active_tab: &mut ActiveTab)
    ensures
        *final(active_tab) == ActiveTab(tab),
{
    active_tab.0 = tab;
}

/// The thickness of the line under a tab's button, in thousandths of a pixel:
/// none under the tab that is shown, ten pixels under the others.
pub fn tab_underline(tab: UiTab, active_tab: &ActiveTab) -> (r: i32)
    ensures
        r == (if tab == active_tab.0 {
            0
        } else {
            10_000int
        }),
{
    if tab == active_tab.0 {
        0
    } else {
        10_000
    }
}

/// Switches the diagnostics overlay, which is laid out as `perf_ui`. Returns
/// how to lay it out from now on, and whether it is on. Without the overlay
/// nothing happens.
pub fn click_toggle_diagnostics(state: &mut GameState, perf_ui: Option<Display>) -> (r: Option<
    (Display, bool),
>)
    ensures
        r == (match perf_ui {
            Some(Display::Hidden) => Some((Display::Flex, true)),
            Some(_) => Some((Display::Hidden, false)),
            None => None,
        }),
        final(state).diagnostics == (if perf_ui is Some {
            !old(state).diagnostics
        } else {
            old(state).diagnostics
        }),
        final(state).debug_ui == old(state).debug_ui,
        final(state).paused == old(state).paused,
        final(state).muted == old(state).muted,
        final(state).modals == old(state).modals,
        final(state).last_screen == old(state).last_screen,
{
    match perf_ui {
        Some(display) => {
            state.diagnostics = !state.diagnostics;
            match display {
                Display::Hidden => Some((Display::Flex, true)),
                _ => Some((Display::Hidden, false)),
            }
        },
        None => None,
    }
}

/// Switches the debug overlay and returns whether it is on.
pub fn clock_toggle_debug_ui(state: &mut GameState) -> (on: bool)
    ensures
        on == !old(state).debug_ui,
        final(state).debug_ui == on,
        final(state).diagnostics == old(state).diagnostics,
        final(state).paused == old(state).paused,
        final(state).muted == old(state).muted,
        final(state).modals == old(state).modals,
        final(state).last_screen == old(state).last_screen,
{
    state.debug_ui = !state.debug_ui;
    state.debug_ui
}

/// Switches between the two skies and returns the name of the new one.
pub fn click_toggle_sun_cycle(settings: &mut Settings) -> (label: &'static str)
    ensures
        final(settings).sun_cycle == (match old(settings).sun_cycle {
            SunCycle::Nimbus => SunCycle::DayNight,
            SunCycle::DayNight => SunCycle::Nimbus,
        }),
        label@ == (match final(settings).sun_cycle {
            SunCycle::DayNight => "DayNight"@,
            SunCycle::Nimbus => "Nimbus"@,
        }),
        final(settings).sound == old(settings).sound,
        final(settings).fov == old(settings).fov,
        final(settings).keybind == old(settings).keybind,
{
    settings.sun_cycle = match settings.sun_cycle {
        SunCycle::Nimbus => SunCycle::DayNight,
        SunCycle::DayNight => SunCycle::Nimbus,
    };
    settings.sun_cycle.as_str()
}

/// Where "Back" in the settings leads.
#[derive(Clone, Copy, Debug, PartialEq, Eq, Structural)]
pub enum SettingsExit {
    /// To another screen.
    Screen(Screen),
    /// Out of the modal.
    Pop(OnPopModal),
}

/// Leaves the settings: to the title from the settings screen, and out of the
/// modal where the settings are a modal.
pub fn click_toggle_settings(screen: Screen) -> (r: SettingsExit)
    ensures
        r == (if screen == Screen::Settings {
            SettingsExit::Screen(Screen::Title)
        } else {
            SettingsExit::Pop(OnPopModal)
        }),
{
    if screen == Screen::Settings {
        SettingsExit::Screen(Screen::Title)
    } else {
        SettingsExit::Pop(OnPopModal)
    }
}

} // verus!
