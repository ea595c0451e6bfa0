//! What the player can set: sound, field of view, sky and key bindings.

use vstd::prelude::*;
use crate::models::keybinding::Keybind;
use crate::models::pre_load::Sound;
use crate::models::states::SunCycle;

verus! {

/// The tabs of the settings dialog.
#[derive(Clone, Copy, Debug, PartialEq, Eq, Structural)]
pub enum UiTab {
    Audio,
    Video,
    Keybindings,
}

impl Default for UiTab {
    fn default() -> (r: Self)
        ensures
            r == UiTab::Audio,
    {
        UiTab::Audio
    }
}

/// The tab that the settings dialog shows.
#[derive(Clone, Copy, Debug, PartialEq, Eq, Structural)]
pub struct ActiveTab(pub UiTab);

impl Default for ActiveTab {
    fn default() -> (r: Self)
        ensures
            r == ActiveTab(UiTab::Audio),
    {
        ActiveTab(UiTab::Audio)
    }
}

/// The field of view of a fresh installation: 45 degrees.
pub const DEFAULT_FOV: u32 = 45_000;

/// The player's settings. Volumes are factors in thousandths, the field of
/// view is in thousandths of a degree.
#[derive(Clone, Debug)]
pub struct Settings {
    pub sound: Sound,
    pub fov: u32,
    pub sun_cycle: SunCycle,
    pub keybind: Keybind,
}

/// The product of two factors in thousandths, rounded down.
pub open spec fn scaled(general: u32, channel: u32) -> int {
    (general * channel) / 1000
}

proof fn lemma_scaled_fits(general: u32, channel: u32)
    ensures
        0 <= general * channel <= 0xFFFF_FFFF * 0xFFFF_FFFF,
        0 <= scaled(general, channel) <= 0xFFFF_FFFF * 0xFFFF_FFFF,
{
    assert(0 <= general * channel <= 0xFFFF_FFFF * 0xFFFF_FFFF) by (nonlinear_arith)
        requires
            0 <= general <= 0xFFFF_FFFF,
            0 <= channel <= 0xFFFF_FFFF,
    ;
}

impl Settings {
    /// The linear volume of the music: the general volume times the music's own.
    pub fn music(&self) -> (r: u64)
        ensures
            r == scaled(self.sound.general, self.sound.music),
    {
        proof {
            lemma_scaled_fits(self.sound.general, self.sound.music);
        }
        (self.sound.general as u64 * self.sound.music as u64) / 1000
    }

    /// The linear volume of the effects: the general volume times the effects' own.
    pub fn sfx(&self) -> (r: u64)
        ensures
            r == scaled(self.sound.general, self.sound.sfx),
    {
        proof {
            lemma_scaled_fits(self.sound.general, self.sound.sfx);
        }
        (self.sound.general as u64 * self.sound.sfx as u64) / 1000
    }
}

impl Default for Settings {
    fn default() -> (r: Self)
        ensures
            r.sun_cycle == SunCycle::DayNight,
            r.sound == Sound::initial(),
            r.fov == DEFAULT_FOV,
            r.keybind.is_initial(),
    {
        Settings {
            sun_cycle: SunCycle::DayNight,
            sound: Sound::default(),
            fov: DEFAULT_FOV,
            keybind: Keybind::default(),
        }
    }
}

} // verus!
