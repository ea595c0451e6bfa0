//! The configuration that is loaded before the game starts. Lengths, speeds
//! and factors are in thousandths; times are in thousandths of a second.

use vstd::prelude::*;

verus! {

/// Volumes as factors in thousandths.
#[derive(Clone, Copy, Debug, PartialEq, Eq, Structural)]
pub struct Sound {
    pub general: u32,
    pub music: u32,
    pub sfx: u32,
}

impl Sound {
    /// Full general volume, music and effects at half.
    pub open spec fn initial() -> Sound {
        Sound { general: 1000, music: 500, sfx: 500 }
    }
}

impl Default for Sound {
    fn default() -> (r: Self)
        ensures
            r == Sound::initial(),
    {
        Sound { general: 1000, music: 500, sfx: 500 }
    }
}

#[derive(Clone, Copy, Debug, PartialEq, Eq, Structural)]
pub struct Physics {
    pub distance_fog: bool,
    pub fog_directional_light_exponent: u32,
    pub fog_visibility: u32,
    pub shadow_distance: u32,
}

#[derive(Clone, Copy, Debug, PartialEq, Eq, Structural)]
pub struct Geometry {
    pub main_plane: u32,
    pub quantity: u32,
}

/// The capsule that a character collides by.
#[derive(Clone, Copy, Debug, PartialEq, Eq, Structural)]
pub struct Hitbox {
    pub radius: u32,
    pub height: u32,
}

#[derive(Clone, Copy, Debug, PartialEq, Eq, Structural)]
pub struct Movement {
    pub actions_in_air: u8,
    pub dash_distance: u32,
    pub speed: u32,
    pub sprint_factor: u32,
    pub crouch_factor: u32,
    pub idle_to_run_threshold: u32,
}

#[derive(Clone, Copy, Debug)]
pub struct PlayerConfig {
    pub movement: Movement,
    pub hitbox: Hitbox,
    pub zoom: (u32, u32),
    pub fov: u32,
}

/// Who made what: pairs of a name and a contribution.
#[derive(Clone, Debug)]
pub struct Credits {
    pub assets: Vec<(String, String)>,
    pub devs: Vec<(String, String)>,
}

/// The limits of what the settings dialog lets the player choose.
#[derive(Clone, Copy, Debug, PartialEq, Eq, Structural)]
pub struct SettingsPreloaded {
    pub min_volume: u32,
    pub max_volume: u32,
    pub min_fov: u32,
    pub max_fov: u32,
    pub step: u32,
}

#[derive(Clone, Copy, Debug, PartialEq, Eq, Structural)]
pub struct Timers {
    pub step: u32,
    pub jump: u32,
}

#[derive(Clone, Debug)]
pub struct Config {
    pub sound: Sound,
    pub physics: Physics,
    pub geom: Geometry,
    pub player: PlayerConfig,
    pub credits: Credits,
    pub settings: SettingsPreloaded,
    pub timers: Timers,
}

} // verus!
