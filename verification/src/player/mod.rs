//! The player: how it comes into the world and how it is controlled.

pub mod animation;
pub mod control;
pub mod spawn;
