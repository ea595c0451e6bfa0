//! The game's screens and how one leads to another.

pub mod gameplay;
pub mod navigation;
pub mod splash;
