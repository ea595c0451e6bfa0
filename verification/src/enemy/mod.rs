//! Enemies: how they come into the world and what they do there.

pub mod behaviours;
pub mod spawn;
