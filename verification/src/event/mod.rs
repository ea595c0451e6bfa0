//! The signals that connect the game's systems within one tick.

pub mod emitters;
pub mod queue;
pub mod triggers;
pub mod types;
