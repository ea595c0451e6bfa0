//! Keeping track of the assets that are still being loaded.

pub mod tracking;
