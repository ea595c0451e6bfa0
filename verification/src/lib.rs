//! Headless game rules for Midgard: combat resolution, enemy engagement, menus
//! and the small data models they share, all on integers.
//!
//! Every real-valued quantity (distances, stats, factors) is stored in
//! thousandths, see [`spatial::UNIT`]; simulated time is counted in nanoseconds.

pub mod asset_loading;
pub mod combat;
pub mod enemy;
pub mod event;
pub mod game;
pub mod models;
pub mod player;
pub mod screens;
pub mod sequences;
pub mod sound;
pub mod spatial;
pub mod ui;
pub mod utils;
pub mod world;
