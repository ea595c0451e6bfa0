//! Plain data shared by the game's rules.

pub mod attributes;
pub mod enemy;
pub mod event_dispatch;
pub mod input;
pub mod keybinding;
pub mod palette;
pub mod player;
pub mod pre_load;
pub mod settings;
pub mod states;
