//! What the interface is built from: layout values, widget options, the
//! colours of an interaction, and the rules of the settings dialog.

pub mod interaction;
pub mod keybind_editor;
pub mod layout;
pub mod opts;
pub mod settings;
pub mod widget;
