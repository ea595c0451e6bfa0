//! The requests that menus, input and gameplay send each other.

use vstd::prelude::*;
use crate::models::input::Context;
use crate::models::settings::UiTab;
use crate::models::states::{Modal, Screen};
use crate::world::Entity;

verus! {

/// Go to the given screen.
#[derive(Clone, Copy, Debug, PartialEq, Eq, Structural)]
pub struct OnGoTo(pub Screen);

/// Escape was pressed; the payload is the screen that was shown before this one.
#[derive(Clone, Copy, Debug, PartialEq, Eq, Structural)]
pub struct Back(pub Screen);

/// Show the given settings tab.
#[derive(Clone, Copy, Debug, PartialEq, Eq, Structural)]
pub struct OnSwitchTab(pub UiTab);

/// Open the given modal on top of the others.
#[derive(Clone, Copy, Debug, PartialEq, Eq, Structural)]
pub struct OnNewModal(pub Modal);

/// Close the topmost modal.
#[derive(Clone, Copy, Debug, PartialEq, Eq, Structural)]
pub struct OnPopModal;

/// Take every modal off the screen.
#[derive(Clone, Copy, Debug, PartialEq, Eq, Structural)]
pub struct OnClearModals;

/// Hand the cursor to the camera, or take it back.
#[derive(Clone, Copy, Debug, PartialEq, Eq, Structural)]
pub struct OnCamCursorToggle;

/// Widen the field of view by one step.
#[derive(Clone, Copy, Debug, PartialEq, Eq, Structural)]
pub struct OnFovIncrement;

/// Pause the game, or go on.
#[derive(Clone, Copy, Debug, PartialEq, Eq, Structural)]
pub struct OnPauseToggle;

/// Mute the sound, or unmute it.
#[derive(Clone, Copy, Debug, PartialEq, Eq, Structural)]
pub struct OnMuteToggle;

/// Show the diagnostics overlay, or hide it.
#[derive(Clone, Copy, Debug, PartialEq, Eq, Structural)]
pub struct OnDiagnosticsToggle;

/// Show the debug overlay, or hide it.
#[derive(Clone, Copy, Debug, PartialEq, Eq, Structural)]
pub struct OnDebugUiToggle;

/// Switch the input context of `entity`, or the global one where `entity` is
/// the placeholder.
#[derive(Clone, Copy, Debug, PartialEq, Eq, Structural)]
pub struct SwitchInputCtx {
    pub ctx: Context,
    pub entity: Entity,
}

impl SwitchInputCtx {
    /// A switch of the input context of `entity`.
    pub fn new(entity: Entity, ctx: Context) -> (r: Self)
        ensures
            r == (SwitchInputCtx { ctx, entity }),
    {
        Self { entity, ctx }
    }

    /// A switch of the global input context.
    pub fn from_context(ctx: Context) -> (r: Self)
        ensures
            r == (SwitchInputCtx { ctx, entity: Entity::placeholder() }),
            r.is_global(),
    {
        Self { entity: Entity::placeholder(), ctx }
    }

    /// Whether the switch is about the global context.
    pub open spec fn is_global(&self) -> bool {
        self.entity == Entity::placeholder()
    }
}

} // verus!
