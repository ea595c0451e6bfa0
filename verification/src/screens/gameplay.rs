//! The gameplay screen: pause, mute and the stack of modals.

use vstd::prelude::*;
use crate::models::event_dispatch::{
    OnCamCursorToggle,
    OnClearModals,
    OnGoTo,
    OnNewModal,
    OnPauseToggle,
    OnPopModal,
    SwitchInputCtx,
};
use crate::models::input::Context;
use crate::models::settings::{scaled, Settings};
use crate::models::states::{GameState, Modal, Screen};
use crate::world::Entity;

verus! {

/// Something for the engine to do, or a request to pass on.
#[derive(Clone, Copy, Debug, PartialEq, Eq, Structural)]
pub enum Command {
    SwitchInputCtx(SwitchInputCtx),
    PauseToggle(OnPauseToggle),
    CamCursorToggle(OnCamCursorToggle),
    ClearModals(OnClearModals),
    NewModal(OnNewModal),
    PopModal(OnPopModal),
    GoTo(OnGoTo),
    /// Put the modal on the screen.
    SpawnModal(Modal),
    /// Take the modal off the screen.
    DespawnModal(Modal),
}

/// Flips the pause. Where the pause icon is there, says what to do with the
/// clock and the icon: `Some(true)` to stop the clock and show the icon,
/// `Some(false)` to let the clock run and hide it. The clock runs again
/// whenever it, or the game, was paused.
pub fn toggle_pause(state: &mut GameState, clock_paused: bool, icon_present: bool) -> (pause:
    Option<bool>)
    ensures
        pause == (if icon_present {
            Some(!(clock_paused || old(state).paused))
        } else {
            None
        }),
        final(state).paused == !old(state).paused,
        final(state).muted == old(state).muted,
        final(state).modals == old(state).modals,
        final(state).last_screen == old(state).last_screen,
        final(state).diagnostics == old(state).diagnostics,
        final(state).debug_ui == old(state).debug_ui,
{
    let pause = if icon_present {
        Some(!(clock_paused || state.paused))
    } else {
        None
    };
    state.paused = !state.paused;
    pause
}

/// What the two volume channels are set to, and whether the mute icon shows.
#[derive(Clone, Copy, Debug, PartialEq, Eq, Structural)]
pub struct VolumeChange {
    pub music: u64,
    pub sfx: u64,
    pub icon_visible: bool,
}

/// Flips the mute. Where the mute icon is there, says what to set the volumes
/// to: silence when muting, the volumes of the settings when unmuting.
pub fn toggle_mute(state: &mut GameState, settings: &Settings, icon_present: bool) -> (change:
    Option<VolumeChange>)
    ensures
        change == (if !icon_present {
            None
        } else if old(state).muted {
            Some(
                VolumeChange {
                    music: scaled(settings.sound.general, settings.sound.music) as u64,
                    sfx: scaled(settings.sound.general, settings.sound.sfx) as u64,
                    icon_visible: false,
                },
            )
        } else {
            Some(VolumeChange { music: 0, sfx: 0, icon_visible: true })
        }),
        final(state).muted == !old(state).muted,
        final(state).paused == old(state).paused,
        final(state).modals == old(state).modals,
        final(state).last_screen == old(state).last_screen,
        final(state).diagnostics == old(state).diagnostics,
        final(state).debug_ui == old(state).debug_ui,
{
    let change = if !icon_present {
        None
    } else if state.muted {
        Some(VolumeChange { music: settings.music(), sfx: settings.sfx(), icon_visible: false })
    } else {
        Some(VolumeChange { music: 0, sfx: 0, icon_visible: true })
    };
    state.muted = !state.muted;
    change
}

/// What Escape does while the game is played: it opens the main menu where no
/// modal is open, and closes the topmost modal otherwise. On any other screen
/// it does nothing here.
pub fn trigger_menu_toggle_on_esc(screen: Screen, state: &GameState) -> (r: Option<Command>)
    ensures
        r == (if screen != Screen::Gameplay {
            None
        } else if state.modals@.len() == 0 {
            Some(Command::NewModal(OnNewModal(Modal::Main)))
        } else {
            Some(Command::PopModal(OnPopModal))
        }),
{
    if screen != Screen::Gameplay {
        return None;
    }
    if state.modals.len() == 0 {
        Some(Command::NewModal(OnNewModal(Modal::Main)))
    } else {
        Some(Command::PopModal(OnPopModal))
    }
}

/// What opening `modal` asks for. The first modal switches `target` to the
/// menu input, and the main menu also pauses a running game and frees the
/// cursor. Whatever was on the screen goes, and the new modal comes.
pub open spec fn new_modal_commands(
    modal: Modal,
    target: Entity,
    open: Seq<Modal>,
    paused: bool,
) -> Seq<Command> {
    let first = if open.len() == 0 {
        seq![Command::SwitchInputCtx(SwitchInputCtx { ctx: Context::Modal, entity: target })]
    } else {
        Seq::empty()
    };
    let pause = if open.len() == 0 && modal == Modal::Main && !paused {
        seq![
            Command::PauseToggle(OnPauseToggle),
            Command::CamCursorToggle(OnCamCursorToggle),
        ]
    } else {
        Seq::empty()
    };
    first + pause + seq![Command::ClearModals(OnClearModals), Command::SpawnModal(modal)]
}

/// Opens a modal on top of the open ones. Does nothing off the gameplay screen.
pub fn add_new_modal(on: OnNewModal, target: Entity, screen: Screen, state: &mut GameState) -> (r:
    Vec<Command>)
    ensures
        screen != Screen::Gameplay ==> r@ == Seq::<Command>::empty() && final(state).modals@
            == old(state).modals@,
        screen == Screen::Gameplay ==> r@ == new_modal_commands(
            on.0,
            target,
            old(state).modals@,
            old(state).paused,
        ) && final(state).modals@ == old(state).modals@.push(on.0),
        final(state).paused == old(state).paused,
        final(state).muted == old(state).muted,
        final(state).last_screen == old(state).last_screen,
        final(state).diagnostics == old(state).diagnostics,
        final(state).debug_ui == old(state).debug_ui,
{
    let mut cmds: Vec<Command> = Vec::new();
    if screen != Screen::Gameplay {
        return cmds;
    }
    if state.modals.len() == 0 {
        cmds.push(Command::SwitchInputCtx(SwitchInputCtx::new(target, Context::Modal)));
        if on.0 == Modal::Main && !state.paused {
            cmds.push(Command::PauseToggle(OnPauseToggle));
            cmds.push(Command::CamCursorToggle(OnCamCursorToggle));
        }
    }
    cmds.push(Command::ClearModals(OnClearModals));
    cmds.push(Command::SpawnModal(on.0));
    state.modals.push(on.0);
    proof {
        assert(cmds@ =~= new_modal_commands(on.0, target, old(state).modals@, old(state).paused));
    }
    cmds
}

/// What closing the topmost of the open modals asks for: it goes, the one
/// below it comes back, and when none is left `target` gets the gameplay
/// input again, the game goes on and the camera takes the cursor.
pub open spec fn pop_modal_commands(target: Entity, open: Seq<Modal>) -> Seq<Command> {
    let rest = open.drop_last();
    let back = if rest.len() > 0 {
        seq![Command::SpawnModal(rest.last())]
    } else {
        seq![
            Command::SwitchInputCtx(SwitchInputCtx { ctx: Context::Gameplay, entity: target }),
            Command::PauseToggle(OnPauseToggle),
            Command::CamCursorToggle(OnCamCursorToggle),
        ]
    };
    seq![Command::DespawnModal(open.last())] + back
}

/// Closes the topmost modal. Does nothing off the gameplay screen. On the
/// gameplay screen a modal has to be open.
pub fn pop_modal(target: Entity, screen: Screen, state: &mut GameState) -> (r: Vec<Command>)
    requires
        screen == Screen::Gameplay ==> old(state).modals@.len() > 0,
    ensures
        screen != Screen::Gameplay ==> r@ == Seq::<Command>::empty() && final(state).modals@
            == old(state).modals@,
        screen == Screen::Gameplay ==> r@ == pop_modal_commands(target, old(state).modals@)
            && final(state).modals@ == old(state).modals@.drop_last(),
        final(state).paused == old(state).paused,
        final(state).muted == old(state).muted,
        final(state).last_screen == old(state).last_screen,
        final(state).diagnostics == old(state).diagnostics,
        final(state).debug_ui == old(state).debug_ui,
{
    let mut cmds: Vec<Command> = Vec::new();
    if screen != Screen::Gameplay {
        return cmds;
    }
    let popped: Modal = match state.modals.pop() {
        Some(modal) => modal,
        None => {
            return cmds;
        },
    };
    cmds.push(Command::DespawnModal(popped));
    let left: usize = state.modals.len();
    if left > 0 {
        cmds.push(Command::SpawnModal(state.modals[left - 1]));
    } else {
        cmds.push(Command::SwitchInputCtx(SwitchInputCtx::new(target, Context::Gameplay)));
        cmds.push(Command::PauseToggle(OnPauseToggle));
        cmds.push(Command::CamCursorToggle(OnCamCursorToggle));
    }
    proof {
        assert(cmds@ =~= pop_modal_commands(target, old(state).modals@));
    }
    cmds
}

/// Takes every open modal off the screen. The stack itself stays as it is.
pub fn clear_modals(state: &GameState) -> (r: Vec<Command>)
    ensures
        r@ == state.modals@.map_values(|m: Modal| Command::DespawnModal(m)),
{
    let mut cmds: Vec<Command> = Vec::new();
    let mut i: usize = 0;
    while i < state.modals.len()
        invariant
            i <= state.modals.len(),
            cmds@ == state.modals@.take(i as int).map_values(|m: Modal| Command::DespawnModal(m)),
        decreases state.modals.len() - i,
    {
        cmds.push(Command::DespawnModal(state.modals[i]));
        proof {
            assert(cmds@ =~= state.modals@.take(i + 1).map_values(
                |m: Modal| Command::DespawnModal(m),
            ));
        }
        i = i + 1;
    }
    proof {
        assert(state.modals@.take(state.modals.len() as int) =~= state.modals@);
    }
    cmds
}

/// Leaves the game for the title: the menus get the input, the title screen
/// comes, and the state of the game is reset.
pub fn click_to_menu(state: &mut GameState) -> (r: Vec<Command>)
    ensures
        r@ == seq![
            Command::SwitchInputCtx(
                SwitchInputCtx { ctx: Context::Modal, entity: Entity::placeholder() },
            ),
            Command::GoTo(OnGoTo(Screen::Title)),
        ],
        final(state).modals@ == Seq::<Modal>::empty(),
        !final(state).paused,
        !final(state).muted,
        final(state).last_screen == old(state).last_screen,
        final(state).diagnostics == old(state).diagnostics,
        final(state).debug_ui == old(state).debug_ui,
{
    let mut cmds: Vec<Command> = Vec::new();
    cmds.push(Command::SwitchInputCtx(SwitchInputCtx::from_context(Context::Modal)));
    cmds.push(Command::GoTo(OnGoTo(Screen::Title)));
    state.reset();
    cmds
}

pub fn click_pop_modal() -> (r: Command)
    ensures
        r == Command::PopModal(OnPopModal),
{
    Command::PopModal(OnPopModal)
}

pub fn click_spawn_settings() -> (r: Command)
    ensures
        r == Command::NewModal(OnNewModal(Modal::Settings)),
{
    Command::NewModal(OnNewModal(Modal::Settings))
}

} // verus!
