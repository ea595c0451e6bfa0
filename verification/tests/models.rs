use midgard::models::attributes::{Attributes, ComputedAttributes, Health, Mana};
use midgard::models::enemy::{Enemy, DEFAULT_AGGRO_RADIUS};
use midgard::models::event_dispatch::{
    Back, OnCamCursorToggle, OnClearModals, OnDebugUiToggle, OnDiagnosticsToggle, OnFovIncrement,
    OnGoTo, OnMuteToggle, OnNewModal, OnPauseToggle, OnPopModal, OnSwitchTab, SwitchInputCtx,
};
use midgard::models::input::{
    on_ctx_switch, ActionsChange, ActionsCommand, Attack, Context, Crouch, CurrentCtx, Dash,
    Escape, GameplayCtx, Jump, LeftTab, ModalCtx, Mute, Navigate, Pause, RightTab, Rotate, Select,
    Sprint,
};
use midgard::models::keybinding::{Input, KeyCode, Keybind, MouseButton};
use midgard::models::palette::{Color, DIM_BLUE, LIGHT_BLUE, TRANSPARENT, WHITEISH};
use midgard::models::player::{AnimationState, Player};
use midgard::models::pre_load::Sound;
use midgard::models::settings::{ActiveTab, Settings, UiTab, DEFAULT_FOV};
use midgard::models::states::{GameState, Modal, Screen, SunCycle};
use midgard::world::Entity;

#[test]
fn base_attributes_start_at_one() {
    let a = Attributes::default();
    assert_eq!(
        (a.strength(), a.dexterity(), a.intelligence(), a.vitality(), a.luck()),
        (1, 1, 1, 1, 1)
    );
}

#[test]
fn computed_attributes_defaults() {
    let c = ComputedAttributes::default();
    assert_eq!(c.attack, 1_000);
    assert_eq!(c.defence, 0);
    assert_eq!(c.magic_defence, 0);
    assert_eq!(c.magic_attack, 1_000);
    assert_eq!(c.hit_rate, 1_000);
    assert_eq!(c.dodge_rate, 0);
    assert_eq!(c.crit_rate, 0);
    assert_eq!(c.attack_rate, 1_000);
    assert_eq!(c.attack_range, 1_000);
    assert_eq!(c.move_speed, 10_000);
    assert_eq!(c.health, Health { max_hp: 1_000, hp: 1_000 });
    assert_eq!(c.mana, Mana { max_mp: 1_000, mp: 1_000 });
}

#[test]
fn pools_start_full() {
    assert_eq!(Health::new(30_000), Health { max_hp: 30_000, hp: 30_000 });
    assert_eq!(Mana::new(7), Mana { max_mp: 7, mp: 7 });
    assert_eq!(Health::default(), Health { max_hp: 0, hp: 0 });
    assert_eq!(Mana::default(), Mana { max_mp: 0, mp: 0 });
}

#[test]
fn enemy_defaults() {
    assert_eq!(DEFAULT_AGGRO_RADIUS, 14_000);
    assert_eq!(
        Enemy::default(),
        Enemy {
            id: Entity::placeholder(),
            aggro_radius: 14_000,
            target_position: None,
            target_entity: None,
        }
    );
}

#[test]
fn player_defaults() {
    let p = Player::default();
    assert_eq!(p.id, Entity::placeholder());
    assert_eq!(p.speed, 1_000);
    assert_eq!(p.animation_state, AnimationState::StandIdle);
    assert_eq!(p.target_position, None);
    assert_eq!(p.comp_attribs, ComputedAttributes::default());
    assert_eq!(AnimationState::default(), AnimationState::StandIdle);
}

#[test]
fn switch_input_ctx_constructors() {
    let e = Entity { index: 3, generation: 1 };
    assert_eq!(
        SwitchInputCtx::new(e, Context::Gameplay),
        SwitchInputCtx { ctx: Context::Gameplay, entity: e }
    );
    assert_eq!(
        SwitchInputCtx::from_context(Context::Modal),
        SwitchInputCtx { ctx: Context::Modal, entity: Entity::placeholder() }
    );
    assert_eq!(Context::default(), Context::Modal);
}

#[test]
fn requests_carry_their_payload() {
    assert_eq!(OnGoTo(Screen::Credits).0, Screen::Credits);
    assert_eq!(Back(Screen::Title).0, Screen::Title);
    assert_eq!(OnSwitchTab(UiTab::Video).0, UiTab::Video);
    assert_eq!(OnNewModal(Modal::Settings).0, Modal::Settings);
    assert_eq!(OnPopModal, OnPopModal);
    assert_eq!(OnClearModals, OnClearModals);
    assert_eq!(OnCamCursorToggle, OnCamCursorToggle);
    assert_eq!(OnFovIncrement, OnFovIncrement);
    assert_eq!(OnPauseToggle, OnPauseToggle);
    assert_eq!(OnMuteToggle, OnMuteToggle);
    assert_eq!(OnDiagnosticsToggle, OnDiagnosticsToggle);
    assert_eq!(OnDebugUiToggle, OnDebugUiToggle);
}

#[test]
fn input_markers_exist() {
    let _ = (GameplayCtx, Navigate, Rotate, Attack, Jump, Sprint, Dash, Crouch, Pause, Mute);
    let _ = (ModalCtx, Escape, Select, RightTab, LeftTab);
    assert_eq!(CurrentCtx(Context::Gameplay).0, Context::Gameplay);
}

#[test]
fn global_context_switch() {
    let holder = Entity { index: 0, generation: 0 };
    let to_modal = SwitchInputCtx::from_context(Context::Modal);
    let r = on_ctx_switch(&to_modal, Some(holder), Some(CurrentCtx(Context::Gameplay)));
    assert_eq!(
        r.commands,
        vec![ActionsCommand { entity: holder, change: ActionsChange::Insert(Context::Modal) }]
    );
    // a global switch leaves the player's context alone
    assert_eq!(r.player_ctx, Some(CurrentCtx(Context::Gameplay)));
    let to_gameplay = SwitchInputCtx::from_context(Context::Gameplay);
    let r = on_ctx_switch(&to_gameplay, Some(holder), None);
    assert_eq!(
        r.commands,
        vec![ActionsCommand { entity: holder, change: ActionsChange::Remove(Context::Modal) }]
    );
    let r = on_ctx_switch(&to_gameplay, None, None);
    assert!(r.commands.is_empty());
}

#[test]
fn player_context_switch() {
    let p = Entity { index: 4, generation: 2 };
    let holder = Entity { index: 0, generation: 0 };
    let to_modal = SwitchInputCtx::new(p, Context::Modal);
    let r = on_ctx_switch(&to_modal, Some(holder), Some(CurrentCtx(Context::Gameplay)));
    assert_eq!(
        r.commands,
        vec![
            ActionsCommand { entity: p, change: ActionsChange::Remove(Context::Gameplay) },
            ActionsCommand { entity: p, change: ActionsChange::Insert(Context::Modal) },
        ]
    );
    assert_eq!(r.player_ctx, Some(CurrentCtx(Context::Modal)));
    let to_gameplay = SwitchInputCtx::new(p, Context::Gameplay);
    let r = on_ctx_switch(&to_gameplay, Some(holder), Some(CurrentCtx(Context::Modal)));
    assert_eq!(
        r.commands,
        vec![
            ActionsCommand { entity: p, change: ActionsChange::Remove(Context::Modal) },
            ActionsCommand { entity: p, change: ActionsChange::Insert(Context::Gameplay) },
        ]
    );
    // same context: nothing to change
    let r = on_ctx_switch(&to_gameplay, Some(holder), Some(CurrentCtx(Context::Gameplay)));
    assert!(r.commands.is_empty());
    assert_eq!(r.player_ctx, Some(CurrentCtx(Context::Gameplay)));
    // not a player: dropped
    let r = on_ctx_switch(&to_gameplay, Some(holder), None);
    assert!(r.commands.is_empty());
    assert_eq!(r.player_ctx, None);
}

#[test]
fn keybind_defaults_and_clear() {
    let mut k = Keybind::default();
    assert_eq!(k.forward, vec![Input::Keyboard(KeyCode::KeyW), Input::Keyboard(KeyCode::ArrowUp)]);
    assert_eq!(k.left, vec![Input::Keyboard(KeyCode::KeyA), Input::Keyboard(KeyCode::ArrowLeft)]);
    assert_eq!(
        k.backward,
        vec![Input::Keyboard(KeyCode::KeyS), Input::Keyboard(KeyCode::ArrowDown)]
    );
    assert_eq!(k.right, vec![Input::Keyboard(KeyCode::KeyD), Input::Keyboard(KeyCode::ArrowRight)]);
    assert_eq!(k.jump, vec![Input::Keyboard(KeyCode::Space)]);
    assert_eq!(k.dash, vec![Input::Keyboard(KeyCode::AltLeft)]);
    assert_eq!(k.crouch, vec![Input::Keyboard(KeyCode::ControlLeft)]);
    assert_eq!(k.sprint, vec![Input::Keyboard(KeyCode::ShiftLeft)]);
    assert_eq!(k.attack, vec![Input::MouseButton(MouseButton::Left)]);
    k.clear();
    for bound in [
        &k.left, &k.right, &k.forward, &k.backward, &k.jump, &k.dash, &k.crouch, &k.sprint,
        &k.attack,
    ] {
        assert!(bound.is_empty());
    }
}

#[test]
fn game_state_defaults_and_reset() {
    let mut s = GameState::default();
    assert!(s.modals.is_empty());
    assert_eq!(s.last_screen, Screen::Title);
    assert!(s.diagnostics && !s.debug_ui && !s.paused && !s.muted);
    s.modals = vec![Modal::Main, Modal::Settings];
    s.paused = true;
    s.muted = true;
    s.debug_ui = true;
    s.diagnostics = false;
    s.last_screen = Screen::Credits;
    s.reset();
    assert!(s.modals.is_empty());
    assert!(!s.paused && !s.muted);
    assert!(s.debug_ui && !s.diagnostics);
    assert_eq!(s.last_screen, Screen::Credits);
    assert_eq!(Screen::default(), Screen::Splash);
}

#[test]
fn sun_cycle_names() {
    assert_eq!(SunCycle::DayNight.as_str(), "DayNight");
    assert_eq!(SunCycle::Nimbus.as_str(), "Nimbus");
}

#[test]
fn settings_defaults_and_volumes() {
    let s = Settings::default();
    assert_eq!(s.sound, Sound { general: 1_000, music: 500, sfx: 500 });
    assert_eq!(s.fov, DEFAULT_FOV);
    assert_eq!(s.fov, 45_000);
    assert_eq!(s.sun_cycle, SunCycle::DayNight);
    assert_eq!(s.keybind.jump, vec![Input::Keyboard(KeyCode::Space)]);
    assert_eq!(s.music(), 500);
    assert_eq!(s.sfx(), 500);
    let s = Settings { sound: Sound { general: 700, music: 333, sfx: 1_000 }, ..s };
    assert_eq!(s.music(), 233);
    assert_eq!(s.sfx(), 700);
    assert_eq!(UiTab::default(), UiTab::Audio);
    assert_eq!(ActiveTab::default(), ActiveTab(UiTab::Audio));
}

#[test]
fn palette() {
    assert_eq!(Color::rgba(WHITEISH), Color { rgba: 0xECEC_ECFF });
    assert_eq!(TRANSPARENT, 0);
    assert_eq!(LIGHT_BLUE, 0x497A_C5FF);
    assert_eq!(DIM_BLUE, 0x2F54_92FF);
}
