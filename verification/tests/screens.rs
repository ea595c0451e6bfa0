use midgard::asset_loading::tracking::ResourceHandles;
use midgard::models::event_dispatch::{
    Back, OnCamCursorToggle, OnClearModals, OnGoTo, OnNewModal, OnPauseToggle, OnPopModal,
    SwitchInputCtx,
};
use midgard::models::input::Context;
use midgard::models::pre_load::Sound;
use midgard::models::settings::Settings;
use midgard::models::states::{GameState, Modal, Screen};
use midgard::screens::gameplay::{
    add_new_modal, clear_modals, click_pop_modal, click_spawn_settings, click_to_menu, pop_modal,
    toggle_mute, toggle_pause, trigger_menu_toggle_on_esc, Command, VolumeChange,
};
use midgard::screens::navigation::{
    all_assets_loaded, back, credits, gameplay_or_loading, on_back, on_go_to, settings, title,
    track_last_screen, StateTransition,
};
use midgard::screens::splash::ImageNodeFadeInOut;
use midgard::world::Entity;

const PLAYER: Entity = Entity { index: 2, generation: 0 };

#[test]
fn pause_toggles() {
    let mut state = GameState::default();
    assert_eq!(toggle_pause(&mut state, false, true), Some(true));
    assert!(state.paused);
    assert_eq!(toggle_pause(&mut state, true, true), Some(false));
    assert!(!state.paused);
    // the clock was stopped from elsewhere: it runs again
    assert_eq!(toggle_pause(&mut state, true, true), Some(false));
    assert!(state.paused);
    // without the icon only the flag flips
    assert_eq!(toggle_pause(&mut state, false, false), None);
    assert!(!state.paused);
}

#[test]
fn mute_toggles() {
    let settings =
        Settings { sound: Sound { general: 800, music: 500, sfx: 250 }, ..Settings::default() };
    let mut state = GameState::default();
    assert_eq!(
        toggle_mute(&mut state, &settings, true),
        Some(VolumeChange { music: 0, sfx: 0, icon_visible: true })
    );
    assert!(state.muted);
    assert_eq!(
        toggle_mute(&mut state, &settings, true),
        Some(VolumeChange { music: 400, sfx: 200, icon_visible: false })
    );
    assert!(!state.muted);
    assert_eq!(toggle_mute(&mut state, &settings, false), None);
    assert!(state.muted);
}

#[test]
fn escape_opens_the_menu_or_closes_the_top_modal() {
    let mut state = GameState::default();
    assert_eq!(
        trigger_menu_toggle_on_esc(Screen::Gameplay, &state),
        Some(Command::NewModal(OnNewModal(Modal::Main)))
    );
    state.modals.push(Modal::Main);
    assert_eq!(
        trigger_menu_toggle_on_esc(Screen::Gameplay, &state),
        Some(Command::PopModal(OnPopModal))
    );
    assert_eq!(trigger_menu_toggle_on_esc(Screen::Title, &state), None);
}

#[test]
fn first_modal_switches_input_and_pauses() {
    let mut state = GameState::default();
    let cmds = add_new_modal(OnNewModal(Modal::Main), PLAYER, Screen::Gameplay, &mut state);
    assert_eq!(
        cmds,
        vec![
            Command::SwitchInputCtx(SwitchInputCtx { ctx: Context::Modal, entity: PLAYER }),
            Command::PauseToggle(OnPauseToggle),
            Command::CamCursorToggle(OnCamCursorToggle),
            Command::ClearModals(OnClearModals),
            Command::SpawnModal(Modal::Main),
        ]
    );
    assert_eq!(state.modals, vec![Modal::Main]);

    let cmds = add_new_modal(OnNewModal(Modal::Settings), PLAYER, Screen::Gameplay, &mut state);
    assert_eq!(
        cmds,
        vec![Command::ClearModals(OnClearModals), Command::SpawnModal(Modal::Settings)]
    );
    assert_eq!(state.modals, vec![Modal::Main, Modal::Settings]);
}

#[test]
fn first_modal_does_not_pause_a_paused_game_or_for_settings() {
    let mut state = GameState { paused: true, ..GameState::default() };
    let cmds = add_new_modal(OnNewModal(Modal::Main), PLAYER, Screen::Gameplay, &mut state);
    assert_eq!(
        cmds,
        vec![
            Command::SwitchInputCtx(SwitchInputCtx { ctx: Context::Modal, entity: PLAYER }),
            Command::ClearModals(OnClearModals),
            Command::SpawnModal(Modal::Main),
        ]
    );
    let mut state = GameState::default();
    let cmds = add_new_modal(OnNewModal(Modal::Settings), PLAYER, Screen::Gameplay, &mut state);
    assert_eq!(cmds.len(), 3);
    assert_eq!(cmds[2], Command::SpawnModal(Modal::Settings));
}

#[test]
fn modals_are_for_gameplay_only() {
    let mut state = GameState::default();
    assert!(add_new_modal(OnNewModal(Modal::Main), PLAYER, Screen::Title, &mut state).is_empty());
    assert!(state.modals.is_empty());
    assert!(pop_modal(PLAYER, Screen::Settings, &mut state).is_empty());
}

#[test]
fn popping_brings_back_the_modal_below() {
    let mut state =
        GameState { modals: vec![Modal::Main, Modal::Settings], ..GameState::default() };
    let cmds = pop_modal(PLAYER, Screen::Gameplay, &mut state);
    assert_eq!(
        cmds,
        vec![Command::DespawnModal(Modal::Settings), Command::SpawnModal(Modal::Main)]
    );
    assert_eq!(state.modals, vec![Modal::Main]);
    let cmds = pop_modal(PLAYER, Screen::Gameplay, &mut state);
    assert_eq!(
        cmds,
        vec![
            Command::DespawnModal(Modal::Main),
            Command::SwitchInputCtx(SwitchInputCtx { ctx: Context::Gameplay, entity: PLAYER }),
            Command::PauseToggle(OnPauseToggle),
            Command::CamCursorToggle(OnCamCursorToggle),
        ]
    );
    assert!(state.modals.is_empty());
}

#[test]
fn clearing_takes_every_modal_off_the_screen() {
    let state = GameState { modals: vec![Modal::Main, Modal::Settings], ..GameState::default() };
    assert_eq!(
        clear_modals(&state),
        vec![Command::DespawnModal(Modal::Main), Command::DespawnModal(Modal::Settings)]
    );
    assert_eq!(state.modals.len(), 2);
    assert!(clear_modals(&GameState::default()).is_empty());
}

#[test]
fn clicks_in_the_menu() {
    let mut state = GameState {
        modals: vec![Modal::Main],
        paused: true,
        muted: true,
        ..GameState::default()
    };
    assert_eq!(
        click_to_menu(&mut state),
        vec![
            Command::SwitchInputCtx(SwitchInputCtx {
                ctx: Context::Modal,
                entity: Entity::placeholder()
            }),
            Command::GoTo(OnGoTo(Screen::Title)),
        ]
    );
    assert!(state.modals.is_empty() && !state.paused && !state.muted);
    assert_eq!(click_pop_modal(), Command::PopModal(OnPopModal));
    assert_eq!(click_spawn_settings(), Command::NewModal(OnNewModal(Modal::Settings)));
}

#[test]
fn last_screen_is_the_one_left_last() {
    let mut state = GameState::default();
    track_last_screen(&Vec::new(), &mut state);
    assert_eq!(state.last_screen, Screen::Title);
    track_last_screen(
        &vec![
            StateTransition { exited: Some(Screen::Splash), entered: Some(Screen::Loading) },
            StateTransition { exited: Some(Screen::Loading), entered: Some(Screen::Credits) },
        ],
        &mut state,
    );
    assert_eq!(state.last_screen, Screen::Loading);
    track_last_screen(
        &vec![StateTransition { exited: None, entered: Some(Screen::Splash) }],
        &mut state,
    );
    assert_eq!(state.last_screen, Screen::Title);
}

#[test]
fn going_back() {
    let state = GameState { last_screen: Screen::Settings, ..GameState::default() };
    for screen in [Screen::Splash, Screen::Title, Screen::Loading] {
        assert_eq!(back(screen, &state), None);
    }
    for screen in [Screen::Tutorial, Screen::Credits, Screen::Settings, Screen::Gameplay] {
        assert_eq!(back(screen, &state), Some(Back(Screen::Settings)));
    }
    assert_eq!(on_back(Back(Screen::Title), Screen::Credits), Some(Screen::Title));
    assert_eq!(on_back(Back(Screen::Title), Screen::Gameplay), None);
    assert_eq!(on_go_to(OnGoTo(Screen::Tutorial)), Screen::Tutorial);
    assert_eq!(title(), OnGoTo(Screen::Title));
    assert_eq!(settings(), OnGoTo(Screen::Settings));
    assert_eq!(credits(), OnGoTo(Screen::Credits));
}

#[test]
fn play_waits_for_the_assets() {
    let mut handles = ResourceHandles::new();
    assert_eq!(gameplay_or_loading(&handles), Screen::Gameplay);
    assert!(all_assets_loaded(&handles));
    handles.push_handle(1);
    assert_eq!(gameplay_or_loading(&handles), Screen::Loading);
    assert!(!all_assets_loaded(&handles));
}

#[test]
fn splash_fades_in_and_out() {
    let second = 1_000_000_000u64;
    let at = |t: u64| {
        ImageNodeFadeInOut { total_duration: 18 * second / 10, fade_duration: 6 * second / 10, t }
            .alpha()
    };
    assert_eq!(at(0), 0);
    assert_eq!(at(300_000_000), 500);
    assert_eq!(at(599_999_999), 999);
    assert_eq!(at(600_000_000), 1000);
    assert_eq!(at(1_200_000_000), 1000);
    assert_eq!(at(1_500_000_000), 500);
    assert_eq!(at(1_800_000_000), 0);
    assert_eq!(at(5_000_000_000), 0);
    let no_fade = ImageNodeFadeInOut { total_duration: 10, fade_duration: 0, t: 5 };
    assert_eq!(no_fade.alpha(), 1000);
    let mut anim = ImageNodeFadeInOut { total_duration: 10, fade_duration: 4, t: 1 };
    anim.tick(2);
    assert_eq!(anim.t, 3);
    assert_eq!(anim.alpha(), 750);
    anim.tick(u64::MAX);
    assert_eq!(anim.t, u64::MAX);
}
