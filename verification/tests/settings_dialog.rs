use midgard::models::event_dispatch::OnPopModal;
use midgard::models::pre_load::{SettingsPreloaded, Sound};
use midgard::models::settings::{ActiveTab, Settings, UiTab};
use midgard::models::states::{GameState, Screen, SunCycle};
use midgard::ui::layout::Display;
use midgard::ui::settings::{
    click_toggle_diagnostics, click_toggle_settings, click_toggle_sun_cycle,
    clock_toggle_debug_ui, lower_fov, lower_general, lower_music, lower_sfx, raise_fov,
    raise_general, raise_music, raise_sfx, switch_to_tab, tab_underline, SettingsExit,
};

fn limits() -> SettingsPreloaded {
    SettingsPreloaded { min_volume: 0, max_volume: 3_000, min_fov: 45_000, max_fov: 90_000, step: 100 }
}

fn with_sound(general: u32, music: u32, sfx: u32) -> Settings {
    Settings { sound: Sound { general, music, sfx }, ..Settings::default() }
}

#[test]
fn general_volume_moves_by_one_step_within_the_limits() {
    let mut s = with_sound(1_000, 500, 500);
    assert_eq!(raise_general(&mut s, &limits()), 1_100);
    assert_eq!(s.sound, Sound { general: 1_100, music: 500, sfx: 500 });
    assert_eq!(lower_general(&mut s, &limits()), 1_000);
    let mut s = with_sound(2_950, 500, 500);
    assert_eq!(raise_general(&mut s, &limits()), 3_000);
    assert_eq!(raise_general(&mut s, &limits()), 3_000);
    let mut s = with_sound(50, 500, 500);
    assert_eq!(lower_general(&mut s, &limits()), 0);
    assert_eq!(lower_general(&mut s, &limits()), 0);
    assert_eq!(s.sound.general, 0);
}

#[test]
fn channel_volumes_are_scaled_by_the_general_one() {
    let mut s = with_sound(500, 500, 800);
    assert_eq!(raise_music(&mut s, &limits()), 300);
    assert_eq!(s.sound, Sound { general: 500, music: 600, sfx: 800 });
    assert_eq!(lower_music(&mut s, &limits()), 250);
    assert_eq!(lower_sfx(&mut s, &limits()), 350);
    assert_eq!(s.sound, Sound { general: 500, music: 500, sfx: 700 });
    assert_eq!(raise_sfx(&mut s, &limits()), 400);
    let mut s = with_sound(1_000, 2_999, 1);
    assert_eq!(raise_music(&mut s, &limits()), 3_000);
    assert_eq!(lower_sfx(&mut s, &limits()), 0);
}

#[test]
fn limits_win_over_the_current_value() {
    let tight = SettingsPreloaded { min_volume: 400, max_volume: 600, ..limits() };
    let mut s = with_sound(100, 900, 500);
    assert_eq!(lower_general(&mut s, &tight), 400);
    assert_eq!(raise_music(&mut s, &tight), 240);
    assert_eq!(s.sound.music, 600);
    let wide = SettingsPreloaded { max_volume: u32::MAX, step: u32::MAX, ..limits() };
    let mut s = with_sound(5, 5, 5);
    assert_eq!(raise_general(&mut s, &wide), u32::MAX);
}

#[test]
fn field_of_view_stays_within_its_limits() {
    let mut s = Settings::default();
    assert_eq!(lower_fov(&mut s, &limits(), 5_000), 45_000);
    assert_eq!(raise_fov(&mut s, &limits(), 5_000), 50_000);
    assert_eq!(s.fov, 50_000);
    assert_eq!(raise_fov(&mut s, &limits(), 50_000), 90_000);
    assert_eq!(lower_fov(&mut s, &limits(), 5_000), 85_000);
    assert_eq!(s.sound, Sound::default());
}

#[test]
fn tabs() {
    let mut active = ActiveTab::default();
    assert_eq!(tab_underline(UiTab::Audio, &active), 0);
    assert_eq!(tab_underline(UiTab::Video, &active), 10_000);
    switch_to_tab(UiTab::Keybindings, &mut active);
    assert_eq!(active, ActiveTab(UiTab::Keybindings));
    assert_eq!(tab_underline(UiTab::Audio, &active), 10_000);
    assert_eq!(tab_underline(UiTab::Keybindings, &active), 0);
}

#[test]
fn overlay_switches() {
    let mut state = GameState::default();
    assert_eq!(click_toggle_diagnostics(&mut state, Some(Display::Hidden)), Some((Display::Flex, true)));
    assert!(!state.diagnostics);
    assert_eq!(click_toggle_diagnostics(&mut state, Some(Display::Flex)), Some((Display::Hidden, false)));
    assert!(state.diagnostics);
    assert_eq!(click_toggle_diagnostics(&mut state, None), None);
    assert!(state.diagnostics);
    assert!(clock_toggle_debug_ui(&mut state));
    assert!(state.debug_ui);
    assert!(!clock_toggle_debug_ui(&mut state));
    assert!(!state.debug_ui);
}

#[test]
fn sun_cycle_switch() {
    let mut s = Settings::default();
    assert_eq!(click_toggle_sun_cycle(&mut s), "Nimbus");
    assert_eq!(s.sun_cycle, SunCycle::Nimbus);
    assert_eq!(click_toggle_sun_cycle(&mut s), "DayNight");
    assert_eq!(s.sun_cycle, SunCycle::DayNight);
}

#[test]
fn leaving_the_settings() {
    assert_eq!(click_toggle_settings(Screen::Settings), SettingsExit::Screen(Screen::Title));
    assert_eq!(click_toggle_settings(Screen::Gameplay), SettingsExit::Pop(OnPopModal));
}
