use midgard::asset_loading::tracking::{load_resource_assets, ResourceHandles};
use midgard::models::states::GameState;
use midgard::sound::{
    btn_sounds, dash_sound, jump_sound, movement_sound, start_soundtrack, step_choice,
    ButtonSound,
};
use midgard::ui::interaction::Interaction;

#[test]
fn handles_wait_until_loaded() {
    let mut handles = ResourceHandles::default();
    assert!(handles.is_all_done());
    handles.push_handle(11);
    handles.push_handle(22);
    handles.push_handle(33);
    assert!(!handles.is_all_done());

    assert!(load_resource_assets(&mut handles, &vec![]).is_empty());
    assert!(!handles.is_all_done());
    assert!(handles.finished_handles().is_empty());

    assert_eq!(load_resource_assets(&mut handles, &vec![22, 99]), vec![22]);
    assert_eq!(handles.finished_handles(), vec![22]);
    assert!(!handles.is_all_done());

    handles.push_handle(44);
    assert_eq!(load_resource_assets(&mut handles, &vec![44, 22, 11]), vec![11, 44]);
    assert_eq!(handles.finished_handles(), vec![22, 11, 44]);
    assert!(!handles.is_all_done());

    assert_eq!(load_resource_assets(&mut handles, &vec![33]), vec![33]);
    assert!(handles.is_all_done());
    assert_eq!(handles.finished_handles(), vec![22, 11, 44, 33]);
    assert!(load_resource_assets(&mut handles, &vec![33]).is_empty());
}

#[test]
fn waiting_handles_keep_their_order() {
    let mut handles = ResourceHandles::new();
    for h in [5, 6, 7, 8] {
        handles.push_handle(h);
    }
    assert_eq!(load_resource_assets(&mut handles, &vec![6]), vec![6]);
    // 5, 7, 8 still wait in that order: loading all of them finishes them so
    assert_eq!(load_resource_assets(&mut handles, &vec![8, 7, 5]), vec![5, 7, 8]);
}

#[test]
fn the_same_handle_may_wait_twice() {
    let mut handles = ResourceHandles::new();
    handles.push_handle(5);
    handles.push_handle(5);
    assert_eq!(load_resource_assets(&mut handles, &vec![5]), vec![5, 5]);
    assert!(handles.is_all_done());
}

fn state(muted: bool, paused: bool) -> GameState {
    GameState { muted, paused, ..GameState::default() }
}

#[test]
fn step_choice_keeps_the_drawn_sound_when_audible() {
    assert_eq!(step_choice(&state(false, false), true, true, 3), Some(3));
    assert_eq!(step_choice(&state(true, false), true, true, 3), None);
    assert_eq!(step_choice(&state(false, true), true, true, 3), None);
    assert_eq!(step_choice(&state(false, false), false, true, 3), None);
    assert_eq!(step_choice(&state(false, false), true, false, 3), None);
}

#[test]
fn random_step_is_one_of_the_steps() {
    let mut seen = [false; 4];
    for _ in 0..400 {
        let i = movement_sound(&state(false, false), true, true, 4).unwrap();
        assert!(i < 4);
        seen[i] = true;
        assert!(jump_sound(&state(false, false), 4).unwrap() < 4);
        assert!(dash_sound(&state(false, false), 4).unwrap() < 4);
        assert_eq!(jump_sound(&state(false, false), 1), Some(0));
    }
    // a wrapper that handed back its argument would never get here
    assert!(seen.iter().all(|s| *s));
}

#[test]
fn no_sound_while_muted_or_paused() {
    for (muted, paused) in [(true, false), (false, true), (true, true)] {
        assert_eq!(movement_sound(&state(muted, paused), true, true, 4), None);
        assert_eq!(jump_sound(&state(muted, paused), 4), None);
        assert_eq!(dash_sound(&state(muted, paused), 4), None);
    }
    assert_eq!(movement_sound(&state(false, false), false, true, 4), None);
    assert_eq!(movement_sound(&state(false, false), true, false, 4), None);
}

#[test]
fn buttons_sound_on_hover_and_press() {
    assert_eq!(btn_sounds(Interaction::Hovered), Some(ButtonSound::Hover));
    assert_eq!(btn_sounds(Interaction::Pressed), Some(ButtonSound::Press));
    assert_eq!(btn_sounds(Interaction::Idle), None);
}

#[test]
fn soundtrack_is_one_of_the_tracks() {
    assert_eq!(start_soundtrack(1), 0);
    for _ in 0..50 {
        assert!(start_soundtrack(3) < 3);
    }
}
