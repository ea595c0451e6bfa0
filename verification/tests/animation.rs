use midgard::models::player::{AnimationState, Player};
use midgard::models::pre_load::Movement;
use midgard::player::animation::{
    animating, current_animation, starting_clip, Action, AnimatingState, AnimationCommand, Clip,
    ClipName, ControllerState, CrouchState, JumpState, KnockbackState, WalkBasis,
    ANIMATION_FACTOR,
};

fn moves() -> Movement {
    Movement {
        actions_in_air: 1,
        dash_distance: 10_000,
        speed: 8_000,
        sprint_factor: 1_500,
        crouch_factor: 500,
        idle_to_run_threshold: 10,
    }
}

fn walking(running_speed: u32, standing_on_entity: bool) -> ControllerState {
    ControllerState {
        action: None,
        basis: Some(WalkBasis { running_speed, standing_offset_y: 500, standing_on_entity }),
        just_starting: false,
    }
}

fn doing(action: Action) -> ControllerState {
    ControllerState { action: Some(action), ..walking(0, true) }
}

#[test]
fn walking_animations_follow_the_speed() {
    assert_eq!(ANIMATION_FACTOR, 100);
    let m = moves();
    assert_eq!(current_animation(&walking(0, true), &m), Some(AnimationState::StandIdle));
    assert_eq!(current_animation(&walking(10, true), &m), Some(AnimationState::StandIdle));
    assert_eq!(current_animation(&walking(11, true), &m), Some(AnimationState::Run(1)));
    assert_eq!(current_animation(&walking(8_000, true), &m), Some(AnimationState::Run(800)));
    assert_eq!(current_animation(&walking(8_001, true), &m), Some(AnimationState::Sprint(800)));
    assert_eq!(current_animation(&walking(12_000, true), &m), Some(AnimationState::Sprint(1_200)));
    assert_eq!(current_animation(&walking(12_000, false), &m), Some(AnimationState::Fall));
    let silent = ControllerState { action: None, basis: None, just_starting: false };
    assert_eq!(current_animation(&silent, &m), None);
}

#[test]
fn crouching_animations() {
    let m = moves();
    let crouch = |running_speed: u32, standing_offset_y: i32| ControllerState {
        action: Some(Action::Crouch(CrouchState::Sinking)),
        basis: Some(WalkBasis { running_speed, standing_offset_y, standing_on_entity: true }),
        just_starting: false,
    };
    assert_eq!(current_animation(&crouch(0, 50), &m), Some(AnimationState::StandIdle));
    assert_eq!(current_animation(&crouch(0, 49), &m), Some(AnimationState::Crouch));
    assert_eq!(current_animation(&crouch(4_000, 50), &m), Some(AnimationState::Run(400)));
    assert_eq!(current_animation(&crouch(4_000, -200), &m), Some(AnimationState::Crawl(1_600)));
    let blind = ControllerState { basis: None, ..crouch(0, 0) };
    assert_eq!(current_animation(&blind, &m), None);
}

#[test]
fn action_animations() {
    let m = moves();
    let of = |action: Action| current_animation(&doing(action), &m);
    assert_eq!(of(Action::Knockback(KnockbackState::Shove)), Some(AnimationState::KnockBack));
    assert_eq!(of(Action::Knockback(KnockbackState::Pushback)), Some(AnimationState::KnockBack));
    assert_eq!(of(Action::Jump(JumpState::NoJump)), None);
    assert_eq!(of(Action::Jump(JumpState::StartingJump)), Some(AnimationState::JumpStart));
    assert_eq!(
        of(Action::Jump(JumpState::SlowDownTooFastSlopeJump)),
        Some(AnimationState::JumpStart)
    );
    assert_eq!(of(Action::Jump(JumpState::MaintainingJump)), Some(AnimationState::JumpLoop));
    assert_eq!(of(Action::Jump(JumpState::StoppedMaintainingJump)), Some(AnimationState::JumpLand));
    assert_eq!(of(Action::Jump(JumpState::FallSection)), Some(AnimationState::Fall));
    assert_eq!(of(Action::Climb(Some(2_000))), Some(AnimationState::Climb(600)));
    assert_eq!(of(Action::Climb(Some(-2_005))), Some(AnimationState::Climb(-601)));
    assert_eq!(of(Action::Climb(Some(i32::MIN))), Some(AnimationState::Climb(-644_245_094)));
    assert_eq!(of(Action::Climb(None)), None);
    assert_eq!(of(Action::Dash), Some(AnimationState::Dash));
    assert_eq!(of(Action::WallSlide), Some(AnimationState::WallSlide));
    assert_eq!(of(Action::WallJump), Some(AnimationState::WallJump));
}

#[test]
fn clips() {
    let clip = |name, speed, repeat| Clip { name, speed, repeat };
    assert_eq!(starting_clip(AnimationState::StandIdle), clip(ClipName::IdleLoop, 1_000, true));
    assert_eq!(starting_clip(AnimationState::Run(800)), clip(ClipName::JogFwdLoop, 800, true));
    assert_eq!(starting_clip(AnimationState::Sprint(1_200)), clip(ClipName::SprintLoop, 3_600, true));
    assert_eq!(
        starting_clip(AnimationState::Sprint(u32::MAX)),
        clip(ClipName::SprintLoop, 3 * (u32::MAX as i64), true)
    );
    assert_eq!(starting_clip(AnimationState::JumpStart), clip(ClipName::JumpStart, 10, false));
    assert_eq!(starting_clip(AnimationState::JumpLand), clip(ClipName::JumpLand, 10, false));
    assert_eq!(starting_clip(AnimationState::JumpLoop), clip(ClipName::JumpLoop, 500, true));
    assert_eq!(starting_clip(AnimationState::WallJump), clip(ClipName::JumpStart, 2_000, false));
    assert_eq!(starting_clip(AnimationState::WallSlide), clip(ClipName::JumpLoop, 1_000, true));
    assert_eq!(starting_clip(AnimationState::Fall), clip(ClipName::JumpLoop, 1_000, true));
    assert_eq!(starting_clip(AnimationState::Crawl(77)), clip(ClipName::CrouchFwdLoop, 77, true));
    assert_eq!(starting_clip(AnimationState::Crouch), clip(ClipName::CrouchIdleLoop, 1_000, true));
    assert_eq!(starting_clip(AnimationState::Dash), clip(ClipName::Roll, 3_000, false));
    assert_eq!(starting_clip(AnimationState::KnockBack), clip(ClipName::HitChest, 1_000, false));
    assert_eq!(starting_clip(AnimationState::Climb(-5)), clip(ClipName::JumpLoop, -5, true));
}

#[test]
fn clip_names() {
    let names = [
        (ClipName::IdleLoop, "Idle_Loop"),
        (ClipName::JogFwdLoop, "Jog_Fwd_Loop"),
        (ClipName::SprintLoop, "Sprint_Loop"),
        (ClipName::JumpStart, "Jump_Start"),
        (ClipName::JumpLand, "Jump_Land"),
        (ClipName::JumpLoop, "Jump_Loop"),
        (ClipName::CrouchFwdLoop, "Crouch_Fwd_Loop"),
        (ClipName::CrouchIdleLoop, "Crouch_Idle_Loop"),
        (ClipName::Roll, "Roll"),
        (ClipName::HitChest, "Hit_Chest"),
    ];
    for (clip, name) in names {
        assert_eq!(clip.as_str(), name);
    }
}

#[test]
fn a_new_animation_replaces_the_old_one() {
    let mut player = Player::default();
    let mut state = AnimatingState { current: None };
    let cmds = animating(&walking(0, true), &moves(), &mut player, &mut state);
    assert_eq!(
        cmds,
        vec![
            AnimationCommand::StopAll,
            AnimationCommand::Start(Clip { name: ClipName::IdleLoop, speed: 1_000, repeat: true }),
        ]
    );
    assert_eq!(player.animation_state, AnimationState::StandIdle);
    assert_eq!(state.current, Some(AnimationState::StandIdle));

    let cmds = animating(&walking(4_000, true), &moves(), &mut player, &mut state);
    assert_eq!(
        cmds,
        vec![
            AnimationCommand::StopAll,
            AnimationCommand::Start(Clip { name: ClipName::JogFwdLoop, speed: 400, repeat: true }),
        ]
    );
    assert_eq!(player.animation_state, AnimationState::Run(400));
}

#[test]
fn the_same_animation_only_follows_the_speed() {
    let mut player = Player::default();
    let mut state = AnimatingState { current: Some(AnimationState::Run(400)) };
    let cmds = animating(&walking(6_000, true), &moves(), &mut player, &mut state);
    assert_eq!(cmds, vec![AnimationCommand::SetSpeed(600)]);
    assert_eq!(state.current, Some(AnimationState::Run(600)));
    assert_eq!(player.animation_state, AnimationState::Run(600));

    let mut state = AnimatingState { current: Some(AnimationState::Climb(1)) };
    let cmds = animating(&doing(Action::Climb(Some(-1_000))), &moves(), &mut player, &mut state);
    assert_eq!(cmds, vec![AnimationCommand::SetSpeed(-300)]);

    let mut state = AnimatingState { current: Some(AnimationState::StandIdle) };
    let cmds = animating(&walking(0, true), &moves(), &mut player, &mut state);
    assert!(cmds.is_empty());
}

#[test]
fn chained_jumps_and_dashes_start_over() {
    let mut player = Player::default();
    for (action, shown) in [
        (Action::Jump(JumpState::StartingJump), AnimationState::JumpStart),
        (Action::Dash, AnimationState::Dash),
    ] {
        let mut state = AnimatingState { current: Some(shown) };
        let chained = ControllerState { just_starting: true, ..doing(action) };
        let cmds = animating(&chained, &moves(), &mut player, &mut state);
        assert_eq!(cmds, vec![AnimationCommand::SeekAllToStart]);
        let cmds = animating(&doing(action), &moves(), &mut player, &mut state);
        assert!(cmds.is_empty());
    }
}

#[test]
fn nothing_changes_without_a_report() {
    let mut player = Player { animation_state: AnimationState::Dash, ..Player::default() };
    let mut state = AnimatingState { current: Some(AnimationState::Dash) };
    let cmds =
        animating(&doing(Action::Jump(JumpState::NoJump)), &moves(), &mut player, &mut state);
    assert!(cmds.is_empty());
    assert_eq!(player.animation_state, AnimationState::Dash);
    assert_eq!(state.current, Some(AnimationState::Dash));
}
