use midgard::models::keybinding::{Input, KeyCode, Keybind, MouseButton};
use midgard::ui::keybind_editor::{
    actions_grid, apply, bind, delete_binding, pressed_input, replace_binding,
    show_binding_dialog, ButtonEvent, Dialog, InputButton, SettingsField, INPUTS_PER_ACTION,
};

fn key(code: KeyCode) -> Input {
    Input::Keyboard(code)
}

#[test]
fn grid_has_three_buttons_for_each_action() {
    assert_eq!(INPUTS_PER_ACTION, 3);
    let grid = actions_grid(&Keybind::default());
    assert_eq!(grid.len(), 24);
    let row = |field, a: Option<Input>, b: Option<Input>| {
        vec![
            InputButton { field, input: a },
            InputButton { field, input: b },
            InputButton { field, input: None },
        ]
    };
    let mut expected = Vec::new();
    expected.extend(row(SettingsField::Forward, Some(key(KeyCode::KeyW)), Some(key(KeyCode::ArrowUp))));
    expected.extend(row(SettingsField::Left, Some(key(KeyCode::KeyA)), Some(key(KeyCode::ArrowLeft))));
    expected.extend(row(SettingsField::Backward, Some(key(KeyCode::KeyS)), Some(key(KeyCode::ArrowDown))));
    expected.extend(row(SettingsField::Right, Some(key(KeyCode::KeyD)), Some(key(KeyCode::ArrowRight))));
    expected.extend(row(SettingsField::Jump, Some(key(KeyCode::Space)), None));
    expected.extend(row(SettingsField::Crouch, Some(key(KeyCode::ControlLeft)), None));
    expected.extend(row(SettingsField::Dash, Some(key(KeyCode::AltLeft)), None));
    expected.extend(row(SettingsField::Sprint, Some(key(KeyCode::ShiftLeft)), None));
    assert_eq!(grid, expected);
}

#[test]
fn grid_shows_the_first_three_inputs_only() {
    let mut keybind = Keybind::default();
    keybind.jump = vec![
        key(KeyCode::Space),
        key(KeyCode::Enter),
        key(KeyCode::KeyP),
        key(KeyCode::KeyM),
    ];
    let grid = actions_grid(&keybind);
    let jump: Vec<_> = grid[12..15].iter().map(|b| b.input).collect();
    assert_eq!(
        jump,
        vec![Some(key(KeyCode::Space)), Some(key(KeyCode::Enter)), Some(key(KeyCode::KeyP))]
    );
}

#[test]
fn the_first_press_counts_keys_first() {
    let press = |input| ButtonEvent { input, pressed: true };
    let release = |input| ButtonEvent { input, pressed: false };
    let left = Input::MouseButton(MouseButton::Left);
    assert_eq!(pressed_input(&vec![], &vec![]), None);
    assert_eq!(pressed_input(&vec![release(key(KeyCode::KeyA))], &vec![release(left)]), None);
    assert_eq!(
        pressed_input(
            &vec![release(key(KeyCode::KeyA)), press(key(KeyCode::KeyD)), press(key(KeyCode::KeyS))],
            &vec![press(left)]
        ),
        Some(key(KeyCode::KeyD))
    );
    assert_eq!(
        pressed_input(
            &vec![release(key(KeyCode::KeyA))],
            &vec![release(Input::MouseButton(MouseButton::Right)), press(left)]
        ),
        Some(left)
    );
}

#[test]
fn binding_a_free_input_assigns_it() {
    let mut grid = actions_grid(&Keybind::default());
    assert_eq!(show_binding_dialog(14), Dialog::Binding { button: 14 });
    assert_eq!(bind(&mut grid, 14, key(KeyCode::Enter)), Dialog::Closed);
    assert_eq!(grid[14], InputButton { field: SettingsField::Jump, input: Some(key(KeyCode::Enter)) });
    let fresh = actions_grid(&Keybind::default());
    for i in (0..24).filter(|i| *i != 14) {
        assert_eq!(grid[i], fresh[i]);
    }
}

#[test]
fn binding_a_taken_input_asks_first() {
    let mut grid = actions_grid(&Keybind::default());
    let before = grid.clone();
    assert_eq!(
        bind(&mut grid, 14, key(KeyCode::KeyA)),
        Dialog::Conflict { button: 14, conflict: 3 }
    );
    assert_eq!(grid, before);
    replace_binding(&mut grid, 14, 3);
    assert_eq!(grid[3], InputButton { field: SettingsField::Left, input: None });
    assert_eq!(grid[14], InputButton { field: SettingsField::Jump, input: Some(key(KeyCode::KeyA)) });
    // rebinding a button to the input it has is a conflict with itself
    assert_eq!(
        bind(&mut grid, 14, key(KeyCode::KeyA)),
        Dialog::Conflict { button: 14, conflict: 14 }
    );
    replace_binding(&mut grid, 14, 14);
    assert_eq!(grid[14].input, Some(key(KeyCode::KeyA)));
}

#[test]
fn deleting_and_applying() {
    let mut grid = actions_grid(&Keybind::default());
    delete_binding(&mut grid, 0);
    delete_binding(&mut grid, 2);
    assert_eq!(grid[0].input, None);
    assert_eq!(bind(&mut grid, 2, key(KeyCode::Enter)), Dialog::Closed);
    assert_eq!(bind(&mut grid, 23, Input::MouseButton(MouseButton::Right)), Dialog::Closed);
    let mut keybind = Keybind::default();
    apply(&grid, &mut keybind);
    assert_eq!(keybind.forward, vec![key(KeyCode::ArrowUp), key(KeyCode::Enter)]);
    assert_eq!(keybind.left, vec![key(KeyCode::KeyA), key(KeyCode::ArrowLeft)]);
    assert_eq!(keybind.backward, vec![key(KeyCode::KeyS), key(KeyCode::ArrowDown)]);
    assert_eq!(keybind.right, vec![key(KeyCode::KeyD), key(KeyCode::ArrowRight)]);
    assert_eq!(keybind.jump, vec![key(KeyCode::Space)]);
    assert_eq!(keybind.crouch, vec![key(KeyCode::ControlLeft)]);
    assert_eq!(keybind.dash, vec![key(KeyCode::AltLeft)]);
    assert_eq!(
        keybind.sprint,
        vec![key(KeyCode::ShiftLeft), Input::MouseButton(MouseButton::Right)]
    );
    // the attack has no row: applying leaves it unbound
    assert!(keybind.attack.is_empty());
}
