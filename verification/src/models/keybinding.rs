//! Which keys and buttons stand for which action.

use vstd::prelude::*;

verus! {

/// The keys that the game binds.
#[derive(Clone, Copy, Debug, PartialEq, Eq, Structural)]
pub enum KeyCode {
    KeyA,
    KeyD,
    KeyM,
    KeyP,
    KeyS,
    KeyW,
    ArrowUp,
    ArrowDown,
    ArrowLeft,
    ArrowRight,
    Space,
    Enter,
    Escape,
    AltLeft,
    ControlLeft,
    ShiftLeft,
}

#[derive(Clone, Copy, Debug, PartialEq, Eq, Structural)]
pub enum MouseButton {
    Left,
    Right,
    Middle,
}

#[derive(Clone, Copy, Debug, PartialEq, Eq, Structural)]
pub enum GamepadButton {
    South,
    East,
    Select,
    LeftTrigger,
    RightTrigger,
    RightTrigger2,
    LeftThumb,
}

/// Something a player can press.
#[derive(Clone, Copy, Debug, PartialEq, Eq, Structural)]
pub enum Input {
    Keyboard(KeyCode),
    MouseButton(MouseButton),
    GamepadButton(GamepadButton),
}

/// Keyboard and mouse bindings: for each action the inputs that trigger it.
#[derive(Clone, Debug)]
pub struct Keybind {
    pub left: Vec<Input>,
    pub right: Vec<Input>,
    pub forward: Vec<Input>,
    pub backward: Vec<Input>,
    pub jump: Vec<Input>,
    pub dash: Vec<Input>,
    pub crouch: Vec<Input>,
    pub sprint: Vec<Input>,
    pub attack: Vec<Input>,
}

impl Keybind {
    /// No action has any input left.
    pub open spec fn is_clear(&self) -> bool {
        &&& self.left@.len() == 0
        &&& self.right@.len() == 0
        &&& self.forward@.len() == 0
        &&& self.backward@.len() == 0
        &&& self.jump@.len() == 0
        &&& self.dash@.len() == 0
        &&& self.crouch@.len() == 0
        &&& self.sprint@.len() == 0
        &&& self.attack@.len() == 0
    }

    /// The bindings of a fresh installation: WASD and the arrows to move, space
    /// to jump, left Alt to dash, left Control to crouch, left Shift to sprint
    /// and the left mouse button to attack.
    pub open spec fn is_initial(&self) -> bool {
        &&& self.forward@ == seq![
            Input::Keyboard(KeyCode::KeyW),
            Input::Keyboard(KeyCode::ArrowUp),
        ]
        &&& self.left@ == seq![Input::Keyboard(KeyCode::KeyA), Input::Keyboard(KeyCode::ArrowLeft)]
        &&& self.backward@ == seq![
            Input::Keyboard(KeyCode::KeyS),
            Input::Keyboard(KeyCode::ArrowDown),
        ]
        &&& self.right@ == seq![
            Input::Keyboard(KeyCode::KeyD),
            Input::Keyboard(KeyCode::ArrowRight),
        ]
        &&& self.jump@ == seq![Input::Keyboard(KeyCode::Space)]
        &&& self.dash@ == seq![Input::Keyboard(KeyCode::AltLeft)]
        &&& self.crouch@ == seq![Input::Keyboard(KeyCode::ControlLeft)]
        &&& self.sprint@ == seq![Input::Keyboard(KeyCode::ShiftLeft)]
        &&& self.attack@ == seq![Input::MouseButton(MouseButton::Left)]
    }

    /// Unbinds every action.
    pub fn clear(&mut self)
        ensures
            final(self).is_clear(),
    {
        self.left.clear();
        self.right.clear();
        self.forward.clear();
        self.backward.clear();
        self.jump.clear();
        self.dash.clear();
        self.crouch.clear();
        self.sprint.clear();
        self.attack.clear();
    }
}

fn one(a: Input) -> (r: Vec<Input>)
    ensures
        r@ == seq![a],
{
    let mut v: Vec<Input> = Vec::new();
    v.push(a);
    v
}

fn two(a: Input, b: Input) -> (r: Vec<Input>)
    ensures
        r@ == seq![a, b],
{
    let mut v: Vec<Input> = Vec::new();
    v.push(a);
    v.push(b);
    v
}

impl Default for Keybind {
    fn default() -> (r: Self)
        ensures
            r.is_initial(),
    {
        Keybind {
            forward: two(Input::Keyboard(KeyCode::KeyW), Input::Keyboard(KeyCode::ArrowUp)),
            left: two(Input::Keyboard(KeyCode::KeyA), Input::Keyboard(KeyCode::ArrowLeft)),
            backward: two(Input::Keyboard(KeyCode::KeyS), Input::Keyboard(KeyCode::ArrowDown)),
            right: two(Input::Keyboard(KeyCode::KeyD), Input::Keyboard(KeyCode::ArrowRight)),
            jump: one(Input::Keyboard(KeyCode::Space)),
            dash: one(Input::Keyboard(KeyCode::AltLeft)),
            crouch: one(Input::Keyboard(KeyCode::ControlLeft)),
            sprint: one(Input::Keyboard(KeyCode::ShiftLeft)),
            attack: one(Input::MouseButton(MouseButton::Left)),
        }
    }
}

} // verus!
