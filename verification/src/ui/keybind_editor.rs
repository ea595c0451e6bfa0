//! The editor of the key bindings: a grid of buttons, three for each action,
//! and the dialogs by which a button gets its input.

use vstd::prelude::*;
use crate::models::keybinding::{Input, Keybind};

verus! {

/// Number of input columns.
pub const INPUTS_PER_ACTION: usize = 3;

/// The actions that the editor has a row for, in the order of the rows.
#[derive(Clone, Copy, Debug, PartialEq, Eq, Structural)]
pub enum SettingsField {
    Forward,
    Left,
    Backward,
    Right,
    Jump,
    Crouch,
    Dash,
    Sprint,
}

/// A button of the grid: the action it belongs to and the input assigned to it.
#[derive(Clone, Copy, Debug, PartialEq, Eq, Structural)]
pub struct InputButton {
    pub field: SettingsField,
    pub input: Option<Input>,
}

/// The dialog that the editor shows, if any. Buttons are named by their place
/// in the grid.
#[derive(Clone, Copy, Debug, PartialEq, Eq, Structural)]
pub enum Dialog {
    Closed,
    /// Waiting for the input to assign to `button`.
    Binding { button: usize },
    /// The input for `button` is assigned to `conflict` already.
    Conflict { button: usize, conflict: usize },
}

/// The inputs that `keybind` has for the action `field`.
pub open spec fn inputs_of(keybind: &Keybind, field: SettingsField) -> Seq<Input> {
    match field {
        SettingsField::Forward => keybind.forward@,
        SettingsField::Left => keybind.left@,
        SettingsField::Backward => keybind.backward@,
        SettingsField::Right => keybind.right@,
        SettingsField::Jump => keybind.jump@,
        SettingsField::Crouch => keybind.crouch@,
        SettingsField::Dash => keybind.dash@,
        SettingsField::Sprint => keybind.sprint@,
    }
}

/// The row of buttons for an action that has `inputs`: its first three
/// inputs, and empty buttons where it has fewer.
pub open spec fn action_row_of(field: SettingsField, inputs: Seq<Input>) -> Seq<InputButton> {
    Seq::new(
        INPUTS_PER_ACTION as nat,
        |i: int|
            InputButton {
                field,
                input: if i < inputs.len() {
                    Some(inputs[i])
                } else {
                    None
                },
            },
    )
}

/// The grid for `keybind`, row by row.
pub open spec fn grid_of(keybind: &Keybind) -> Seq<InputButton> {
    action_row_of(SettingsField::Forward, keybind.forward@) + action_row_of(
        SettingsField::Left,
        keybind.left@,
    ) + action_row_of(SettingsField::Backward, keybind.backward@) + action_row_of(
        SettingsField::Right,
        keybind.right@,
    ) + action_row_of(SettingsField::Jump, keybind.jump@) + action_row_of(
        SettingsField::Crouch,
        keybind.crouch@,
    ) + action_row_of(SettingsField::Dash, keybind.dash@) + action_row_of(
        SettingsField::Sprint,
        keybind.sprint@,
    )
}

fn action_row(field: SettingsField, inputs: &Vec<Input>, grid: &mut Vec<InputButton>)
    ensures
        final(grid)@ == old(grid)@ + action_row_of(field, inputs@),
{
    let mut index: usize = 0;
    while index < INPUTS_PER_ACTION
        invariant
            index <= INPUTS_PER_ACTION,
            grid@.len() == old(grid)@.len() + index,
            forall|k: int| 0 <= k < old(grid)@.len() ==> grid@[k] == old(grid)@[k],
            forall|k: int|
                0 <= k < index ==> grid@[old(grid)@.len() + k] == action_row_of(field, inputs@)[k],
        decreases INPUTS_PER_ACTION - index,
    {
        let input = if index < inputs.len() {
            Some(inputs[index])
        } else {
            None
        };
        grid.push(InputButton { field, input });
        index = index + 1;
    }
    proof {
        assert(grid@ =~= old(grid)@ + action_row_of(field, inputs@));
    }
}

/// The grid of buttons for `keybind`: a row of three for each action.
pub fn actions_grid(keybind: &Keybind) -> (grid: Vec<InputButton>)
    ensures
        grid@ == grid_of(keybind),
        grid@.len() == 8 * INPUTS_PER_ACTION,
{
    let mut grid: Vec<InputButton> = Vec::new();
    proof {
        assert(Seq::<InputButton>::empty() + action_row_of(
            SettingsField::Forward,
            keybind.forward@,
        ) =~= action_row_of(SettingsField::Forward, keybind.forward@));
    }
    action_row(SettingsField::Forward, &keybind.forward, &mut grid);
    action_row(SettingsField::Left, &keybind.left, &mut grid);
    action_row(SettingsField::Backward, &keybind.backward, &mut grid);
    action_row(SettingsField::Right, &keybind.right, &mut grid);
    action_row(SettingsField::Jump, &keybind.jump, &mut grid);
    action_row(SettingsField::Crouch, &keybind.crouch, &mut grid);
    action_row(SettingsField::Dash, &keybind.dash, &mut grid);
    action_row(SettingsField::Sprint, &keybind.sprint, &mut grid);
    grid
}

/// Takes the input from `button`.
pub fn delete_binding(buttons: &mut Vec<InputButton>, button: usize)
    requires
        button < old(buttons)@.len(),
    ensures
        final(buttons)@ == old(buttons)@.update(
            button as int,
            InputButton { input: None, ..old(buttons)@[button as int] },
        ),
{
    let field = buttons[button].field;
    buttons.set(button, InputButton { field, input: None });
}

/// Opens the dialog that waits for the input of `button`.
pub fn show_binding_dialog(button: usize) -> (r: Dialog)
    ensures
        r == (Dialog::Binding { button }),
{
    Dialog::Binding { button }
}

/// A key or mouse button with what happened to it.
#[derive(Clone, Copy, Debug, PartialEq, Eq, Structural)]
pub struct ButtonEvent {
    pub input: Input,
    pub pressed: bool,
}

/// The input of the first press among `events`, if there is one.
pub open spec fn first_pressed(events: Seq<ButtonEvent>) -> Option<Input>
    decreases events.len(),
{
    if events.len() == 0 {
        None
    } else if events[0].pressed {
        Some(events[0].input)
    } else {
        first_pressed(events.skip(1))
    }
}

fn first_press(events: &Vec<ButtonEvent>) -> (r: Option<Input>)
    ensures
        r == first_pressed(events@),
{
    let mut i: usize = 0;
    proof {
        assert(events@.skip(0) =~= events@);
    }
    while i < events.len()
        invariant
            i <= events.len(),
            first_pressed(events@) == first_pressed(events@.skip(i as int)),
        decreases events.len() - i,
    {
        if events[i].pressed {
            return Some(events[i].input);
        }
        proof {
            assert(events@.skip(i as int).skip(1) =~= events@.skip(i + 1));
        }
        i = i + 1;
    }
    None
}

/// The input that was pressed first: the first pressed key, and where no key
/// was pressed the first pressed mouse button.
pub fn pressed_input(keys: &Vec<ButtonEvent>, mouse_buttons: &Vec<ButtonEvent>) -> (r: Option<
    Input,
>)
    ensures
        r == (match first_pressed(keys@) {
            Some(input) => Some(input),
            None => first_pressed(mouse_buttons@),
        }),
{
    match first_press(keys) {
        Some(input) => Some(input),
        None => first_press(mouse_buttons),
    }
}

/// Whether `c` is the first button that has `input`.
pub open spec fn is_first_with(buttons: Seq<InputButton>, input: Input, c: int) -> bool {
    &&& 0 <= c < buttons.len()
    &&& buttons[c].input == Some(input)
    &&& forall|k: int| 0 <= k < c ==> buttons[k].input != Some(input)
}

/// Whether no button has `input`.
pub open spec fn is_free(buttons: Seq<InputButton>, input: Input) -> bool {
    forall|k: int| 0 <= k < buttons.len() ==> (#[trigger] buttons[k]).input != Some(input)
}

/// Assigns `input` to `button`, unless a button has it already: then nothing
/// is assigned, and the dialog that asks whether to replace names the first
/// button that has it. Either way the binding dialog is over.
pub fn bind(buttons: &mut Vec<InputButton>, button: usize, input: Input) -> (r: Dialog)
    requires
        button < old(buttons)@.len(),
    ensures
        match r {
            Dialog::Conflict { button: b, conflict } => {
                &&& b == button
                &&& is_first_with(old(buttons)@, input, conflict as int)
                &&& final(buttons)@ == old(buttons)@
            },
            Dialog::Closed => {
                &&& is_free(old(buttons)@, input)
                &&& final(buttons)@ == old(buttons)@.update(
                    button as int,
                    InputButton { input: Some(input), ..old(buttons)@[button as int] },
                )
            },
            Dialog::Binding { .. } => false,
        },
{
    let mut i: usize = 0;
    while i < buttons.len()
        invariant
            i <= buttons.len(),
            buttons@ == old(buttons)@,
            forall|k: int| 0 <= k < i ==> (#[trigger] buttons@[k]).input != Some(input),
        decreases buttons.len() - i,
    {
        match buttons[i].input {
            Some(assigned) => {
                if assigned == input {
                    return Dialog::Conflict { button, conflict: i };
                }
            },
            None => {},
        }
        i = i + 1;
    }
    let field = buttons[button].field;
    buttons.set(button, InputButton { field, input: Some(input) });
    Dialog::Closed
}

/// The buttons after a replacement: `conflict` gives its input to `button`.
pub open spec fn replaced(buttons: Seq<InputButton>, button: int, conflict: int) -> Seq<
    InputButton,
> {
    let input = buttons[conflict].input;
    buttons.update(conflict, InputButton { input: None, ..buttons[conflict] }).update(
        button,
        InputButton { input, ..buttons[button] },
    )
}

/// Settles a conflict for the new binding: the button that had the input
/// loses it, and the button that was being bound gets it.
pub fn replace_binding(buttons: &mut Vec<InputButton>, button: usize, conflict: usize)
    requires
        button < old(buttons)@.len(),
        conflict < old(buttons)@.len(),
    ensures
        final(buttons)@ == replaced(old(buttons)@, button as int, conflict as int),
{
    let input = buttons[conflict].input;
    let conflict_field = buttons[conflict].field;
    buttons.set(conflict, InputButton { field: conflict_field, input: None });
    let field = buttons[button].field;
    buttons.set(button, InputButton { field, input });
}

/// The inputs that the buttons assign to `field`, in the order of the buttons.
pub open spec fn bound_to(buttons: Seq<InputButton>, field: SettingsField) -> Seq<Input>
    decreases buttons.len(),
{
    if buttons.len() == 0 {
        Seq::empty()
    } else {
        let rest = bound_to(buttons.drop_last(), field);
        if buttons.last().field == field && buttons.last().input is Some {
            rest.push(buttons.last().input->0)
        } else {
            rest
        }
    }
}

/// Whether `keybind` holds exactly what `buttons` assign. The attack has no
/// row in the editor, and is left without input.
pub open spec fn holds(keybind: &Keybind, buttons: Seq<InputButton>) -> bool {
    &&& keybind.forward@ == bound_to(buttons, SettingsField::Forward)
    &&& keybind.left@ == bound_to(buttons, SettingsField::Left)
    &&& keybind.backward@ == bound_to(buttons, SettingsField::Backward)
    &&& keybind.right@ == bound_to(buttons, SettingsField::Right)
    &&& keybind.jump@ == bound_to(buttons, SettingsField::Jump)
    &&& keybind.crouch@ == bound_to(buttons, SettingsField::Crouch)
    &&& keybind.dash@ == bound_to(buttons, SettingsField::Dash)
    &&& keybind.sprint@ == bound_to(buttons, SettingsField::Sprint)
    &&& keybind.attack@ == Seq::<Input>::empty()
}

/// Writes the inputs of the buttons into the key bindings, replacing what was
/// bound before.
pub fn apply(buttons: &Vec<InputButton>, keybind: &mut Keybind)
    ensures
        holds(final(keybind), buttons@),
{
    keybind.clear();
    let mut i: usize = 0;
    proof {
        assert(buttons@.take(0) =~= Seq::<InputButton>::empty());
        assert(keybind.forward@ =~= Seq::<Input>::empty());
        assert(keybind.left@ =~= Seq::<Input>::empty());
        assert(keybind.backward@ =~= Seq::<Input>::empty());
        assert(keybind.right@ =~= Seq::<Input>::empty());
        assert(keybind.jump@ =~= Seq::<Input>::empty());
        assert(keybind.crouch@ =~= Seq::<Input>::empty());
        assert(keybind.dash@ =~= Seq::<Input>::empty());
        assert(keybind.sprint@ =~= Seq::<Input>::empty());
        assert(keybind.attack@ =~= Seq::<Input>::empty());
    }
    while i < buttons.len()
        invariant
            i <= buttons.len(),
            holds(keybind, buttons@.take(i as int)),
        decreases buttons.len() - i,
    {
        let button = buttons[i];
        proof {
            assert(buttons@.take(i + 1).drop_last() =~= buttons@.take(i as int));
            assert(buttons@.take(i + 1).last() == button);
        }
        match button.input {
            Some(input) => {
                match button.field {
                    SettingsField::Forward => keybind.forward.push(input),
                    SettingsField::Left => keybind.left.push(input),
                    SettingsField::Backward => keybind.backward.push(input),
                    SettingsField::Right => keybind.right.push(input),
                    SettingsField::Jump => keybind.jump.push(input),
                    SettingsField::Crouch => keybind.crouch.push(input),
                    SettingsField::Dash => keybind.dash.push(input),
                    SettingsField::Sprint => keybind.sprint.push(input),
                }
            },
            None => {},
        }
        i = i + 1;
    }
    proof {
        assert(buttons@.take(buttons.len() as int) =~= buttons@);
    }
}

} // verus!
