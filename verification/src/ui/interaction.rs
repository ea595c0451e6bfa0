//! How a widget looks while the pointer is off it, over it, or pressing it.

use vstd::prelude::*;
use crate::models::palette::{Color, DIM_BLUE, LIGHT_BLUE, TRANSPARENT, WHITEISH};
use crate::ui::layout::{BackgroundColor, BorderColor};

verus! {

/// What the pointer does to a widget.
#[derive(Clone, Copy, Debug, PartialEq, Eq, Structural)]
pub enum Interaction {
    /// The pointer is elsewhere.
    Idle,
    Hovered,
    Pressed,
}

/// The colours of a widget for each interaction: pairs of a background and a
/// border colour.
#[derive(Clone, Copy, Debug)]
pub struct UiInteraction {
    pub none: (Color, Color),
    pub hovered: (Color, Color),
    pub pressed: (Color, Color),
}

/// A widget was pressed.
#[derive(Clone, Copy, Debug, PartialEq, Eq, Structural)]
pub struct OnPress;

impl UiInteraction {
    /// The usual palette: a whitish border throughout, no background at rest,
    /// light blue under the pointer and dim blue when pressed.
    pub open spec fn usual() -> UiInteraction {
        UiInteraction {
            none: (Color { rgba: TRANSPARENT }, Color { rgba: WHITEISH }),
            hovered: (Color { rgba: LIGHT_BLUE }, Color { rgba: WHITEISH }),
            pressed: (Color { rgba: DIM_BLUE }, Color { rgba: WHITEISH }),
        }
    }

    /// The pair of colours that the palette has for `interaction`.
    pub open spec fn colors(&self, interaction: Interaction) -> (Color, Color) {
        match interaction {
            Interaction::Idle => self.none,
            Interaction::Hovered => self.hovered,
            Interaction::Pressed => self.pressed,
        }
    }

    /// One colour for background and border, whatever the pointer does.
    pub fn all(c: Color) -> (r: Self)
        ensures
            r == (UiInteraction { none: (c, c), hovered: (c, c), pressed: (c, c) }),
    {
        Self { none: (c, c), hovered: (c, c), pressed: (c, c) }
    }

    /// The same palette with other colours at rest.
    pub fn none(self, c: (Color, Color)) -> (r: Self)
        ensures
            r == (UiInteraction { none: c, ..self }),
    {
        let mut palette = self;
        palette.none = c;
        palette
    }

    /// The same palette with other colours when pressed.
    pub fn pressed(self, c: (Color, Color)) -> (r: Self)
        ensures
            r == (UiInteraction { pressed: c, ..self }),
    {
        let mut palette = self;
        palette.pressed = c;
        palette
    }

    /// The same palette with other colours under the pointer.
    pub fn hovered(self, c: (Color, Color)) -> (r: Self)
        ensures
            r == (UiInteraction { hovered: c, ..self }),
    {
        let mut palette = self;
        palette.hovered = c;
        palette
    }
}

impl Default for UiInteraction {
    fn default() -> (r: Self)
        ensures
            r == UiInteraction::usual(),
    {
        UiInteraction {
            none: (Color::rgba(TRANSPARENT), Color::rgba(WHITEISH)),
            hovered: (Color::rgba(LIGHT_BLUE), Color::rgba(WHITEISH)),
            pressed: (Color::rgba(DIM_BLUE), Color::rgba(WHITEISH)),
        }
    }
}

/// The background and border that a widget with `palette` takes on
/// `interaction`.
pub fn apply_interaction_palette(interaction: Interaction, palette: &UiInteraction) -> (r: (
    BackgroundColor,
    BorderColor,
))
    ensures
        r.0 == BackgroundColor(palette.colors(interaction).0),
        r.1 == BorderColor(palette.colors(interaction).1),
{
    let (bg, border) = match interaction {
        Interaction::Idle => palette.none,
        Interaction::Hovered => palette.hovered,
        Interaction::Pressed => palette.pressed,
    };
    (BackgroundColor(bg), BorderColor(border))
}

/// Whether a change of interaction is a press, which the widget has to announce.
pub fn trigger_on_press(interaction: Interaction) -> (r: Option<OnPress>)
    ensures
        r == (if interaction == Interaction::Pressed {
            Some(OnPress)
        } else {
            None
        }),
{
    match interaction {
        Interaction::Pressed => Some(OnPress),
        _ => None,
    }
}

} // verus!
