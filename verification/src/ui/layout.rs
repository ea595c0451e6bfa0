//! Lengths, rectangles and the layout of a node. Numbers are in thousandths.

use vstd::prelude::*;
use crate::models::palette::Color;

verus! {

/// A length of the interface.
#[derive(Clone, Copy, Debug, PartialEq, Eq, Structural)]
pub enum Val {
    Auto,
    /// Pixels.
    Px(i32),
    /// A share of the parent, in percent.
    Percent(i32),
    /// A share of the viewport's width, in percent.
    Vw(i32),
    /// A share of the viewport's height, in percent.
    Vh(i32),
    VMin(i32),
    VMax(i32),
}

/// A length for each side of a rectangle.
#[derive(Clone, Copy, Debug, PartialEq, Eq, Structural)]
pub struct UiRect {
    pub left: Val,
    pub right: Val,
    pub top: Val,
    pub bottom: Val,
}

impl UiRect {
    /// The same length on every side.
    pub fn all(value: Val) -> (r: UiRect)
        ensures
            r == (UiRect { left: value, right: value, top: value, bottom: value }),
    {
        UiRect { left: value, right: value, top: value, bottom: value }
    }

    /// `value` to the left and to the right, nothing above and below.
    pub fn horizontal(value: Val) -> (r: UiRect)
        ensures
            r == (UiRect { left: value, right: value, top: Val::Px(0), bottom: Val::Px(0) }),
    {
        UiRect { left: value, right: value, top: Val::Px(0), bottom: Val::Px(0) }
    }

    /// `horizontal` to the left and to the right, `vertical` above and below.
    pub fn axes(horizontal: Val, vertical: Val) -> (r: UiRect)
        ensures
            r == (UiRect { left: horizontal, right: horizontal, top: vertical, bottom: vertical }),
    {
        UiRect { left: horizontal, right: horizontal, top: vertical, bottom: vertical }
    }

    /// Nothing on any side.
    pub fn zero() -> (r: UiRect)
        ensures
            r == (UiRect {
                left: Val::Px(0),
                right: Val::Px(0),
                top: Val::Px(0),
                bottom: Val::Px(0),
            }),
    {
        UiRect::all(Val::Px(0))
    }
}

/// How round each corner of a node is.
#[derive(Clone, Copy, Debug, PartialEq, Eq, Structural)]
pub struct BorderRadius {
    pub top_left: Val,
    pub top_right: Val,
    pub bottom_left: Val,
    pub bottom_right: Val,
}

impl BorderRadius {
    /// The same radius at every corner.
    pub fn all(radius: Val) -> (r: BorderRadius)
        ensures
            r == (BorderRadius {
                top_left: radius,
                top_right: radius,
                bottom_left: radius,
                bottom_right: radius,
            }),
    {
        BorderRadius {
            top_left: radius,
            top_right: radius,
            bottom_left: radius,
            bottom_right: radius,
        }
    }
}

#[derive(Clone, Copy, Debug, PartialEq, Eq, Structural)]
pub struct BorderColor(pub Color);

#[derive(Clone, Copy, Debug, PartialEq, Eq, Structural)]
pub struct BackgroundColor(pub Color);

#[derive(Clone, Copy, Debug, PartialEq, Eq, Structural)]
pub struct TextColor(pub Color);

#[derive(Clone, Copy, Debug, PartialEq, Eq, Structural)]
pub enum Display {
    Flex,
    Grid,
    Block,
    /// Not laid out and not drawn.
    Hidden,
}

#[derive(Clone, Copy, Debug, PartialEq, Eq, Structural)]
pub enum PositionType {
    Relative,
    Absolute,
}

/// Along which axis the items of a node are laid out.
#[derive(Clone, Copy, Debug, PartialEq, Eq, Structural)]
pub enum FlexDirection {
    Row,
    Column,
}

/// Where the items of a node go along an axis.
#[derive(Clone, Copy, Debug, PartialEq, Eq, Structural)]
pub enum Alignment {
    Default,
    Start,
    End,
    Center,
    Stretch,
    SpaceBetween,
    SpaceEvenly,
    SpaceAround,
}

/// The layout of a node.
#[derive(Clone, Copy, Debug, PartialEq, Eq, Structural)]
pub struct Node {
    pub display: Display,
    pub position_type: PositionType,
    pub flex_direction: FlexDirection,
    pub width: Val,
    pub height: Val,
    pub min_width: Val,
    pub row_gap: Val,
    pub margin: UiRect,
    pub padding: UiRect,
    pub border: UiRect,
    pub align_items: Alignment,
    pub align_content: Alignment,
    pub justify_items: Alignment,
    pub justify_content: Alignment,
}

impl Node {
    /// A node that flows with its siblings, as large as its content, with
    /// nothing around it.
    pub open spec fn plain() -> Node {
        let none = UiRect { left: Val::Px(0), right: Val::Px(0), top: Val::Px(0), bottom: Val::Px(0) };
        Node {
            display: Display::Flex,
            position_type: PositionType::Relative,
            flex_direction: FlexDirection::Row,
            width: Val::Auto,
            height: Val::Auto,
            min_width: Val::Auto,
            row_gap: Val::Px(0),
            margin: none,
            padding: none,
            border: none,
            align_items: Alignment::Default,
            align_content: Alignment::Default,
            justify_items: Alignment::Default,
            justify_content: Alignment::Default,
        }
    }
}

impl Default for Node {
    fn default() -> (r: Self)
        ensures
            r == Node::plain(),
    {
        Node {
            display: Display::Flex,
            position_type: PositionType::Relative,
            flex_direction: FlexDirection::Row,
            width: Val::Auto,
            height: Val::Auto,
            min_width: Val::Auto,
            row_gap: Val::Px(0),
            margin: UiRect::zero(),
            padding: UiRect::zero(),
            border: UiRect::zero(),
            align_items: Alignment::Default,
            align_content: Alignment::Default,
            justify_items: Alignment::Default,
            justify_content: Alignment::Default,
        }
    }
}

} // verus!
