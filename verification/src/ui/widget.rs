//! Common widgets, described by what the engine is to spawn for them.

use vstd::prelude::*;
use crate::ui::interaction::UiInteraction;
use crate::ui::layout::{
    Alignment,
    BackgroundColor,
    BorderColor,
    BorderRadius,
    FlexDirection,
    Node,
    PositionType,
    UiRect,
    Val,
};
use crate::ui::opts::{ImageWidgetBundle, Opts, TextContent, WidgetContent};

verus! {

/// What kind of widget an entity is.
#[derive(Clone, Copy, Debug, PartialEq, Eq, Structural)]
pub enum WidgetKind {
    /// Nothing but layout.
    Plain,
    /// Shows something and takes no input.
    Label,
    /// Can be pressed.
    Button,
}

/// An entity of the interface: its components, and the entities below it.
#[derive(Debug)]
pub struct Widget {
    pub name: String,
    pub kind: WidgetKind,
    pub node: Option<Node>,
    pub border_radius: Option<BorderRadius>,
    pub border_color: Option<BorderColor>,
    pub background: Option<BackgroundColor>,
    pub palette: Option<UiInteraction>,
    pub text: Option<TextContent>,
    pub image: Option<ImageWidgetBundle>,
    /// Whether the pointer can pick the entity, or passes through it.
    pub pickable: bool,
    pub children: Vec<Widget>,
}

impl Widget {
    /// Whether the widget has nothing but a name, a kind and whether it can
    /// be picked.
    pub open spec fn is_bare(&self, name: Seq<char>, kind: WidgetKind, pickable: bool) -> bool {
        &&& self.name@ == name
        &&& self.kind == kind
        &&& self.pickable == pickable
        &&& self.node is None
        &&& self.border_radius is None
        &&& self.border_color is None
        &&& self.background is None
        &&& self.palette is None
        &&& self.text is None
        &&& self.image is None
        &&& self.children@.len() == 0
    }

    fn bare(name: &str, kind: WidgetKind, pickable: bool) -> (r: Widget)
        ensures
            r.is_bare(name@, kind, pickable),
    {
        Widget {
            name: name.to_owned(),
            kind,
            node: None,
            border_radius: None,
            border_color: None,
            background: None,
            palette: None,
            text: None,
            image: None,
            pickable,
            children: Vec::new(),
        }
    }
}

/// The layout of a root: it fills the window and centres its content in a
/// column, with gaps of five percent of the viewport's height.
pub open spec fn root_node() -> Node {
    Node {
        width: Val::Percent(100_000),
        height: Val::Percent(100_000),
        position_type: PositionType::Absolute,
        flex_direction: FlexDirection::Column,
        justify_content: Alignment::Center,
        align_items: Alignment::Center,
        row_gap: Val::Vh(5_000),
        ..Node::plain()
    }
}

/// A root node that fills the window and centers its content. It does not
/// block the pointer for other roots.
pub fn ui_root(name: &str) -> (r: Widget)
    ensures
        r.name@ == name@,
        r.kind == WidgetKind::Plain,
        r.node == Some(root_node()),
        !r.pickable,
        r.border_radius is None && r.border_color is None && r.background is None,
        r.palette is None && r.text is None && r.image is None,
        r.children@.len() == 0,
{
    let plain = Node::default();
    let mut widget = Widget::bare(name, WidgetKind::Plain, false);
    widget.node = Some(
        Node {
            width: Val::Percent(100_000),
            height: Val::Percent(100_000),
            position_type: PositionType::Absolute,
            flex_direction: FlexDirection::Column,
            justify_content: Alignment::Center,
            align_items: Alignment::Center,
            row_gap: Val::Vh(5_000),
            ..plain
        },
    );
    widget
}

/// A picture, laid out and rounded as the options say. The options have to
/// show a picture.
pub fn icon(opts: Opts) -> (r: Widget)
    requires
        opts.inner is Image,
    ensures
        r.name@ == "Icon"@,
        r.kind == WidgetKind::Label,
        r.node == Some(opts.node),
        r.border_radius == Some(opts.border_radius),
        r.image == Some(
            ImageWidgetBundle { image: opts.inner->Image_0, node: Opts::image_node() },
        ),
        !r.pickable,
        r.border_color is None && r.background is None && r.palette is None && r.text is None,
        r.children@.len() == 0,
{
    let mut widget = Widget::bare("Icon", WidgetKind::Label, false);
    widget.node = Some(opts.node);
    widget.border_radius = Some(opts.border_radius);
    widget.image = Some(opts.into_image_bundle());
    widget
}

/// A text, laid out, rounded and backed as the options say. The options have
/// to show a text.
pub fn label(opts: Opts) -> (r: Widget)
    requires
        opts.inner is Text,
    ensures
        r.name@ == "Label"@,
        r.kind == WidgetKind::Label,
        r.node == Some(opts.node),
        r.border_radius == Some(opts.border_radius),
        r.text == Some(opts.inner->Text_0),
        r.background == Some(opts.bg_color),
        !r.pickable,
        r.border_color is None && r.palette is None && r.image is None,
        r.children@.len() == 0,
{
    let mut widget = Widget::bare("Label", WidgetKind::Label, false);
    widget.node = Some(opts.node);
    widget.border_radius = Some(opts.border_radius);
    let (text, background) = opts.into_text_bundle();
    widget.text = Some(text);
    widget.background = Some(background);
    widget
}

/// A simple header label: the text of the options and its background, with
/// no layout of its own. The options have to show a text.
pub fn header(opts: Opts) -> (r: Widget)
    requires
        opts.inner is Text,
    ensures
        r.name@ == "Header"@,
        r.kind == WidgetKind::Label,
        r.text == Some(opts.inner->Text_0),
        r.background == Some(opts.bg_color),
        r.pickable,
        r.node is None && r.border_radius is None && r.border_color is None,
        r.palette is None && r.image is None,
        r.children@.len() == 0,
{
    let mut widget = Widget::bare("Header", WidgetKind::Label, true);
    let (text, background) = opts.into_text_bundle();
    widget.text = Some(text);
    widget.background = Some(background);
    widget
}

/// Whether `w` is what a button shows: the picture or the text of `opts`.
pub open spec fn is_button_content(w: &Widget, opts: &Opts) -> bool {
    &&& w.kind == WidgetKind::Plain
    &&& w.pickable
    &&& w.node is None && w.border_radius is None && w.border_color is None && w.palette is None
    &&& w.children@.len() == 0
    &&& match opts.inner {
        WidgetContent::Image(image) => w.image == Some(
            ImageWidgetBundle { image, node: Opts::image_node() },
        ) && w.text is None && w.background is None,
        WidgetContent::Text(text) => w.text == Some(text) && w.background == Some(opts.bg_color)
            && w.image is None,
    }
}

/// Whether `w` is the button built from `opts`: an entity named "Button"
/// with a plain layout, and below it the button proper, laid out, rounded,
/// bordered and coloured as the options say, with its content below it.
pub open spec fn is_button(w: &Widget, opts: &Opts) -> bool {
    &&& w.name@ == "Button"@
    &&& w.kind == WidgetKind::Plain
    &&& w.node == Some(Node::plain())
    &&& w.pickable
    &&& w.border_radius is None && w.border_color is None && w.background is None
    &&& w.palette is None && w.text is None && w.image is None
    &&& w.children@.len() == 1
    &&& w.children@[0].kind == WidgetKind::Button
    &&& w.children@[0].pickable
    &&& w.children@[0].node == Some(opts.node)
    &&& w.children@[0].border_radius == Some(opts.border_radius)
    &&& w.children@[0].border_color == Some(opts.border_color)
    &&& w.children@[0].palette == Some(opts.ui_palette)
    &&& w.children@[0].background is None && w.children@[0].text is None
    &&& w.children@[0].image is None
    &&& w.children@[0].children@.len() == 1
    &&& is_button_content(&w.children@[0].children@[0], opts)
}

/// A simple button that shows what the options show. What a press does is
/// for the caller to attach to the button proper.
pub fn btn(opts: Opts) -> (r: Widget)
    ensures
        is_button(&r, &opts),
{
    let Opts { inner, border_radius, border_color, bg_color, node, ui_palette } = opts;
    let mut content = Widget::bare("", WidgetKind::Plain, true);
    match inner {
        WidgetContent::Image(image) => {
            let plain = Node::default();
            content.image = Some(
                ImageWidgetBundle {
                    image,
                    node: Node {
                        position_type: PositionType::Absolute,
                        width: Val::Percent(100_000),
                        height: Val::Percent(100_000),
                        align_items: Alignment::Center,
                        justify_content: Alignment::Center,
                        ..plain
                    },
                },
            );
        },
        WidgetContent::Text(text) => {
            content.text = Some(text);
            content.background = Some(bg_color);
        },
    }
    let mut button = Widget::bare("", WidgetKind::Button, true);
    button.node = Some(node);
    button.border_radius = Some(border_radius);
    button.border_color = Some(border_color);
    button.palette = Some(ui_palette);
    button.children.push(content);
    let mut root = Widget::bare("Button", WidgetKind::Plain, true);
    root.node = Some(Node::default());
    root.children.push(button);
    root
}

/// The options of a wide button: at least thirty percent of the viewport
/// wide, well padded, its content centred.
pub open spec fn big(opts: Opts) -> Opts {
    Opts {
        node: Node {
            min_width: Val::Vw(30_000),
            padding: UiRect {
                left: Val::Vw(8_000),
                right: Val::Vw(8_000),
                top: Val::Vh(2_000),
                bottom: Val::Vh(2_000),
            },
            align_items: Alignment::Center,
            justify_content: Alignment::Center,
            ..opts.node
        },
        ..opts
    }
}

/// A regular wide button.
pub fn btn_big(opts: Opts) -> (r: Widget)
    ensures
        is_button(&r, &big(opts)),
{
    let new_node = Node {
        min_width: Val::Vw(30_000),
        padding: UiRect::axes(Val::Vw(8_000), Val::Vh(2_000)),
        align_items: Alignment::Center,
        justify_content: Alignment::Center,
        ..opts.node
    };
    let opts = opts.node(new_node);
    btn(opts)
}

/// The options of a small button: no margin, no padding, its content
/// centred, its corners rounded by seven pixels.
pub open spec fn small(opts: Opts) -> Opts {
    let none = UiRect { left: Val::Px(0), right: Val::Px(0), top: Val::Px(0), bottom: Val::Px(0) };
    Opts {
        node: Node {
            margin: none,
            padding: none,
            align_items: Alignment::Center,
            justify_content: Alignment::Center,
            ..opts.node
        },
        border_radius: BorderRadius {
            top_left: Val::Px(7_000),
            top_right: Val::Px(7_000),
            bottom_left: Val::Px(7_000),
            bottom_right: Val::Px(7_000),
        },
        ..opts
    }
}

/// A small square button.
pub fn btn_small(opts: Opts) -> (r: Widget)
    ensures
        is_button(&r, &small(opts)),
{
    let new_node = Node {
        margin: UiRect::zero(),
        padding: UiRect::zero(),
        align_items: Alignment::Center,
        justify_content: Alignment::Center,
        ..opts.node
    };
    let mut opts = opts.node(new_node);
    opts.border_radius = BorderRadius::all(Val::Px(7_000));
    btn(opts)
}

} // verus!
