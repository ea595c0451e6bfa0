//! The options from which a widget is built.

use vstd::prelude::*;
use crate::models::palette::{Color, TRANSPARENT, WHITEISH};
use crate::ui::interaction::UiInteraction;
use crate::ui::layout::{
    Alignment,
    BackgroundColor,
    BorderColor,
    BorderRadius,
    Display,
    Node,
    PositionType,
    TextColor,
    UiRect,
    Val,
};

verus! {

/// The radius of a widget's corners unless another is asked for: 15 pixels.
pub const BORDER_RADIUS: i32 = 15_000;

/// The size of a widget's text unless another is asked for: 24 pixels.
pub const FONT_SIZE: u32 = 24_000;

/// A picture to show, by the handle of its image.
#[derive(Clone, Copy, Debug, PartialEq, Eq, Structural)]
pub struct ImageNode {
    pub image: u64,
}

impl ImageNode {
    pub fn new(image: u64) -> (r: ImageNode)
        ensures
            r == (ImageNode { image }),
    {
        ImageNode { image }
    }
}

/// The font of a text, by the handle of its face, and its size.
#[derive(Clone, Copy, Debug, PartialEq, Eq, Structural)]
pub struct TextFont {
    pub font: u64,
    pub font_size: u32,
}

impl TextFont {
    /// The default face at the given size.
    pub fn from_font_size(font_size: u32) -> (r: TextFont)
        ensures
            r == (TextFont { font: 0, font_size }),
    {
        TextFont { font: 0, font_size }
    }
}

#[derive(Clone, Copy, Debug, PartialEq, Eq, Structural)]
pub enum JustifyText {
    Left,
    Center,
    Right,
    Justified,
}

#[derive(Clone, Copy, Debug, PartialEq, Eq, Structural)]
pub struct TextLayout {
    pub justify: JustifyText,
}

/// A text with all that decides how it is drawn.
#[derive(Clone, Debug)]
pub struct TextContent {
    pub text: String,
    pub color: TextColor,
    pub layout: TextLayout,
    pub font: TextFont,
}

impl TextContent {
    /// Whether this is `text` drawn the usual way: whitish, centred, in the
    /// default face and size.
    pub open spec fn is_plain(&self, text: Seq<char>) -> bool {
        &&& self.text@ == text
        &&& self.color == TextColor(Color { rgba: WHITEISH })
        &&& self.layout == TextLayout { justify: JustifyText::Center }
        &&& self.font == TextFont { font: 0, font_size: FONT_SIZE }
    }

    /// `text` drawn the usual way.
    pub fn from_text(text: &str) -> (r: Self)
        ensures
            r.is_plain(text@),
    {
        TextContent {
            text: text.to_owned(),
            color: TextColor(Color::rgba(WHITEISH)),
            layout: TextLayout { justify: JustifyText::Center },
            font: TextFont::from_font_size(FONT_SIZE),
        }
    }
}

impl Default for TextContent {
    fn default() -> (r: Self)
        ensures
            r.is_plain(Seq::empty()),
    {
        TextContent {
            text: String::new(),
            color: TextColor(Color::rgba(WHITEISH)),
            layout: TextLayout { justify: JustifyText::Center },
            font: TextFont::from_font_size(FONT_SIZE),
        }
    }
}

/// What a widget shows: a picture or a text.
#[derive(Clone, Debug)]
pub enum WidgetContent {
    Image(ImageNode),
    Text(TextContent),
}

impl WidgetContent {
    /// The picture with the given image handle.
    pub fn from_image(image: u64) -> (r: Self)
        ensures
            r == WidgetContent::Image(ImageNode { image }),
    {
        WidgetContent::Image(ImageNode::new(image))
    }

    /// `text` drawn the usual way.
    pub fn from_text(text: &str) -> (r: Self)
        ensures
            r matches WidgetContent::Text(t) && t.is_plain(text@),
    {
        WidgetContent::Text(TextContent::from_text(text))
    }
}

/// A picture that fills its parent.
#[derive(Clone, Copy, Debug, PartialEq, Eq, Structural)]
pub struct ImageWidgetBundle {
    pub node: Node,
    pub image: ImageNode,
}

/// The options of a widget: what it shows and how it is laid out and coloured.
/// Each option is set by a method that hands the options on.
#[derive(Clone, Debug)]
pub struct Opts {
    pub inner: WidgetContent,
    pub border_radius: BorderRadius,
    pub border_color: BorderColor,
    pub bg_color: BackgroundColor,
    pub node: Node,
    pub ui_palette: UiInteraction,
}

impl Opts {
    /// The layout that every widget starts from: everything centred, a border
    /// of two pixels, and three percent of the viewport's width as padding to
    /// the left and to the right.
    pub open spec fn initial_node() -> Node {
        Node {
            align_items: Alignment::Center,
            align_content: Alignment::Center,
            justify_items: Alignment::Center,
            justify_content: Alignment::Center,
            border: UiRect {
                left: Val::Px(2000),
                right: Val::Px(2000),
                top: Val::Px(2000),
                bottom: Val::Px(2000),
            },
            padding: UiRect {
                left: Val::Vw(3000),
                right: Val::Vw(3000),
                top: Val::Px(0),
                bottom: Val::Px(0),
            },
            ..Node::plain()
        }
    }

    /// The layout of a picture that fills its parent.
    pub open spec fn image_node() -> Node {
        Node {
            position_type: PositionType::Absolute,
            width: Val::Percent(100_000),
            height: Val::Percent(100_000),
            align_items: Alignment::Center,
            justify_content: Alignment::Center,
            ..Node::plain()
        }
    }

    /// Whether these are the options that a widget showing `c` starts with.
    pub open spec fn is_initial(&self, c: WidgetContent) -> bool {
        &&& self.inner == c
        &&& self.node == Self::initial_node()
        &&& self.ui_palette == UiInteraction::usual()
        &&& self.bg_color == BackgroundColor(Color { rgba: TRANSPARENT })
        &&& self.border_color == BorderColor(Color { rgba: WHITEISH })
        &&& self.border_radius == BorderRadius {
            top_left: Val::Px(BORDER_RADIUS),
            top_right: Val::Px(BORDER_RADIUS),
            bottom_left: Val::Px(BORDER_RADIUS),
            bottom_right: Val::Px(BORDER_RADIUS),
        }
    }

    /// Whether `self` and `other` agree on everything but what they show.
    pub open spec fn same_frame(&self, other: &Opts) -> bool {
        &&& self.border_radius == other.border_radius
        &&& self.border_color == other.border_color
        &&& self.bg_color == other.bg_color
        &&& self.node == other.node
        &&& self.ui_palette == other.ui_palette
    }

    /// The options that a widget showing `c` starts with.
    pub fn new(c: WidgetContent) -> (r: Self)
        ensures
            r.is_initial(c),
    {
        let plain = Node::default();
        Self {
            inner: c,
            node: Node {
                align_items: Alignment::Center,
                align_content: Alignment::Center,
                justify_items: Alignment::Center,
                justify_content: Alignment::Center,
                border: UiRect::all(Val::Px(2000)),
                padding: UiRect::horizontal(Val::Vw(3000)),
                ..plain
            },
            ui_palette: UiInteraction::default(),
            bg_color: BackgroundColor(Color::rgba(TRANSPARENT)),
            border_color: BorderColor(Color::rgba(WHITEISH)),
            border_radius: BorderRadius::all(Val::Px(BORDER_RADIUS)),
        }
    }

    /// Shows the picture with the handle `s` instead of what was shown.
    pub fn image(self, s: u64) -> (r: Self)
        ensures
            r.inner == WidgetContent::Image(ImageNode { image: s }),
            r.same_frame(&self),
    {
        let mut opts = self;
        opts.inner = WidgetContent::Image(ImageNode::new(s));
        opts
    }

    /// Shows `text`. A text that was shown before keeps its colour, layout
    /// and font; a picture gives way to the text drawn the usual way.
    pub fn text(self, text: &str) -> (r: Self)
        ensures
            r.same_frame(&self),
            r.inner matches WidgetContent::Text(t) && t.text@ == text@ && (match self.inner {
                WidgetContent::Text(before) => t.color == before.color && t.layout == before.layout
                    && t.font == before.font,
                WidgetContent::Image(_) => t.is_plain(text@),
            }),
    {
        let Opts { inner, border_radius, border_color, bg_color, node, ui_palette } = self;
        let inner = match inner {
            WidgetContent::Text(t) => WidgetContent::Text(
                TextContent { text: text.to_owned(), color: t.color, layout: t.layout, font: t.font },
            ),
            WidgetContent::Image(_) => WidgetContent::from_text(text),
        };
        Opts { inner, border_radius, border_color, bg_color, node, ui_palette }
    }

    /// Sets the font of the text. A picture has none, and stays as it is.
    pub fn font(self, font: TextFont) -> (r: Self)
        ensures
            r.same_frame(&self),
            match self.inner {
                WidgetContent::Text(before) => r.inner matches WidgetContent::Text(t) && t.text
                    == before.text && t.color == before.color && t.layout == before.layout
                    && t.font == font,
                WidgetContent::Image(_) => r.inner == self.inner,
            },
    {
        let Opts { inner, border_radius, border_color, bg_color, node, ui_palette } = self;
        let inner = match inner {
            WidgetContent::Text(t) => WidgetContent::Text(
                TextContent { text: t.text, color: t.color, layout: t.layout, font },
            ),
            WidgetContent::Image(i) => WidgetContent::Image(i),
        };
        Opts { inner, border_radius, border_color, bg_color, node, ui_palette }
    }

    /// Sets the size of the text. A picture has none, and stays as it is.
    pub fn font_size(self, s: u32) -> (r: Self)
        ensures
            r.same_frame(&self),
            match self.inner {
                WidgetContent::Text(before) => r.inner matches WidgetContent::Text(t) && t.text
                    == before.text && t.color == before.color && t.layout == before.layout
                    && t.font == (TextFont { font_size: s, ..before.font }),
                WidgetContent::Image(_) => r.inner == self.inner,
            },
    {
        let Opts { inner, border_radius, border_color, bg_color, node, ui_palette } = self;
        let inner = match inner {
            WidgetContent::Text(t) => WidgetContent::Text(
                TextContent {
                    text: t.text,
                    color: t.color,
                    layout: t.layout,
                    font: TextFont { font: t.font.font, font_size: s },
                },
            ),
            WidgetContent::Image(i) => WidgetContent::Image(i),
        };
        Opts { inner, border_radius, border_color, bg_color, node, ui_palette }
    }

    /// Sets the colour of the text. A picture has none, and stays as it is.
    pub fn color(self, c: Color) -> (r: Self)
        ensures
            r.same_frame(&self),
            match self.inner {
                WidgetContent::Text(before) => r.inner matches WidgetContent::Text(t) && t.text
                    == before.text && t.color == TextColor(c) && t.layout == before.layout
                    && t.font == before.font,
                WidgetContent::Image(_) => r.inner == self.inner,
            },
    {
        let Opts { inner, border_radius, border_color, bg_color, node, ui_palette } = self;
        let inner = match inner {
            WidgetContent::Text(t) => WidgetContent::Text(
                TextContent { text: t.text, color: TextColor(c), layout: t.layout, font: t.font },
            ),
            WidgetContent::Image(i) => WidgetContent::Image(i),
        };
        Opts { inner, border_radius, border_color, bg_color, node, ui_palette }
    }

    pub fn bg_color(self, color: Color) -> (r: Self)
        ensures
            r == (Opts { bg_color: BackgroundColor(color), ..self }),
    {
        let mut opts = self;
        opts.bg_color = BackgroundColor(color);
        opts
    }

    pub fn border_color(self, color: Color) -> (r: Self)
        ensures
            r == (Opts { border_color: BorderColor(color), ..self }),
    {
        let mut opts = self;
        opts.border_color = BorderColor(color);
        opts
    }

    /// Rounds every corner by `r`.
    pub fn border_radius(self, r: Val) -> (res: Self)
        ensures
            res == (Opts {
                border_radius: BorderRadius {
                    top_left: r,
                    top_right: r,
                    bottom_left: r,
                    bottom_right: r,
                },
                ..self
            }),
    {
        let mut opts = self;
        opts.border_radius = BorderRadius::all(r);
        opts
    }

    /// Replaces the whole layout.
    pub fn node(self, new: Node) -> (r: Self)
        ensures
            r == (Opts { node: new, ..self }),
    {
        let mut opts = self;
        opts.node = new;
        opts
    }

    pub fn border(self, b: UiRect) -> (r: Self)
        ensures
            r == (Opts { node: Node { border: b, ..self.node }, ..self }),
    {
        let mut opts = self;
        opts.node.border = b;
        opts
    }

    /// Takes the widget out of the layout until it is shown again.
    pub fn hidden(self) -> (r: Self)
        ensures
            r == (Opts { node: Node { display: Display::Hidden, ..self.node }, ..self }),
    {
        let mut opts = self;
        opts.node.display = Display::Hidden;
        opts
    }

    pub fn width(self, w: Val) -> (r: Self)
        ensures
            r == (Opts { node: Node { width: w, ..self.node }, ..self }),
    {
        let mut opts = self;
        opts.node.width = w;
        opts
    }

    pub fn height(self, h: Val) -> (r: Self)
        ensures
            r == (Opts { node: Node { height: h, ..self.node }, ..self }),
    {
        let mut opts = self;
        opts.node.height = h;
        opts
    }

    pub fn row_gap(self, g: Val) -> (r: Self)
        ensures
            r == (Opts { node: Node { row_gap: g, ..self.node }, ..self }),
    {
        let mut opts = self;
        opts.node.row_gap = g;
        opts
    }

    pub fn margin(self, m: UiRect) -> (r: Self)
        ensures
            r == (Opts { node: Node { margin: m, ..self.node }, ..self }),
    {
        let mut opts = self;
        opts.node.margin = m;
        opts
    }

    pub fn padding(self, p: UiRect) -> (r: Self)
        ensures
            r == (Opts { node: Node { padding: p, ..self.node }, ..self }),
    {
        let mut opts = self;
        opts.node.padding = p;
        opts
    }

    pub fn ui_palette(self, p: UiInteraction) -> (r: Self)
        ensures
            r == (Opts { ui_palette: p, ..self }),
    {
        let mut opts = self;
        opts.ui_palette = p;
        opts
    }

    /// The picture of these options, laid out to fill its parent. The options
    /// have to show a picture.
    pub fn into_image_bundle(self) -> (r: ImageWidgetBundle)
        requires
            self.inner is Image,
        ensures
            r == (ImageWidgetBundle { image: self.inner->Image_0, node: Opts::image_node() }),
    {
        let plain = Node::default();
        match self.inner {
            WidgetContent::Image(c) => ImageWidgetBundle {
                image: c,
                node: Node {
                    position_type: PositionType::Absolute,
                    width: Val::Percent(100_000),
                    height: Val::Percent(100_000),
                    align_items: Alignment::Center,
                    justify_content: Alignment::Center,
                    ..plain
                },
            },
            WidgetContent::Text(_) => ImageWidgetBundle { image: ImageNode { image: 0 }, node: plain },
        }
    }

    /// The text of these options with their background. The options have to
    /// show a text.
    pub fn into_text_bundle(self) -> (r: (TextContent, BackgroundColor))
        requires
            self.inner is Text,
        ensures
            r.0 == self.inner->Text_0,
            r.1 == self.bg_color,
    {
        let bg = self.bg_color;
        match self.inner {
            WidgetContent::Text(c) => (c, bg),
            WidgetContent::Image(_) => (TextContent::default(), bg),
        }
    }
}

impl Default for Opts {
    /// The options of a widget with an empty text.
    fn default() -> (r: Self)
        ensures
            r.inner matches WidgetContent::Text(t) && t.is_plain(Seq::empty()),
            r.node == Opts::initial_node(),
            r.ui_palette == UiInteraction::usual(),
            r.bg_color == BackgroundColor(Color { rgba: TRANSPARENT }),
            r.border_color == BorderColor(Color { rgba: WHITEISH }),
    {
        Opts::new(WidgetContent::Text(TextContent::default()))
    }
}

} // verus!
