use midgard::models::palette::{Color, DIM_BLUE, GREEN, LIGHT_BLUE, TRANSPARENT, WHITEISH};
use midgard::ui::interaction::{
    apply_interaction_palette, trigger_on_press, Interaction, OnPress, UiInteraction,
};
use midgard::ui::layout::{
    Alignment, BackgroundColor, BorderColor, BorderRadius, Display, Node, PositionType, TextColor,
    UiRect, Val,
};
use midgard::ui::opts::{
    ImageNode, ImageWidgetBundle, JustifyText, Opts, TextContent, TextFont, TextLayout,
    WidgetContent, BORDER_RADIUS, FONT_SIZE,
};

fn c(rgba: u32) -> Color {
    Color { rgba }
}

fn text_of(opts: &Opts) -> &TextContent {
    match &opts.inner {
        WidgetContent::Text(t) => t,
        WidgetContent::Image(_) => panic!("not a text"),
    }
}

#[test]
fn interaction_palette_builders() {
    let p = UiInteraction::all(c(7));
    assert_eq!((p.none, p.hovered, p.pressed), ((c(7), c(7)), (c(7), c(7)), (c(7), c(7))));
    let p = p.none((c(1), c(2)));
    assert_eq!((p.none, p.hovered, p.pressed), ((c(1), c(2)), (c(7), c(7)), (c(7), c(7))));
    let p = p.pressed((c(3), c(4)));
    assert_eq!((p.none, p.hovered, p.pressed), ((c(1), c(2)), (c(7), c(7)), (c(3), c(4))));
    let p = p.hovered((c(5), c(6)));
    assert_eq!((p.none, p.hovered, p.pressed), ((c(1), c(2)), (c(5), c(6)), (c(3), c(4))));
}

#[test]
fn usual_palette() {
    let p = UiInteraction::default();
    assert_eq!(p.none, (c(TRANSPARENT), c(WHITEISH)));
    assert_eq!(p.hovered, (c(LIGHT_BLUE), c(WHITEISH)));
    assert_eq!(p.pressed, (c(DIM_BLUE), c(WHITEISH)));
}

#[test]
fn palette_is_applied_by_interaction() {
    let p = UiInteraction::all(c(9)).hovered((c(1), c(2))).pressed((c(3), c(4)));
    assert_eq!(
        apply_interaction_palette(Interaction::Idle, &p),
        (BackgroundColor(c(9)), BorderColor(c(9)))
    );
    assert_eq!(
        apply_interaction_palette(Interaction::Hovered, &p),
        (BackgroundColor(c(1)), BorderColor(c(2)))
    );
    assert_eq!(
        apply_interaction_palette(Interaction::Pressed, &p),
        (BackgroundColor(c(3)), BorderColor(c(4)))
    );
    assert_eq!(trigger_on_press(Interaction::Pressed), Some(OnPress));
    assert_eq!(trigger_on_press(Interaction::Hovered), None);
    assert_eq!(trigger_on_press(Interaction::Idle), None);
}

#[test]
fn rects() {
    let v = Val::Px(2_000);
    assert_eq!(UiRect::all(v), UiRect { left: v, right: v, top: v, bottom: v });
    assert_eq!(
        UiRect::horizontal(v),
        UiRect { left: v, right: v, top: Val::Px(0), bottom: Val::Px(0) }
    );
    assert_eq!(
        UiRect::axes(v, Val::Vh(1)),
        UiRect { left: v, right: v, top: Val::Vh(1), bottom: Val::Vh(1) }
    );
    assert_eq!(UiRect::zero(), UiRect::all(Val::Px(0)));
    assert_eq!(BorderRadius::all(v).bottom_left, v);
}

#[test]
fn new_options() {
    let opts = Opts::new(WidgetContent::from_text("Play"));
    let t = text_of(&opts);
    assert_eq!(t.text, "Play");
    assert_eq!(t.color, TextColor(c(WHITEISH)));
    assert_eq!(t.layout, TextLayout { justify: JustifyText::Center });
    assert_eq!(t.font, TextFont { font: 0, font_size: FONT_SIZE });
    assert_eq!(FONT_SIZE, 24_000);
    assert_eq!(BORDER_RADIUS, 15_000);
    assert_eq!(opts.border_radius, BorderRadius::all(Val::Px(15_000)));
    assert_eq!(opts.border_color, BorderColor(c(WHITEISH)));
    assert_eq!(opts.bg_color, BackgroundColor(c(TRANSPARENT)));
    assert_eq!(opts.ui_palette.hovered, (c(LIGHT_BLUE), c(WHITEISH)));
    assert_eq!(
        opts.node,
        Node {
            align_items: Alignment::Center,
            align_content: Alignment::Center,
            justify_items: Alignment::Center,
            justify_content: Alignment::Center,
            border: UiRect::all(Val::Px(2_000)),
            padding: UiRect::horizontal(Val::Vw(3_000)),
            ..Node::default()
        }
    );
    assert_eq!(text_of(&Opts::default()).text, "");
    assert_eq!(Opts::default().node, opts.node);
}

#[test]
fn plain_node() {
    let n = Node::default();
    assert_eq!(n.display, Display::Flex);
    assert_eq!(n.position_type, PositionType::Relative);
    assert_eq!((n.width, n.height, n.row_gap), (Val::Auto, Val::Auto, Val::Px(0)));
    assert_eq!((n.margin, n.padding, n.border), (UiRect::zero(), UiRect::zero(), UiRect::zero()));
    assert_eq!(n.align_items, Alignment::Default);
}

#[test]
fn text_options() {
    let opts = Opts::new(WidgetContent::from_text("a"))
        .color(c(GREEN))
        .font(TextFont { font: 5, font_size: 10_000 })
        .font_size(12_000)
        .text("b");
    let t = text_of(&opts);
    assert_eq!(t.text, "b");
    assert_eq!(t.color, TextColor(c(GREEN)));
    assert_eq!(t.font, TextFont { font: 5, font_size: 12_000 });

    // a picture takes no font, size or colour
    let opts = Opts::new(WidgetContent::from_image(3))
        .color(c(GREEN))
        .font(TextFont { font: 5, font_size: 10_000 })
        .font_size(12_000);
    assert!(matches!(opts.inner, WidgetContent::Image(ImageNode { image: 3 })));
    // but gives way to a text, drawn the usual way
    let opts = opts.bg_color(c(1)).text("c");
    let t = text_of(&opts);
    assert_eq!(t.text, "c");
    assert_eq!(t.color, TextColor(c(WHITEISH)));
    assert_eq!(t.font, TextFont { font: 0, font_size: FONT_SIZE });
    assert_eq!(opts.bg_color, BackgroundColor(c(1)));
    let opts = opts.image(8);
    assert!(matches!(opts.inner, WidgetContent::Image(ImageNode { image: 8 })));
    assert_eq!(opts.bg_color, BackgroundColor(c(1)));
}

#[test]
fn frame_options() {
    let start = Opts::default();
    let node = start.node;
    let opts = start
        .bg_color(c(1))
        .border_color(c(2))
        .border_radius(Val::Px(7_000))
        .border(UiRect::all(Val::Px(1)))
        .width(Val::Vw(5_000))
        .height(Val::Vh(6_000))
        .row_gap(Val::Percent(20_000))
        .margin(UiRect::all(Val::Px(2)))
        .padding(UiRect::all(Val::Px(3)))
        .ui_palette(UiInteraction::all(c(4)))
        .hidden();
    assert_eq!(opts.bg_color, BackgroundColor(c(1)));
    assert_eq!(opts.border_color, BorderColor(c(2)));
    assert_eq!(opts.border_radius, BorderRadius::all(Val::Px(7_000)));
    assert_eq!(opts.ui_palette.none, (c(4), c(4)));
    assert_eq!(
        opts.node,
        Node {
            display: Display::Hidden,
            border: UiRect::all(Val::Px(1)),
            width: Val::Vw(5_000),
            height: Val::Vh(6_000),
            row_gap: Val::Percent(20_000),
            margin: UiRect::all(Val::Px(2)),
            padding: UiRect::all(Val::Px(3)),
            ..node
        }
    );
    assert_eq!(text_of(&opts).text, "");
    let replaced = opts.node(Node::default());
    assert_eq!(replaced.node, Node::default());
    assert_eq!(replaced.bg_color, BackgroundColor(c(1)));
}

#[test]
fn bundles() {
    let bundle = Opts::new(WidgetContent::from_image(3)).width(Val::Px(1)).into_image_bundle();
    assert_eq!(
        bundle,
        ImageWidgetBundle {
            image: ImageNode { image: 3 },
            node: Node {
                position_type: PositionType::Absolute,
                width: Val::Percent(100_000),
                height: Val::Percent(100_000),
                align_items: Alignment::Center,
                justify_content: Alignment::Center,
                ..Node::default()
            },
        }
    );
    let (text, bg) =
        Opts::new(WidgetContent::from_text("Loading...")).bg_color(c(9)).into_text_bundle();
    assert_eq!(text.text, "Loading...");
    assert_eq!(bg, BackgroundColor(c(9)));
    assert_eq!(TextContent::default().text, "");
    assert_eq!(ImageNode::new(4), ImageNode { image: 4 });
}
