use midgard::models::palette::{Color, WHITEISH};
use midgard::ui::interaction::UiInteraction;
use midgard::ui::layout::{
    Alignment, BackgroundColor, BorderColor, BorderRadius, FlexDirection, Node, PositionType,
    UiRect, Val,
};
use midgard::ui::opts::{ImageNode, Opts, WidgetContent};
use midgard::ui::widget::{btn, btn_big, btn_small, header, icon, label, ui_root, WidgetKind};

fn text(s: &str) -> Opts {
    Opts::new(WidgetContent::from_text(s))
}

#[test]
fn root_fills_the_window() {
    let root = ui_root("Title UI");
    assert_eq!(root.name, "Title UI");
    assert_eq!(root.kind, WidgetKind::Plain);
    assert!(!root.pickable);
    assert_eq!(
        root.node,
        Some(Node {
            width: Val::Percent(100_000),
            height: Val::Percent(100_000),
            position_type: PositionType::Absolute,
            flex_direction: FlexDirection::Column,
            justify_content: Alignment::Center,
            align_items: Alignment::Center,
            row_gap: Val::Vh(5_000),
            ..Node::default()
        })
    );
    assert!(root.children.is_empty() && root.text.is_none() && root.image.is_none());
}

#[test]
fn labels_icons_and_headers() {
    let opts = text("Loading...").bg_color(Color { rgba: 5 }).width(Val::Px(1));
    let node = opts.node;
    let l = label(opts);
    assert_eq!(l.name, "Label");
    assert_eq!(l.kind, WidgetKind::Label);
    assert_eq!(l.node, Some(node));
    assert_eq!(l.border_radius, Some(BorderRadius::all(Val::Px(15_000))));
    assert_eq!(l.text.as_ref().unwrap().text, "Loading...");
    assert_eq!(l.background, Some(BackgroundColor(Color { rgba: 5 })));
    assert!(!l.pickable);

    let h = header(text("Settings"));
    assert_eq!(h.name, "Header");
    assert_eq!(h.text.as_ref().unwrap().text, "Settings");
    assert_eq!(h.node, None);
    assert!(h.pickable);

    let i = icon(Opts::new(WidgetContent::from_image(9)).hidden());
    assert_eq!(i.name, "Icon");
    assert_eq!(i.image.unwrap().image, ImageNode { image: 9 });
    assert_eq!(i.image.unwrap().node.width, Val::Percent(100_000));
    assert_eq!(i.node.unwrap().display, midgard::ui::layout::Display::Hidden);
    assert!(i.text.is_none() && !i.pickable);
}

#[test]
fn a_button_wraps_its_content() {
    let opts = text("back").ui_palette(UiInteraction::all(Color { rgba: 3 }));
    let node = opts.node;
    let b = btn(opts);
    assert_eq!(b.name, "Button");
    assert_eq!(b.node, Some(Node::default()));
    assert_eq!(b.children.len(), 1);
    let proper = &b.children[0];
    assert_eq!(proper.kind, WidgetKind::Button);
    assert_eq!(proper.node, Some(node));
    assert_eq!(proper.border_color, Some(BorderColor(Color { rgba: WHITEISH })));
    assert_eq!(proper.border_radius, Some(BorderRadius::all(Val::Px(15_000))));
    assert_eq!(proper.palette.unwrap().pressed, (Color { rgba: 3 }, Color { rgba: 3 }));
    assert_eq!(proper.children.len(), 1);
    assert_eq!(proper.children[0].text.as_ref().unwrap().text, "back");

    let b = btn(Opts::new(WidgetContent::from_image(4)));
    assert_eq!(b.children[0].children[0].image.unwrap().image, ImageNode { image: 4 });
    assert!(b.children[0].children[0].text.is_none());
}

#[test]
fn big_and_small_buttons() {
    let opts = text("Play").width(Val::Vw(15_000));
    let node = opts.node;
    let b = btn_big(opts);
    assert_eq!(
        b.children[0].node,
        Some(Node {
            min_width: Val::Vw(30_000),
            padding: UiRect::axes(Val::Vw(8_000), Val::Vh(2_000)),
            align_items: Alignment::Center,
            justify_content: Alignment::Center,
            ..node
        })
    );
    assert_eq!(b.children[0].border_radius, Some(BorderRadius::all(Val::Px(15_000))));

    let opts = text("-").margin(UiRect::all(Val::Px(9))).padding(UiRect::all(Val::Px(9)));
    let node = opts.node;
    let b = btn_small(opts);
    assert_eq!(
        b.children[0].node,
        Some(Node {
            margin: UiRect::zero(),
            padding: UiRect::zero(),
            align_items: Alignment::Center,
            justify_content: Alignment::Center,
            ..node
        })
    );
    assert_eq!(b.children[0].border_radius, Some(BorderRadius::all(Val::Px(7_000))));
    assert_eq!(b.children[0].children[0].text.as_ref().unwrap().text, "-");
}
