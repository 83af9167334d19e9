use main_button::color::{Palette, Rgba};
use main_button::composition::{
    plan, AssetCache, BuildError, FontHandle, Label, MainButton, TextureHandle, WidgetComposition,
    LABEL_FONT_SIZE, SLICE_BORDER,
};
use main_button::control::Direction;
use main_button::layout::{Anchor, UiLayout};
use main_button::node::{NodeId, NodePath};

fn palette() -> Palette {
    Palette {
        rest: Rgba { r: 1_000_000, g: 384_314, b: 317_647, a: 1_000_000 },
        active: Rgba { r: 988_235, g: 886_275, b: 31_373, a: 1_000_000 },
    }
}

fn assets() -> AssetCache {
    AssetCache {
        button: Some(TextureHandle(11)),
        font_medium: Some(FontHandle(22)),
        font_bold: Some(FontHandle(33)),
    }
}

fn button(text: &str) -> MainButton {
    MainButton { text: text.to_string() }
}

#[test]
fn paths_are_fixed() {
    assert_eq!(NodePath::Control.as_str(), "Control");
    assert_eq!(NodePath::Image.as_str(), "Control/Image");
    assert_eq!(NodePath::Text.as_str(), "Control/Image/Text");
}

#[test]
fn only_the_control_takes_hits() {
    assert!(NodePath::Control.hit_testable());
    assert!(!NodePath::Image.hit_testable());
    assert!(!NodePath::Text.hit_testable());
}

#[test]
fn plan_describes_three_nodes() {
    let p = plan(&button("CONTINUE"), &assets(), &palette()).expect("all assets are there");

    assert_eq!(p.image.path, NodePath::Image);
    assert_eq!(p.image.layout, UiLayout::window_full());
    assert_eq!(p.image.color, Rgba { r: 1_000_000, g: 384_314, b: 317_647, a: 0 });
    assert_eq!(p.image.texture, Some(TextureHandle(11)));
    assert_eq!(p.image.slice_border, Some(32));
    assert_eq!(SLICE_BORDER, 32);
    assert_eq!(p.image.label, None);
    assert!(!p.image.hit_testable);

    assert_eq!(p.text.path, NodePath::Text);
    assert_eq!(
        p.text.layout,
        UiLayout { x: 5_000_000, y: 50_000_000, full: false, anchor: Anchor::CenterLeft }
    );
    assert_eq!(p.text.color, palette().rest);
    assert_eq!(p.text.texture, None);
    assert_eq!(p.text.slice_border, None);
    assert_eq!(
        p.text.label,
        Some(Label { text: "CONTINUE".to_string(), font: FontHandle(22), font_size: 60 })
    );
    assert_eq!(LABEL_FONT_SIZE, 60);
    assert!(!p.text.hit_testable);

    assert_eq!(p.control.path, NodePath::Control);
    assert_eq!(p.control.layout, UiLayout::window_full());
    assert_eq!(p.control.color.a, 0);
    assert_eq!(p.control.texture, Some(TextureHandle(11)));
    assert_eq!(p.control.slice_border, None);
    assert_eq!(p.control.label, None);
    assert!(p.control.hit_testable);
}

#[test]
fn plan_keeps_the_text_verbatim() {
    let odd = "  Quit \u{1F680} / now\n";
    let p = plan(&button(odd), &assets(), &palette()).expect("all assets are there");
    assert_eq!(p.text.label.expect("the label has text").text, odd);
    let empty = plan(&button(""), &assets(), &palette()).expect("all assets are there");
    assert_eq!(empty.text.label.expect("the label has text").text, "");
}

#[test]
fn plan_fails_without_texture() {
    let a = AssetCache { button: None, ..assets() };
    assert_eq!(plan(&button("x"), &a, &palette()), Err(BuildError::MissingTexture));
    let none = AssetCache { button: None, font_medium: None, font_bold: None };
    assert_eq!(plan(&button("x"), &none, &palette()), Err(BuildError::MissingTexture));
}

#[test]
fn plan_fails_without_label_font() {
    let a = AssetCache { font_medium: None, ..assets() };
    assert_eq!(plan(&button("x"), &a, &palette()), Err(BuildError::MissingFont));
}

#[test]
fn plan_does_not_need_the_bold_font() {
    let a = AssetCache { font_bold: None, ..assets() };
    assert!(plan(&button("x"), &a, &palette()).is_ok());
}

#[test]
fn composition_ties_state_to_its_nodes() {
    let c = WidgetComposition::new(NodeId(2), NodeId(0), NodeId(1));
    assert_eq!(c.control(), NodeId(2));
    assert_eq!(c.image(), NodeId(0));
    assert_eq!(c.text(), NodeId(1));
    assert_eq!(c.node(NodePath::Control), NodeId(2));
    assert_eq!(c.node(NodePath::Image), NodeId(0));
    assert_eq!(c.node(NodePath::Text), NodeId(1));
    assert_eq!(c.state().image_entity(), NodeId(0));
    assert_eq!(c.state().text_entity(), NodeId(1));
    assert_eq!(c.state().animation_direction(), Direction::Idle);
    assert_eq!(c.state().animation_transition(), 0);
}

#[test]
fn composition_passes_events_to_its_state() {
    let mut c = WidgetComposition::new(NodeId(2), NodeId(0), NodeId(1));
    c.pointer_enter();
    assert_eq!(c.state().animation_direction(), Direction::Forward);
    let out = c.update(30_000, &palette());
    assert_eq!(c.state().animation_transition(), 300_000);
    let r = out.repaint.expect("the progress moved");
    assert_eq!(r.image_color.target, NodeId(0));
    assert_eq!(r.text_color.target, NodeId(1));
    assert_eq!(r.image_layout.target, NodeId(0));
    assert_eq!(r.image_layout.layout.x, 3_000_000);
    c.pointer_leave();
    assert_eq!(c.state().animation_direction(), Direction::Backward);
    assert_eq!(c.control(), NodeId(2));
}

#[test]
fn default_button_has_no_text() {
    assert_eq!(MainButton::default().text, "");
}
