use main_button::color::{Palette, Rgba};
use main_button::control::{Direction, MainButtonControl, SHIFT};
use main_button::instruction::{CursorIcon, CursorRequest};
use main_button::layout::{Anchor, UiLayout};
use main_button::node::NodeId;
use main_button::units::{advance_backward, advance_forward, lerp, RATE, UNIT};

const IMAGE: NodeId = NodeId(7);
const TEXT: NodeId = NodeId(8);

fn palette() -> Palette {
    Palette {
        rest: Rgba { r: 1_000_000, g: 400_000, b: 300_000, a: 1_000_000 },
        active: Rgba { r: 900_000, g: 800_000, b: 100_000, a: 1_000_000 },
    }
}

fn fresh() -> MainButtonControl {
    MainButtonControl::new(IMAGE, TEXT)
}

#[test]
fn fresh_control_is_idle_at_rest() {
    let c = fresh();
    assert_eq!(c.animation_direction(), Direction::Idle);
    assert_eq!(c.animation_transition(), 0);
    assert_eq!(c.image_entity(), IMAGE);
    assert_eq!(c.text_entity(), TEXT);
}

#[test]
fn scenario_idle_tick_emits_nothing() {
    let mut c = fresh();
    let out = c.update(50_000, &palette());
    assert_eq!(c.animation_direction(), Direction::Idle);
    assert_eq!(c.animation_transition(), 0);
    assert_eq!(out.repaint, None);
    assert_eq!(out.cursor, None);
}

#[test]
fn scenario_enter_then_half_sweep() {
    let mut c = fresh();
    c.pointer_enter();
    assert_eq!(c.animation_direction(), Direction::Forward);
    let out = c.update(50_000, &palette());
    assert_eq!(c.animation_transition(), 500_000);
    let r = out.repaint.expect("the progress moved");
    assert_eq!(r.image_layout.target, IMAGE);
    assert_eq!(
        r.image_layout.layout,
        UiLayout { x: 5_000_000, y: 0, full: true, anchor: Anchor::TopLeft }
    );
    assert_eq!(r.image_color.target, IMAGE);
    assert_eq!(
        r.image_color.color,
        Rgba { r: 950_000, g: 600_000, b: 200_000, a: 500_000 }
    );
    assert_eq!(r.text_color.target, TEXT);
    assert_eq!(
        r.text_color.color,
        Rgba { r: 950_000, g: 600_000, b: 200_000, a: 1_000_000 }
    );
    assert_eq!(
        out.cursor,
        Some(CursorRequest { icon: CursorIcon::Copy, priority: 1_000_000 })
    );
}

#[test]
fn scenario_saturates_then_stays_silent() {
    let mut c = fresh();
    c.pointer_enter();
    c.update(50_000, &palette());
    let second = c.update(50_000, &palette());
    assert_eq!(c.animation_transition(), 1_000_000);
    let r = second.repaint.expect("the progress moved to one");
    assert_eq!(r.image_color.color, palette().active);
    assert_eq!(r.image_layout.layout.x, 10_000_000);
    let third = c.update(50_000, &palette());
    assert_eq!(c.animation_transition(), 1_000_000);
    assert_eq!(third.repaint, None);
    // The icon is asked for on every tick while the pointer is over the button.
    assert!(third.cursor.is_some());
}

#[test]
fn scenario_leave_reverses_fully() {
    let mut c = fresh();
    c.pointer_enter();
    c.update(100_000, &palette());
    assert_eq!(c.animation_transition(), 1_000_000);
    c.pointer_leave();
    assert_eq!(c.animation_direction(), Direction::Backward);
    let out = c.update(100_000, &palette());
    assert_eq!(c.animation_transition(), 0);
    let r = out.repaint.expect("the progress moved back");
    assert_eq!(r.image_color.color.a, 0);
    assert_eq!(r.image_color.color, palette().rest.with_a(0));
    assert_eq!(r.text_color.color, palette().rest);
    assert_eq!(r.image_layout.layout.x, 0);
    assert_eq!(out.cursor, None);
    let again = c.update(100_000, &palette());
    assert_eq!(again.repaint, None);
    assert_eq!(c.animation_transition(), 0);
}

#[test]
fn backward_at_rest_is_silent() {
    let mut c = fresh();
    c.pointer_leave();
    let out = c.update(16_000, &palette());
    assert_eq!(c.animation_transition(), 0);
    assert_eq!(out.repaint, None);
    assert_eq!(out.cursor, None);
}

#[test]
fn two_enters_are_one() {
    let mut once = fresh();
    once.pointer_enter();
    let mut twice = fresh();
    twice.pointer_enter();
    twice.pointer_enter();
    assert_eq!(once, twice);
    once.update(10_000, &palette());
    twice.update(10_000, &palette());
    assert_eq!(once.animation_transition(), 100_000);
    assert_eq!(twice.animation_transition(), 100_000);
}

#[test]
fn enter_after_leave_runs_forward() {
    let mut c = fresh();
    c.pointer_leave();
    c.pointer_enter();
    assert_eq!(c.animation_direction(), Direction::Forward);
    c.pointer_leave();
    c.pointer_leave();
    assert_eq!(c.animation_direction(), Direction::Backward);
}

#[test]
fn forward_ticks_grow_until_one() {
    let mut c = fresh();
    c.pointer_enter();
    let mut last: u32 = 0;
    let mut ticks: u32 = 0;
    while c.animation_transition() < UNIT {
        c.update(16_000, &palette());
        assert!(c.animation_transition() > last);
        assert!(c.animation_transition() <= UNIT);
        last = c.animation_transition();
        ticks += 1;
    }
    // 16 ms move the progress by 0.16: the seventh tick reaches one.
    assert_eq!(ticks, 7);
    for _ in 0..5 {
        let out = c.update(16_000, &palette());
        assert_eq!(c.animation_transition(), UNIT);
        assert_eq!(out.repaint, None);
    }
}

#[test]
fn progress_stays_in_range_under_mixed_inputs() {
    let mut c = fresh();
    let steps: [(u8, u64); 10] = [
        (1, 30_000),
        (1, 30_000),
        (0, 250_000),
        (2, 1),
        (1, u64::MAX),
        (0, u64::MAX),
        (0, 0),
        (1, 99_999),
        (1, 1),
        (0, 50_000),
    ];
    for (kind, elapsed) in steps {
        match kind {
            0 => c.pointer_leave(),
            1 => c.pointer_enter(),
            _ => {}
        }
        c.update(elapsed, &palette());
        assert!(c.animation_transition() <= UNIT);
        assert_eq!(c.image_entity(), IMAGE);
        assert_eq!(c.text_entity(), TEXT);
    }
}

#[test]
fn huge_elapsed_time_saturates() {
    let mut c = fresh();
    c.pointer_enter();
    let out = c.update(u64::MAX, &palette());
    assert_eq!(c.animation_transition(), UNIT);
    assert!(out.repaint.is_some());
    c.pointer_leave();
    c.update(u64::MAX, &palette());
    assert_eq!(c.animation_transition(), 0);
}

#[test]
fn zero_elapsed_time_moves_nothing() {
    let mut c = fresh();
    c.pointer_enter();
    let out = c.update(0, &palette());
    assert_eq!(c.animation_transition(), 0);
    assert_eq!(out.repaint, None);
    assert!(out.cursor.is_some());
}

#[test]
fn mid_reverse_button_asks_for_no_icon() {
    let mut c = fresh();
    c.pointer_enter();
    c.update(80_000, &palette());
    c.pointer_leave();
    let out = c.update(10_000, &palette());
    assert_eq!(c.animation_transition(), 700_000);
    assert!(out.repaint.is_some());
    assert_eq!(out.cursor, None);
}

#[test]
fn advance_formulas() {
    assert_eq!(RATE, 10);
    assert_eq!(UNIT, 1_000_000);
    assert_eq!(SHIFT, 10);
    assert_eq!(advance_forward(0, 50_000), 500_000);
    assert_eq!(advance_forward(250_000, 1), 250_010);
    assert_eq!(advance_forward(999_995, 1), 1_000_000);
    assert_eq!(advance_forward(0, 100_000), 1_000_000);
    assert_eq!(advance_forward(0, 100_001), 1_000_000);
    assert_eq!(advance_backward(1_000_000, 100_000), 0);
    assert_eq!(advance_backward(1_000_000, 25_000), 750_000);
    assert_eq!(advance_backward(5, 1), 0);
    assert_eq!(advance_backward(0, 0), 0);
}

#[test]
fn lerp_formula_rounds_down_and_hits_both_ends() {
    assert_eq!(lerp(0, 1_000_000, 500_000), 500_000);
    assert_eq!(lerp(1_000_000, 0, 250_000), 750_000);
    assert_eq!(lerp(3, 4, 500_000), 3);
    assert_eq!(lerp(4, 3, 500_000), 3);
    assert_eq!(lerp(123, 456_789, 0), 123);
    assert_eq!(lerp(123, 456_789, 1_000_000), 456_789);
    assert_eq!(lerp(u32::MAX, u32::MAX, 333_333), u32::MAX);
    assert_eq!(lerp(u32::MAX, 0, 1_000_000), 0);
}

#[test]
fn color_lerp_and_alpha() {
    let p = palette();
    assert_eq!(p.blend(0), p.rest);
    assert_eq!(p.blend(1_000_000), p.active);
    assert_eq!(
        p.rest.lerp(p.active, 250_000),
        Rgba { r: 975_000, g: 500_000, b: 250_000, a: 1_000_000 }
    );
    assert_eq!(
        p.rest.with_a(0),
        Rgba { r: 1_000_000, g: 400_000, b: 300_000, a: 0 }
    );
}

#[test]
fn layout_builders() {
    assert_eq!(
        UiLayout::window_full(),
        UiLayout { x: 0, y: 0, full: true, anchor: Anchor::TopLeft }
    );
    assert_eq!(
        UiLayout::window().pos(5_000_000, 50_000_000).anchor(Anchor::CenterLeft),
        UiLayout { x: 5_000_000, y: 50_000_000, full: false, anchor: Anchor::CenterLeft }
    );
    assert_eq!(UiLayout::window_full().x(2_500_000).x, 2_500_000);
}
