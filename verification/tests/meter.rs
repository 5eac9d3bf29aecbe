use ui::theme::ThemeColor;
use ui::widgets::meter::{
    bar_width, gate_bar_paint, gate_plan, vu_bar_paint, vu_plan, Bounds, DrawOp, LevelZone, Paint,
};

fn frame() -> Bounds {
    Bounds { x: 10, y: 20, w: 200, h: 16 }
}

fn background(b: Bounds) -> Vec<DrawOp> {
    vec![DrawOp::SetColor(Paint::Theme(ThemeColor::Surface)), DrawOp::FillRect(b)]
}

fn border(b: Bounds) -> Vec<DrawOp> {
    vec![DrawOp::SetColor(Paint::Theme(ThemeColor::Border)), DrawOp::StrokeRect(b)]
}

#[test]
fn bar_width_takes_off_both_insets() {
    assert_eq!(bar_width(200), 196);
    assert_eq!(bar_width(4), 0);
    assert_eq!(bar_width(0), -4);
}

#[test]
fn vu_zone_colours() {
    assert_eq!(vu_bar_paint(LevelZone::Normal), Paint::CallerAccent);
    assert_eq!(vu_bar_paint(LevelZone::Warning), Paint::Theme(ThemeColor::Warning));
    assert_eq!(vu_bar_paint(LevelZone::Danger), Paint::Theme(ThemeColor::Danger));
}

#[test]
fn gate_colours() {
    assert_eq!(gate_bar_paint(true), Paint::Theme(ThemeColor::Success));
    assert_eq!(gate_bar_paint(false), Paint::Theme(ThemeColor::Subtle));
}

#[test]
fn vu_plan_with_filled_bar() {
    let b = frame();
    let mut expected = background(b);
    expected.push(DrawOp::SetColor(Paint::Theme(ThemeColor::Danger)));
    expected.push(DrawOp::FillRect(Bounds { x: 12, y: 23, w: 98, h: 10 }));
    expected.extend(border(b));
    assert_eq!(vu_plan(b, 98, LevelZone::Danger), expected);
}

#[test]
fn vu_plan_accent_bar() {
    let b = frame();
    let plan = vu_plan(b, 5, LevelZone::Normal);
    assert_eq!(plan[2], DrawOp::SetColor(Paint::CallerAccent));
    assert_eq!(plan[3], DrawOp::FillRect(Bounds { x: 12, y: 23, w: 5, h: 10 }));
}

#[test]
fn vu_plan_without_bar_when_nothing_filled() {
    let b = frame();
    let mut expected = background(b);
    expected.extend(border(b));
    assert_eq!(vu_plan(b, 0, LevelZone::Warning), expected);
    assert_eq!(vu_plan(b, -3, LevelZone::Normal), expected);
}

#[test]
fn gate_plan_open_with_marker() {
    let b = frame();
    let mut expected = background(b);
    expected.push(DrawOp::SetColor(Paint::Theme(ThemeColor::Success)));
    expected.push(DrawOp::FillRect(Bounds { x: 12, y: 24, w: 120, h: 8 }));
    expected.push(DrawOp::SetColor(Paint::Theme(ThemeColor::Danger)));
    expected.push(DrawOp::LineWidth(2));
    expected.push(DrawOp::Line { x1: 62, y1: 22, x2: 62, y2: 34 });
    expected.push(DrawOp::LineWidth(1));
    expected.extend(border(b));
    assert_eq!(gate_plan(b, 120, true, 50), expected);
}

#[test]
fn gate_plan_closed_and_empty_still_draws_marker() {
    let b = frame();
    let plan = gate_plan(b, 0, false, 0);
    assert_eq!(plan.len(), 8);
    assert_eq!(plan[2], DrawOp::SetColor(Paint::Theme(ThemeColor::Danger)));
    assert_eq!(plan[4], DrawOp::Line { x1: 12, y1: 22, x2: 12, y2: 34 });
    assert_eq!(plan[7], DrawOp::StrokeRect(b));
}

#[test]
fn gate_plan_closed_bar_is_dim() {
    let b = frame();
    let plan = gate_plan(b, 30, false, 196);
    assert_eq!(plan[2], DrawOp::SetColor(Paint::Theme(ThemeColor::Subtle)));
    assert_eq!(plan[6], DrawOp::Line { x1: 208, y1: 22, x2: 208, y2: 34 });
}
