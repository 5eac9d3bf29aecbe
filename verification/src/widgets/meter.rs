//! Audio level meter widgets: the drawing steps.
//!
//! Two meter variants built on a shared drawing core:
//!
//! - **VU meter**: colour-coded level bar (accent → amber → red).
//! - **Gate bar**: level bar with a threshold marker and open/closed colouring.
//!
//! A meter redraw is a list of [`DrawOp`]s over the meter frame's
//! [`Bounds`]: the surface fill, the level bar (only when some of it is
//! filled), for a gate bar its threshold marker, and the hairline border.
//! The caller measures the level (a floating-point value) and hands in
//! how many pixels of the bar are filled, the level's zone, and for the
//! gate whether it is open and where the marker sits.

use vstd::prelude::*;
use crate::theme::ThemeColor;

verus! {

// ── Shared constants ────────────────────────────────────────────────────

/// Horizontal padding inside the meter frame (left and right).
pub const BAR_INSET_X: i32 = 2;

/// Vertical padding for the VU meter bar.
pub const VU_INSET_Y: i32 = 3;

/// Vertical padding for a gate bar.
pub const GATE_INSET_Y: i32 = 4;

/// Line width of the threshold marker.
pub const MARKER_LINE_WIDTH: i32 = 2;

/// Line width restored once the marker is drawn.
pub const DEFAULT_LINE_WIDTH: i32 = 1;

// ── Drawing steps ───────────────────────────────────────────────────────

/// A rectangle on screen: top-left corner, width and height.
#[derive(Clone, Copy, PartialEq, Eq, Structural, Debug)]
pub struct Bounds {
    pub x: i32,
    pub y: i32,
    pub w: i32,
    pub h: i32,
}

/// The colour a drawing step uses: a palette entry, or the accent colour
/// that the caller gave the meter when creating it.
#[derive(Clone, Copy, PartialEq, Eq, Structural, Debug)]
pub enum Paint {
    Theme(ThemeColor),
    CallerAccent,
}

/// One drawing call.
#[derive(Clone, Copy, PartialEq, Eq, Structural, Debug)]
pub enum DrawOp {
    /// Set the current drawing colour.
    SetColor(Paint),
    /// Fill a rectangle with the current colour.
    FillRect(Bounds),
    /// Outline a rectangle with the current colour.
    StrokeRect(Bounds),
    /// Set a solid line style of the given width.
    LineWidth(i32),
    /// Draw a line between two points.
    Line { x1: i32, y1: i32, x2: i32, y2: i32 },
}

/// How loud the VU level is, as the caller classified it: above the
/// danger level, above the warning level, or neither.
#[derive(Clone, Copy, PartialEq, Eq, Structural, Debug)]
pub enum LevelZone {
    Normal,
    Warning,
    Danger,
}

// ── Specification ───────────────────────────────────────────────────────

pub open spec fn fits_i32(v: int) -> bool {
    i32::MIN <= v <= i32::MAX
}

/// Fill the frame background with the surface colour.
pub open spec fn background_ops(b: Bounds) -> Seq<DrawOp> {
    seq![DrawOp::SetColor(Paint::Theme(ThemeColor::Surface)), DrawOp::FillRect(b)]
}

/// The hairline border around the frame.
pub open spec fn border_ops(b: Bounds) -> Seq<DrawOp> {
    seq![DrawOp::SetColor(Paint::Theme(ThemeColor::Border)), DrawOp::StrokeRect(b)]
}

/// The rectangle of a level bar `filled` pixels wide, inset by
/// [`BAR_INSET_X`] on the left and `inset_y` above and below.
pub open spec fn bar_rect(b: Bounds, inset_y: int, filled: int) -> Bounds {
    Bounds {
        x: (b.x + BAR_INSET_X) as i32,
        y: (b.y + inset_y) as i32,
        w: filled as i32,
        h: (b.h - inset_y * 2) as i32,
    }
}

/// The coordinates of a bar's rectangle fit in `i32`.
pub open spec fn bar_fits(b: Bounds, inset_y: int) -> bool {
    &&& fits_i32(b.x + BAR_INSET_X)
    &&& fits_i32(b.y + inset_y)
    &&& fits_i32(b.h - inset_y * 2)
}

/// The level bar: drawn only when some of it is filled.
pub open spec fn bar_ops(b: Bounds, inset_y: int, filled: int, paint: Paint) -> Seq<DrawOp> {
    if filled > 0 {
        seq![DrawOp::SetColor(paint), DrawOp::FillRect(bar_rect(b, inset_y, filled))]
    } else {
        seq![]
    }
}

/// The bar colour of a VU meter in each zone.
pub open spec fn vu_paint(zone: LevelZone) -> Paint {
    match zone {
        LevelZone::Normal => Paint::CallerAccent,
        LevelZone::Warning => Paint::Theme(ThemeColor::Warning),
        LevelZone::Danger => Paint::Theme(ThemeColor::Danger),
    }
}

/// The bar colour of a gate: green while open, dim while closed.
pub open spec fn gate_paint(open: bool) -> Paint {
    if open {
        Paint::Theme(ThemeColor::Success)
    } else {
        Paint::Theme(ThemeColor::Subtle)
    }
}

/// The x coordinate of the threshold marker, `offset` pixels into the bar.
pub open spec fn marker_x(b: Bounds, offset: int) -> int {
    b.x + BAR_INSET_X + offset
}

/// The coordinates of the threshold marker fit in `i32`.
pub open spec fn marker_fits(b: Bounds, offset: int) -> bool {
    &&& fits_i32(b.x + BAR_INSET_X)
    &&& fits_i32(marker_x(b, offset))
    &&& fits_i32(b.y + BAR_INSET_X)
    &&& fits_i32(b.y + b.h)
    &&& fits_i32(b.y + b.h - BAR_INSET_X)
}

/// The red vertical threshold line, drawn two pixels wide, after which
/// the line style goes back to its default width.
pub open spec fn marker_ops(b: Bounds, offset: int) -> Seq<DrawOp> {
    seq![
        DrawOp::SetColor(Paint::Theme(ThemeColor::Danger)),
        DrawOp::LineWidth(MARKER_LINE_WIDTH),
        DrawOp::Line {
            x1: marker_x(b, offset) as i32,
            y1: (b.y + BAR_INSET_X) as i32,
            x2: marker_x(b, offset) as i32,
            y2: (b.y + b.h - BAR_INSET_X) as i32,
        },
        DrawOp::LineWidth(DEFAULT_LINE_WIDTH),
    ]
}

/// Every drawing step of a VU meter redraw.
pub open spec fn vu_ops(b: Bounds, filled: int, zone: LevelZone) -> Seq<DrawOp> {
    background_ops(b) + bar_ops(b, VU_INSET_Y as int, filled, vu_paint(zone)) + border_ops(b)
}

/// Every drawing step of a gate bar redraw.
pub open spec fn gate_ops(b: Bounds, filled: int, open: bool, offset: int) -> Seq<DrawOp> {
    background_ops(b) + bar_ops(b, GATE_INSET_Y as int, filled, gate_paint(open)) + marker_ops(
        b,
        offset,
    ) + border_ops(b)
}

// ── Implementation ──────────────────────────────────────────────────────

/// Usable bar width after horizontal insets.
pub fn bar_width(frame_w: i32) -> (w: i32)
    requires
        fits_i32(frame_w - BAR_INSET_X * 2),
    ensures
        w == frame_w - BAR_INSET_X * 2,
{
    frame_w - BAR_INSET_X * 2
}

/// The bar colour of a VU meter: the caller's accent while the level is
/// normal, amber above the warning level, red above the danger level.
pub fn vu_bar_paint(zone: LevelZone) -> (p: Paint)
    ensures
        p == vu_paint(zone),
{
    match zone {
        LevelZone::Normal => Paint::CallerAccent,
        LevelZone::Warning => Paint::Theme(ThemeColor::Warning),
        LevelZone::Danger => Paint::Theme(ThemeColor::Danger),
    }
}

/// The bar colour of a gate bar.
pub fn gate_bar_paint(open: bool) -> (p: Paint)
    ensures
        p == gate_paint(open),
{
    if open {
        Paint::Theme(ThemeColor::Success)
    } else {
        Paint::Theme(ThemeColor::Subtle)
    }
}

fn push_background(ops: &mut Vec<DrawOp>, b: Bounds)
    ensures
        final(ops)@ == old(ops)@ + background_ops(b),
{
    ops.push(DrawOp::SetColor(Paint::Theme(ThemeColor::Surface)));
    ops.push(DrawOp::FillRect(b));
}

fn push_border(ops: &mut Vec<DrawOp>, b: Bounds)
    ensures
        final(ops)@ == old(ops)@ + border_ops(b),
{
    ops.push(DrawOp::SetColor(Paint::Theme(ThemeColor::Border)));
    ops.push(DrawOp::StrokeRect(b));
}

fn push_bar(ops: &mut Vec<DrawOp>, b: Bounds, inset_y: i32, filled: i32, paint: Paint)
    requires
        0 <= inset_y <= 4,
        filled > 0 ==> bar_fits(b, inset_y as int),
    ensures
        final(ops)@ == old(ops)@ + bar_ops(b, inset_y as int, filled as int, paint),
{
    if filled > 0 {
        ops.push(DrawOp::SetColor(paint));
        ops.push(
            DrawOp::FillRect(
                Bounds { x: b.x + BAR_INSET_X, y: b.y + inset_y, w: filled, h: b.h - inset_y * 2 },
            ),
        );
    }
}

/// The drawing steps of one VU meter redraw, over the frame `b`, with
/// `filled` pixels of the bar filled and the level in `zone`.
pub fn vu_plan(b: Bounds, filled: i32, zone: LevelZone) -> (ops: Vec<DrawOp>)
    requires
        filled > 0 ==> bar_fits(b, VU_INSET_Y as int),
    ensures
        ops@ == vu_ops(b, filled as int, zone),
        ops@.len() == if filled > 0 { 6int } else { 4int },
        ops@[0] == DrawOp::SetColor(Paint::Theme(ThemeColor::Surface)),
        ops@[1] == DrawOp::FillRect(b),
        filled > 0 ==> ops@[2] == DrawOp::SetColor(vu_bar_color(zone)),
        filled > 0 ==> ops@[3] == DrawOp::FillRect(
            Bounds { x: (b.x + 2) as i32, y: (b.y + 3) as i32, w: filled, h: (b.h - 6) as i32 },
        ),
        ops@[ops@.len() - 2] == DrawOp::SetColor(Paint::Theme(ThemeColor::Border)),
        ops@[ops@.len() - 1] == DrawOp::StrokeRect(b),
{
    let mut ops: Vec<DrawOp> = Vec::new();
    push_background(&mut ops, b);
    let paint = vu_bar_paint(zone);
    push_bar(&mut ops, b, VU_INSET_Y, filled, paint);
    push_border(&mut ops, b);
    proof {
        lemma_vu_steps(b, filled as int, zone);
    }
    ops
}

/// The drawing steps of one gate bar redraw, over the frame `b`, with
/// `filled` pixels of the bar filled, the noise Gate `open` or closed, and the
/// threshold marker `marker_offset` pixels into the bar.
pub fn gate_plan(b: Bounds, filled: i32, open: bool, marker_offset: i32) -> (ops: Vec<DrawOp>)
    requires
        filled > 0 ==> bar_fits(b, GATE_INSET_Y as int),
        marker_fits(b, marker_offset as int),
    ensures
        ops@ == gate_ops(b, filled as int, open, marker_offset as int),
        ops@.len() == if filled > 0 { 10int } else { 8int },
        ops@[0] == DrawOp::SetColor(Paint::Theme(ThemeColor::Surface)),
        ops@[1] == DrawOp::FillRect(b),
        filled > 0 ==> ops@[2] == DrawOp::SetColor(
            if open { Paint::Theme(ThemeColor::Success) } else { Paint::Theme(ThemeColor::Subtle) },
        ),
        filled > 0 ==> ops@[3] == DrawOp::FillRect(
            Bounds { x: (b.x + 2) as i32, y: (b.y + 4) as i32, w: filled, h: (b.h - 8) as i32 },
        ),
        ops@[ops@.len() - 6] == DrawOp::SetColor(Paint::Theme(ThemeColor::Danger)),
        ops@[ops@.len() - 5] == DrawOp::LineWidth(2),
        ops@[ops@.len() - 4] == (DrawOp::Line {
            x1: (b.x + 2 + marker_offset) as i32,
            y1: (b.y + 2) as i32,
            x2: (b.x + 2 + marker_offset) as i32,
            y2: (b.y + b.h - 2) as i32,
        }),
        ops@[ops@.len() - 3] == DrawOp::LineWidth(1),
        ops@[ops@.len() - 2] == DrawOp::SetColor(Paint::Theme(ThemeColor::Border)),
        ops@[ops@.len() - 1] == DrawOp::StrokeRect(b),
{
    let mut ops: Vec<DrawOp> = Vec::new();
    push_background(&mut ops, b);
    let paint = gate_bar_paint(open);
    push_bar(&mut ops, b, GATE_INSET_Y, filled, paint);
    let thr_x = b.x + BAR_INSET_X + marker_offset;
    ops.push(DrawOp::SetColor(Paint::Theme(ThemeColor::Danger)));
    ops.push(DrawOp::LineWidth(MARKER_LINE_WIDTH));
    ops.push(DrawOp::Line { x1: thr_x, y1: b.y + BAR_INSET_X, x2: thr_x, y2: b.y + b.h - BAR_INSET_X });
    ops.push(DrawOp::LineWidth(DEFAULT_LINE_WIDTH));
    push_border(&mut ops, b);
    proof {
        let pre = background_ops(b) + bar_ops(b, GATE_INSET_Y as int, filled as int, gate_paint(open));
        assert(ops@ == pre + marker_ops(b, marker_offset as int) + border_ops(b));
        lemma_gate_steps(b, filled as int, open, marker_offset as int);
    }
    ops
}

// ── Laws ────────────────────────────────────────────────────────────────

/// A VU redraw fills the whole frame with the surface colour first and
/// outlines it with the border colour last; between them it draws the bar
/// exactly when some of it is filled, in the accent colour while the level
/// is normal, amber in the warning zone and red in the danger zone.
pub proof fn lemma_vu_plan_shape(b: Bounds, filled: int, zone: LevelZone)
    ensures
        vu_ops(b, filled, zone).len() == if filled > 0 { 6int } else { 4int },
        vu_ops(b, filled, zone)[0] == DrawOp::SetColor(Paint::Theme(ThemeColor::Surface)),
        vu_ops(b, filled, zone)[1] == DrawOp::FillRect(b),
        vu_ops(b, filled, zone)[vu_ops(b, filled, zone).len() - 2] == DrawOp::SetColor(
            Paint::Theme(ThemeColor::Border),
        ),
        vu_ops(b, filled, zone)[vu_ops(b, filled, zone).len() - 1] == DrawOp::StrokeRect(b),
        filled > 0 ==> vu_ops(b, filled, zone)[2] == DrawOp::SetColor(vu_paint(zone)),
        filled > 0 ==> vu_ops(b, filled, zone)[3] == DrawOp::FillRect(
            bar_rect(b, VU_INSET_Y as int, filled),
        ),
        (vu_paint(zone) == Paint::CallerAccent) <==> (zone == LevelZone::Normal),
        (vu_paint(zone) == Paint::Theme(ThemeColor::Warning)) <==> (zone == LevelZone::Warning),
        (vu_paint(zone) == Paint::Theme(ThemeColor::Danger)) <==> (zone == LevelZone::Danger),
{
}

/// A gate redraw fills the whole frame first and outlines it last; it
/// draws the bar exactly when some of it is filled, green while the noise
/// Gate is open and dim while it is closed; then the red threshold line two
/// pixels wide, after which the line width is back to one pixel.
pub proof fn lemma_gate_plan_shape(b: Bounds, filled: int, open: bool, offset: int)
    ensures
        gate_ops(b, filled, open, offset).len() == if filled > 0 { 10int } else { 8int },
        gate_ops(b, filled, open, offset)[0] == DrawOp::SetColor(Paint::Theme(ThemeColor::Surface)),
        gate_ops(b, filled, open, offset)[1] == DrawOp::FillRect(b),
        filled > 0 ==> gate_ops(b, filled, open, offset)[2] == DrawOp::SetColor(gate_paint(open)),
        filled > 0 ==> gate_ops(b, filled, open, offset)[3] == DrawOp::FillRect(
            bar_rect(b, GATE_INSET_Y as int, filled),
        ),
        (gate_paint(open) == Paint::Theme(ThemeColor::Success)) <==> open,
        (gate_paint(open) == Paint::Theme(ThemeColor::Subtle)) <==> !open,
        gate_ops(b, filled, open, offset).subrange(
            gate_ops(b, filled, open, offset).len() - 6,
            gate_ops(b, filled, open, offset).len() as int,
        ) == marker_ops(b, offset) + border_ops(b),
{
    let ops = gate_ops(b, filled, open, offset);
    let pre = background_ops(b) + bar_ops(b, GATE_INSET_Y as int, filled, gate_paint(open));
    assert(ops == pre + (marker_ops(b, offset) + border_ops(b)));
    assert(ops.subrange(ops.len() - 6, ops.len() as int) =~= marker_ops(b, offset) + border_ops(b));
}

/// A bar no wider than the usable width lies inside the meter frame.
pub proof fn lemma_bar_inside_frame(b: Bounds, inset_y: int, filled: int)
    requires
        0 <= inset_y,
        0 < filled <= b.w - BAR_INSET_X * 2,
        bar_fits(b, inset_y),
    ensures
        b.x <= bar_rect(b, inset_y, filled).x,
        bar_rect(b, inset_y, filled).x + bar_rect(b, inset_y, filled).w <= b.x + b.w,
        b.y <= bar_rect(b, inset_y, filled).y,
        bar_rect(b, inset_y, filled).y + bar_rect(b, inset_y, filled).h <= b.y + b.h,
{
}

/// A threshold marker no further along than the usable width stands
/// inside the meter frame, between the horizontal insets.
pub proof fn lemma_marker_inside_frame(b: Bounds, offset: int)
    requires
        0 <= offset <= b.w - BAR_INSET_X * 2,
    ensures
        b.x + BAR_INSET_X <= marker_x(b, offset) <= b.x + b.w - BAR_INSET_X,
{
}

/// The colour of a VU bar in each zone, as a palette choice.
pub open spec fn vu_bar_color(zone: LevelZone) -> Paint {
    if zone == LevelZone::Danger {
        Paint::Theme(ThemeColor::Danger)
    } else if zone == LevelZone::Warning {
        Paint::Theme(ThemeColor::Warning)
    } else {
        Paint::CallerAccent
    }
}

/// Every step of a VU redraw, with its coordinates in terms of the frame:
/// the frame is filled and outlined whole; a bar `filled` pixels wide
/// starts 2 px in from the left and 3 px down, and is the frame's height
/// less 3 px above and below.
pub proof fn lemma_vu_steps(b: Bounds, filled: int, zone: LevelZone)
    ensures
        vu_ops(b, filled, zone).len() == if filled > 0 { 6int } else { 4int },
        vu_ops(b, filled, zone)[0] == DrawOp::SetColor(Paint::Theme(ThemeColor::Surface)),
        vu_ops(b, filled, zone)[1] == DrawOp::FillRect(b),
        filled > 0 ==> vu_ops(b, filled, zone)[2] == DrawOp::SetColor(vu_bar_color(zone)),
        filled > 0 ==> vu_ops(b, filled, zone)[3] == DrawOp::FillRect(
            Bounds {
                x: (b.x + 2) as i32,
                y: (b.y + 3) as i32,
                w: filled as i32,
                h: (b.h - 6) as i32,
            },
        ),
        vu_ops(b, filled, zone)[vu_ops(b, filled, zone).len() - 2] == DrawOp::SetColor(
            Paint::Theme(ThemeColor::Border),
        ),
        vu_ops(b, filled, zone)[vu_ops(b, filled, zone).len() - 1] == DrawOp::StrokeRect(b),
{
}

/// Every step of a gate redraw, with its coordinates in terms of the
/// frame: the frame is filled and outlined whole; a bar `filled` pixels
/// wide starts 2 px in and 4 px down and is the frame's height less 4 px
/// above and below, green while open and dim while closed; the red marker
/// is a vertical line `offset` pixels past the left inset, from 2 px below
/// the frame's top to 2 px above its bottom, drawn 2 px wide, after which
/// the line width is 1 again.
pub proof fn lemma_gate_steps(b: Bounds, filled: int, open: bool, offset: int)
    ensures
        gate_ops(b, filled, open, offset).len() == if filled > 0 { 10int } else { 8int },
        gate_ops(b, filled, open, offset)[0] == DrawOp::SetColor(Paint::Theme(ThemeColor::Surface)),
        gate_ops(b, filled, open, offset)[1] == DrawOp::FillRect(b),
        filled > 0 ==> gate_ops(b, filled, open, offset)[2] == DrawOp::SetColor(
            if open { Paint::Theme(ThemeColor::Success) } else { Paint::Theme(ThemeColor::Subtle) },
        ),
        filled > 0 ==> gate_ops(b, filled, open, offset)[3] == DrawOp::FillRect(
            Bounds {
                x: (b.x + 2) as i32,
                y: (b.y + 4) as i32,
                w: filled as i32,
                h: (b.h - 8) as i32,
            },
        ),
        gate_ops(b, filled, open, offset)[gate_ops(b, filled, open, offset).len() - 6]
            == DrawOp::SetColor(Paint::Theme(ThemeColor::Danger)),
        gate_ops(b, filled, open, offset)[gate_ops(b, filled, open, offset).len() - 5]
            == DrawOp::LineWidth(2),
        gate_ops(b, filled, open, offset)[gate_ops(b, filled, open, offset).len() - 4] == (
        DrawOp::Line {
            x1: (b.x + 2 + offset) as i32,
            y1: (b.y + 2) as i32,
            x2: (b.x + 2 + offset) as i32,
            y2: (b.y + b.h - 2) as i32,
        }),
        gate_ops(b, filled, open, offset)[gate_ops(b, filled, open, offset).len() - 3]
            == DrawOp::LineWidth(1),
        gate_ops(b, filled, open, offset)[gate_ops(b, filled, open, offset).len() - 2]
            == DrawOp::SetColor(Paint::Theme(ThemeColor::Border)),
        gate_ops(b, filled, open, offset)[gate_ops(b, filled, open, offset).len() - 1]
            == DrawOp::StrokeRect(b),
{
    let ops = gate_ops(b, filled, open, offset);
    let pre = background_ops(b) + bar_ops(b, GATE_INSET_Y as int, filled, gate_paint(open));
    assert(ops == pre + (marker_ops(b, offset) + border_ops(b)));
}

/// When the frame's coordinates fit in `i32`, the bar's rectangle is
/// exactly `filled` pixels wide, at `x + 2` and `y + inset_y`, and as tall
/// as the frame less `inset_y` above and below.
pub proof fn lemma_bar_rect_exact(b: Bounds, inset_y: int, filled: int)
    requires
        bar_fits(b, inset_y),
        fits_i32(filled),
    ensures
        bar_rect(b, inset_y, filled).x == b.x + 2,
        bar_rect(b, inset_y, filled).y == b.y + inset_y,
        bar_rect(b, inset_y, filled).w == filled,
        bar_rect(b, inset_y, filled).h == b.h - 2 * inset_y,
{
}

/// When the marker's coordinates fit in `i32`, its line runs at
/// `x + 2 + offset` from `y + 2` to `y + h - 2`: it spans the frame's
/// height less 2 px at each end.
pub proof fn lemma_marker_line_exact(b: Bounds, filled: int, open: bool, offset: int)
    requires
        marker_fits(b, offset),
    ensures
        ({
            let ops = gate_ops(b, filled, open, offset);
            let line = ops[ops.len() - 4];
            &&& line is Line
            &&& line->x1 == b.x + 2 + offset
            &&& line->x2 == b.x + 2 + offset
            &&& line->y1 == b.y + 2
            &&& line->y2 == b.y + b.h - 2
            &&& line->y2 - line->y1 == b.h - 4
        }),
{
    lemma_gate_steps(b, filled, open, offset);
}

} // verus!
