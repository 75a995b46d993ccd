//! The drawing primitives: each one turns an abstract draw call into nodes
//! appended to a recorder.
use crate::scene::{
    Bounds, Color, Coord, FillRule, HalfOffset, Node, PathBuilder, PathOp, Recorder, Style,
};
use crate::text::{
    configure_layout, degrees_of, font_of, font_view, rotation_degrees, HPos, TextStyle, VPos,
};
use vstd::prelude::*;

verus! {

/// The path command for one point of a polyline: a move to the first point, a
/// line to each later one.
pub open spec fn polyline_op(points: Seq<Coord>, i: int) -> PathOp {
    if i == 0 {
        PathOp::MoveTo(points[0].0, points[0].1)
    } else {
        PathOp::LineTo(points[i].0, points[i].1)
    }
}

/// The open path through the given points, in order.
pub open spec fn open_path(points: Seq<Coord>) -> Seq<PathOp> {
    Seq::new(points.len(), |i: int| polyline_op(points, i))
}

/// The path through the given points, closed back to the first one.
pub open spec fn closed_path(points: Seq<Coord>) -> Seq<PathOp> {
    open_path(points).push(PathOp::Close)
}

/// The rectangle spanned by two corners, taken as given: the extents are
/// negative when the corners come in the other order.
pub open spec fn rect_bounds(upper_left: Coord, bottom_right: Coord) -> Bounds {
    Bounds {
        x: upper_left.0 as i64,
        y: upper_left.1 as i64,
        width: (bottom_right.0 - upper_left.0) as i64,
        height: (bottom_right.1 - upper_left.1) as i64,
    }
}

pub open spec fn pixel_bounds(point: Coord) -> Bounds {
    Bounds { x: point.0 as i64, y: point.1 as i64, width: 1, height: 1 }
}

pub open spec fn is_stroke(n: Node, path: Seq<PathOp>, style: Style) -> bool {
    n matches Node::Stroke { path: p, width, color } && p@ == path && width == style.stroke_width
        && color == style.color
}

pub open spec fn is_fill(n: Node, path: Seq<PathOp>, rule: FillRule, color: Color) -> bool {
    n matches Node::Fill { path: p, rule: r, color: c } && p@ == path && r == rule && c == color
}

/// Horizontal placement of text in half pixels, from its measured width.
pub open spec fn anchor_dx2(h: HPos, width: int) -> int {
    match h {
        HPos::Left => 0,
        HPos::Center => -width,
        HPos::Right => -2 * width,
    }
}

/// Vertical placement of text in half pixels, from its measured height.
pub open spec fn anchor_dy2(v: VPos, height: int) -> int {
    match v {
        VPos::Top => 2 * height,
        VPos::Center => height,
        VPos::Bottom => 0,
    }
}

pub open spec fn half(x2: int, y2: int) -> HalfOffset {
    HalfOffset { x2: x2 as i64, y2: y2 as i64 }
}

/// The transform nodes that place text before its glyphs are appended: with no
/// rotation one translation to the position plus the anchor offset, less the
/// extents' height; otherwise a translation to the position, the rotation,
/// and the anchor offset less the height.
pub open spec fn text_placement(style: TextStyle, pos: Coord, width: int, height: int) -> Seq<Node> {
    let dx2 = anchor_dx2(style.h_pos, width);
    let dy2 = anchor_dy2(style.v_pos, height) - 2 * height;
    if degrees_of(style.transform) == 0 {
        seq![Node::Save, Node::Translate(half(2 * pos.0 + dx2, 2 * pos.1 + dy2))]
    } else {
        seq![
            Node::Save,
            Node::Translate(half(2 * pos.0, 2 * pos.1)),
            Node::Rotate(degrees_of(style.transform)),
            Node::Translate(half(dx2, dy2)),
        ]
    }
}

/// A run of `text` laid out and colored as `style` asks.
pub open spec fn is_text_run(n: Node, text: Seq<char>, style: TextStyle) -> bool {
    n matches Node::Text { layout, color } && layout.text@ == text && font_view(layout.font)
        == font_of(style) && color == style.color
}

/// `after` is `before` with one node more at its end.
pub open spec fn appended_one(before: Seq<Node>, after: Seq<Node>) -> bool {
    after.len() == before.len() + 1 && after.take(before.len() as int) == before
}

pub open spec fn pixel_drawn(before: Seq<Node>, after: Seq<Node>, point: Coord, color: Color) -> bool {
    after == before.push(Node::ColorRect { color, bounds: pixel_bounds(point) })
}

pub open spec fn line_drawn(
    before: Seq<Node>,
    after: Seq<Node>,
    from: Coord,
    to: Coord,
    style: Style,
) -> bool {
    appended_one(before, after) && is_stroke(
        after.last(),
        seq![PathOp::MoveTo(from.0, from.1), PathOp::LineTo(to.0, to.1)],
        style,
    )
}

pub open spec fn rect_drawn(
    before: Seq<Node>,
    after: Seq<Node>,
    upper_left: Coord,
    bottom_right: Coord,
    style: Style,
    fill: bool,
) -> bool {
    let bounds = rect_bounds(upper_left, bottom_right);
    if fill {
        after == before.push(Node::ColorRect { color: style.color, bounds })
    } else {
        after == before.push(Node::Border { bounds, width: style.stroke_width, color: style.color })
    }
}

pub open spec fn path_drawn(
    before: Seq<Node>,
    after: Seq<Node>,
    points: Seq<Coord>,
    style: Style,
) -> bool {
    if points.len() == 0 {
        after == before
    } else {
        appended_one(before, after) && is_stroke(after.last(), open_path(points), style)
    }
}

pub open spec fn polygon_filled(
    before: Seq<Node>,
    after: Seq<Node>,
    points: Seq<Coord>,
    style: Style,
    rule: FillRule,
) -> bool {
    if points.len() == 0 {
        after == before
    } else {
        appended_one(before, after) && is_fill(after.last(), closed_path(points), rule, style.color)
    }
}

pub open spec fn circle_drawn(
    before: Seq<Node>,
    after: Seq<Node>,
    center: Coord,
    radius: u32,
    style: Style,
    fill: bool,
    rule: FillRule,
) -> bool {
    let path = seq![PathOp::Circle { cx: center.0, cy: center.1, radius }];
    &&& appended_one(before, after)
    &&& fill ==> is_fill(after.last(), path, rule, style.color)
    &&& !fill ==> is_stroke(after.last(), path, style)
}

pub open spec fn text_drawn(
    before: Seq<Node>,
    after: Seq<Node>,
    text: Seq<char>,
    style: TextStyle,
    pos: Coord,
    width: int,
    height: int,
) -> bool {
    let n = before.len() as int;
    let p = text_placement(style, pos, width, height);
    &&& after.len() == n + p.len() + 2
    &&& after.take(n + p.len() as int) == before + p
    &&& is_text_run(after[n + p.len() as int], text, style)
    &&& after.last() == Node::Restore
}

/// The path of a polyline moves to its first point, draws a line to each later
/// point in order, and is never closed.
pub proof fn lemma_polyline_is_open(points: Seq<Coord>)
    requires
        points.len() > 0,
    ensures
        open_path(points).len() == points.len(),
        open_path(points)[0] == PathOp::MoveTo(points[0].0, points[0].1),
        forall|i: int|
            0 < i < points.len() ==> #[trigger] open_path(points)[i] == PathOp::LineTo(
                points[i].0,
                points[i].1,
            ),
        forall|i: int| 0 <= i < points.len() ==> !(#[trigger] open_path(points)[i] is Close),
{
}

/// The path of a filled polygon is the polyline through its points followed by
/// a close, whether or not the last point already equals the first.
pub proof fn lemma_polygon_is_closed(points: Seq<Coord>)
    requires
        points.len() > 0,
    ensures
        closed_path(points).len() == points.len() + 1,
        closed_path(points).take(points.len() as int) == open_path(points),
        closed_path(points).last() == PathOp::Close,
{
    assert(closed_path(points).take(points.len() as int) =~= open_path(points));
}

/// Builds the open polyline through `points`.
fn build_polyline(points: &[Coord]) -> (r: PathBuilder)
    requires
        points@.len() > 0,
    ensures
        r@ == open_path(points@),
{
    let mut builder = PathBuilder::new();
    builder.move_to(points[0].0, points[0].1);
    assert(builder@ =~= open_path(points@.take(1)));
    let mut i: usize = 1;
    while i < points.len()
        invariant
            1 <= i <= points@.len(),
            builder@ == open_path(points@.take(i as int)),
        decreases points@.len() - i,
    {
        builder.line_to(points[i].0, points[i].1);
        assert(builder@ =~= open_path(points@.take(i + 1)));
        i = i + 1;
    }
    assert(points@.take(points@.len() as int) =~= points@);
    builder
}

/// Appends a 1x1 rectangle of `color` at `point`.
pub fn draw_pixel(recorder: &mut Recorder, point: Coord, color: Color)
    ensures
        pixel_drawn(old(recorder)@, final(recorder)@, point, color),
{
    recorder.append(
        Node::ColorRect {
            color,
            bounds: Bounds { x: point.0 as i64, y: point.1 as i64, width: 1, height: 1 },
        },
    );
}

/// Appends a stroked two-point path from `from` to `to`.
pub fn draw_line(recorder: &mut Recorder, from: Coord, to: Coord, style: &Style)
    ensures
        line_drawn(old(recorder)@, final(recorder)@, from, to, *style),
{
    let mut builder = PathBuilder::new();
    builder.move_to(from.0, from.1);
    builder.line_to(to.0, to.1);
    let path = builder.to_path();
    assert(path@ =~= seq![PathOp::MoveTo(from.0, from.1), PathOp::LineTo(to.0, to.1)]);
    recorder.append(Node::Stroke { path, width: style.stroke_width, color: style.color });
    assert(final(recorder)@.take(old(recorder)@.len() as int) =~= old(recorder)@);
}

/// Appends the rectangle between two corners: one filled rectangle when
/// `fill`, else a border whose four edges all take the style's width and color.
pub fn draw_rect(
    recorder: &mut Recorder,
    upper_left: Coord,
    bottom_right: Coord,
    style: &Style,
    fill: bool,
)
    ensures
        rect_drawn(old(recorder)@, final(recorder)@, upper_left, bottom_right, *style, fill),
{
    let bounds = Bounds {
        x: upper_left.0 as i64,
        y: upper_left.1 as i64,
        width: bottom_right.0 as i64 - upper_left.0 as i64,
        height: bottom_right.1 as i64 - upper_left.1 as i64,
    };
    if fill {
        recorder.append(Node::ColorRect { color: style.color, bounds });
    } else {
        recorder.append(Node::Border { bounds, width: style.stroke_width, color: style.color });
    }
}

/// Appends the open polyline through `points` as one stroke; appends nothing
/// for no points.
pub fn draw_path(recorder: &mut Recorder, points: &[Coord], style: &Style)
    ensures
        path_drawn(old(recorder)@, final(recorder)@, points@, *style),
{
    if points.len() > 0 {
        let path = build_polyline(points).to_path();
        recorder.append(Node::Stroke { path, width: style.stroke_width, color: style.color });
        assert(final(recorder)@.take(old(recorder)@.len() as int) =~= old(recorder)@);
    }
}

/// Appends the polygon through `points`, closed, as one region filled by
/// `rule`; appends nothing for no points.
pub fn fill_polygon(recorder: &mut Recorder, points: &[Coord], style: &Style, rule: FillRule)
    ensures
        polygon_filled(old(recorder)@, final(recorder)@, points@, *style, rule),
{
    if points.len() > 0 {
        let mut builder = build_polyline(points);
        builder.close();
        let path = builder.to_path();
        recorder.append(Node::Fill { path, rule, color: style.color });
        assert(final(recorder)@.take(old(recorder)@.len() as int) =~= old(recorder)@);
    }
}

/// Appends the circle about `center`: a region filled by `rule` when `fill`,
/// else a stroke.
pub fn draw_circle(
    recorder: &mut Recorder,
    center: Coord,
    radius: u32,
    style: &Style,
    fill: bool,
    rule: FillRule,
)
    ensures
        circle_drawn(old(recorder)@, final(recorder)@, center, radius, *style, fill, rule),
{
    let mut builder = PathBuilder::new();
    builder.add_circle(center.0, center.1, radius);
    let path = builder.to_path();
    assert(path@ =~= seq![PathOp::Circle { cx: center.0, cy: center.1, radius }]);
    if fill {
        recorder.append(Node::Fill { path, rule, color: style.color });
    } else {
        recorder.append(Node::Stroke { path, width: style.stroke_width, color: style.color });
    }
    assert(final(recorder)@.take(old(recorder)@.len() as int) =~= old(recorder)@);
}

/// The size of a text, from the pixel size its configured layout reports.
pub fn estimate_text_size(pixel_width: i32, pixel_height: i32) -> (r: (u32, u32))
    ensures
        r == (pixel_width as u32, pixel_height as u32),
        pixel_width >= 0 ==> r.0 == pixel_width,
        pixel_height >= 0 ==> r.1 == pixel_height,
{
    (pixel_width as u32, pixel_height as u32)
}

/// Appends `text` drawn at `pos`, placed by the style's anchor and rotation
/// from the measured extents of its layout, between a save and a restore.
pub fn draw_text(
    recorder: &mut Recorder,
    text: &str,
    style: &TextStyle,
    pos: Coord,
    extent_width: i32,
    extent_height: i32,
)
    ensures
        text_drawn(
            old(recorder)@,
            final(recorder)@,
            text@,
            *style,
            pos,
            extent_width as int,
            extent_height as int,
        ),
{
    let layout = configure_layout(text, style);
    let w = extent_width as i64;
    let h = extent_height as i64;
    assert(i32::MIN <= w <= i32::MAX && i32::MIN <= h <= i32::MAX);
    let dx2: i64 = match style.h_pos {
        HPos::Left => 0,
        HPos::Center => -w,
        HPos::Right => 0 - 2 * w,
    };
    let dy2: i64 = match style.v_pos {
        VPos::Top => 2 * h,
        VPos::Center => h,
        VPos::Bottom => 0,
    } - 2 * h;
    let x2 = 2 * (pos.0 as i64);
    let y2 = 2 * (pos.1 as i64);
    assert(-0x1_0000_0000 <= x2 <= 0x1_0000_0000 && -0x1_0000_0000 <= y2 <= 0x1_0000_0000);
    let ghost n = old(recorder)@.len() as int;
    let ghost p = text_placement(*style, pos, extent_width as int, extent_height as int);
    recorder.append(Node::Save);
    let degrees = rotation_degrees(style.transform);
    if degrees == 0 {
        recorder.append(Node::Translate(HalfOffset { x2: x2 + dx2, y2: y2 + dy2 }));
    } else {
        recorder.append(Node::Translate(HalfOffset { x2, y2 }));
        recorder.append(Node::Rotate(degrees));
        recorder.append(Node::Translate(HalfOffset { x2: dx2, y2: dy2 }));
    }
    assert(recorder@ =~= old(recorder)@ + p);
    recorder.append(Node::Text { layout, color: style.color });
    recorder.append(Node::Restore);
    assert(recorder@.take(n + p.len() as int) =~= old(recorder)@ + p);
}

} // verus!
