use plotters_gtk4::common::{
    draw_circle, draw_line, draw_path, draw_pixel, draw_rect, draw_text, estimate_text_size,
    fill_polygon,
};
use plotters_gtk4::scene::{
    Bounds, Color, FillRule, FloatBits, HalfOffset, Node, PathOp, Recorder, Slant, Style,
};
use plotters_gtk4::text::{
    configure_layout, layout_set_style, FontStyle, FontTransform, HPos, TextStyle, VPos,
};

fn color() -> Color {
    Color { red: 255, green: 128, blue: 0, alpha: FloatBits(0.5f64.to_bits()) }
}

fn style() -> Style {
    Style { color: color(), stroke_width: 3 }
}

fn text_style(h_pos: HPos, v_pos: VPos, transform: FontTransform) -> TextStyle {
    TextStyle {
        family: String::from("sans-serif"),
        size: FloatBits(12.0f64.to_bits()),
        style: FontStyle::Normal,
        h_pos,
        v_pos,
        transform,
        color: color(),
    }
}

fn path_of(node: &Node) -> Vec<PathOp> {
    match node {
        Node::Stroke { path, .. } => path.ops().clone(),
        Node::Fill { path, .. } => path.ops().clone(),
        _ => panic!("not a path node: {:?}", node),
    }
}

#[test]
fn pixel_is_unit_color_rect() {
    let mut r = Recorder::new();
    draw_pixel(&mut r, (4, -7), color());
    assert_eq!(
        r.nodes(),
        &vec![Node::ColorRect {
            color: color(),
            bounds: Bounds { x: 4, y: -7, width: 1, height: 1 }
        }]
    );
}

#[test]
fn line_is_two_point_stroke() {
    let mut r = Recorder::new();
    draw_line(&mut r, (1, 2), (30, 40), &style());
    assert_eq!(r.len(), 1);
    match &r.nodes()[0] {
        Node::Stroke { path, width, color: c } => {
            assert_eq!(path.ops(), &vec![PathOp::MoveTo(1, 2), PathOp::LineTo(30, 40)]);
            assert_eq!(*width, 3);
            assert_eq!(*c, color());
        }
        n => panic!("unexpected node {:?}", n),
    }
}

#[test]
fn filled_rect_is_one_color_node() {
    let mut r = Recorder::new();
    draw_rect(&mut r, (10, 20), (110, 70), &style(), true);
    assert_eq!(
        r.nodes(),
        &vec![Node::ColorRect {
            color: color(),
            bounds: Bounds { x: 10, y: 20, width: 100, height: 50 }
        }]
    );
}

#[test]
fn outlined_rect_is_border_of_stroke_width() {
    let mut r = Recorder::new();
    draw_rect(&mut r, (10, 20), (110, 70), &style(), false);
    assert_eq!(
        r.nodes(),
        &vec![Node::Border {
            bounds: Bounds { x: 10, y: 20, width: 100, height: 50 },
            width: 3,
            color: color()
        }]
    );
}

#[test]
fn reversed_rect_corners_give_negative_extents() {
    let mut r = Recorder::new();
    draw_rect(&mut r, (110, 70), (10, 20), &style(), true);
    assert_eq!(
        r.nodes(),
        &vec![Node::ColorRect {
            color: color(),
            bounds: Bounds { x: 110, y: 70, width: -100, height: -50 }
        }]
    );
}

#[test]
fn rect_extents_at_integer_limits_do_not_overflow() {
    let mut r = Recorder::new();
    draw_rect(&mut r, (i32::MIN, i32::MIN), (i32::MAX, i32::MAX), &style(), true);
    match &r.nodes()[0] {
        Node::ColorRect { bounds, .. } => {
            assert_eq!(bounds.width, u32::MAX as i64);
            assert_eq!(bounds.height, u32::MAX as i64);
        }
        n => panic!("unexpected node {:?}", n),
    }
}

#[test]
fn path_is_open_polyline() {
    let mut r = Recorder::new();
    draw_path(&mut r, &[(0, 0), (10, 0), (10, 10), (0, 0)], &style());
    assert_eq!(r.len(), 1);
    assert_eq!(
        path_of(&r.nodes()[0]),
        vec![
            PathOp::MoveTo(0, 0),
            PathOp::LineTo(10, 0),
            PathOp::LineTo(10, 10),
            PathOp::LineTo(0, 0)
        ]
    );
    assert!(matches!(r.nodes()[0], Node::Stroke { width: 3, .. }));
}

#[test]
fn single_point_path_is_a_move() {
    let mut r = Recorder::new();
    draw_path(&mut r, &[(5, 6)], &style());
    assert_eq!(path_of(&r.nodes()[0]), vec![PathOp::MoveTo(5, 6)]);
}

#[test]
fn empty_path_and_polygon_append_nothing() {
    let mut r = Recorder::new();
    draw_pixel(&mut r, (0, 0), color());
    let before = r.len();
    draw_path(&mut r, &[], &style());
    fill_polygon(&mut r, &[], &style(), FillRule::Winding);
    assert_eq!(r.len(), before);
}

#[test]
fn polygon_is_closed_even_when_already_closed() {
    let mut r = Recorder::new();
    fill_polygon(&mut r, &[(0, 0), (4, 0), (0, 4), (0, 0)], &style(), FillRule::EvenOdd);
    assert_eq!(
        path_of(&r.nodes()[0]),
        vec![
            PathOp::MoveTo(0, 0),
            PathOp::LineTo(4, 0),
            PathOp::LineTo(0, 4),
            PathOp::LineTo(0, 0),
            PathOp::Close
        ]
    );
    assert!(matches!(r.nodes()[0], Node::Fill { rule: FillRule::EvenOdd, .. }));
}

#[test]
fn circle_filled_or_stroked() {
    let mut r = Recorder::new();
    draw_circle(&mut r, (50, 60), 7, &style(), true, FillRule::Winding);
    draw_circle(&mut r, (50, 60), 7, &style(), false, FillRule::Winding);
    let circle = vec![PathOp::Circle { cx: 50, cy: 60, radius: 7 }];
    assert_eq!(path_of(&r.nodes()[0]), circle);
    assert!(matches!(r.nodes()[0], Node::Fill { rule: FillRule::Winding, .. }));
    assert_eq!(path_of(&r.nodes()[1]), circle);
    assert!(matches!(r.nodes()[1], Node::Stroke { width: 3, .. }));
}

#[test]
fn font_styles_set_slant_or_weight() {
    let mut s = text_style(HPos::Left, VPos::Top, FontTransform::Identity);
    let cases = [
        (FontStyle::Normal, Some(Slant::Normal), false),
        (FontStyle::Bold, None, true),
        (FontStyle::Italic, Some(Slant::Italic), false),
        (FontStyle::Oblique, Some(Slant::Oblique), false),
    ];
    for (style, slant, bold) in cases {
        s.style = style;
        let f = layout_set_style(&s);
        assert_eq!(f.slant, slant);
        assert_eq!(f.bold, bold);
        assert_eq!(f.family, "sans-serif");
        assert_eq!(f.absolute_size, FloatBits(12.0f64.to_bits()));
    }
}

#[test]
fn layout_configuration_is_stable_across_calls() {
    let a = text_style(HPos::Left, VPos::Top, FontTransform::Identity);
    let mut b = text_style(HPos::Left, VPos::Top, FontTransform::Identity);
    b.style = FontStyle::Bold;
    let first = configure_layout("hello", &a);
    let _other = configure_layout("other text", &b);
    let second = configure_layout("hello", &a);
    assert_eq!(first, second);
    assert_eq!(first.text, "hello");
    assert_eq!(estimate_text_size(50, 20), estimate_text_size(50, 20));
    assert_eq!(estimate_text_size(50, 20), (50, 20));
}

fn translations(r: &Recorder) -> Vec<&Node> {
    r.nodes().iter().filter(|n| !matches!(n, Node::Text { .. })).collect()
}

#[test]
fn text_left_top_places_at_position() {
    let mut r = Recorder::new();
    let s = text_style(HPos::Left, VPos::Top, FontTransform::Identity);
    draw_text(&mut r, "label", &s, (100, 100), 50, 20);
    assert_eq!(
        translations(&r),
        vec![&Node::Save, &Node::Translate(HalfOffset { x2: 200, y2: 200 }), &Node::Restore]
    );
    match &r.nodes()[2] {
        Node::Text { layout, color: c } => {
            assert_eq!(layout.text, "label");
            assert_eq!(*c, color());
        }
        n => panic!("unexpected node {:?}", n),
    }
}

#[test]
fn text_center_center_places_half_extents_back() {
    let mut r = Recorder::new();
    let s = text_style(HPos::Center, VPos::Center, FontTransform::Identity);
    draw_text(&mut r, "label", &s, (100, 100), 50, 20);
    assert_eq!(
        translations(&r),
        vec![&Node::Save, &Node::Translate(HalfOffset { x2: 150, y2: 180 }), &Node::Restore]
    );
}

#[test]
fn text_right_bottom_places_full_extents_back() {
    let mut r = Recorder::new();
    let s = text_style(HPos::Right, VPos::Bottom, FontTransform::Identity);
    draw_text(&mut r, "label", &s, (100, 100), 50, 20);
    assert_eq!(
        translations(&r),
        vec![&Node::Save, &Node::Translate(HalfOffset { x2: 100, y2: 160 }), &Node::Restore]
    );
}

#[test]
fn rotated_text_translates_rotates_then_offsets() {
    let mut r = Recorder::new();
    let s = text_style(HPos::Center, VPos::Top, FontTransform::Rotate90);
    draw_text(&mut r, "label", &s, (100, 100), 51, 20);
    assert_eq!(
        translations(&r),
        vec![&Node::Save, &Node::Translate(HalfOffset { x2: 200, y2: 200 }), &Node::Rotate(90), &Node::Translate(HalfOffset { x2: -51, y2: 0 }), &Node::Restore]
    );
}
