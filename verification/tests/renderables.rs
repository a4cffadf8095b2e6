use mctk::renderables::circle::Instance as CircleInstance;
use mctk::renderables::raw_image::Instance as RawInstance;
use mctk::renderables::rect::Instance as RectInstance;
use mctk::renderables::types::{Borders, CanvasOp, CompositeOperation, Corners, Paint};
use mctk::renderables::{Circle, RawImage, Rect};
use mctk::types::{to_coord, to_extent, to_offset, Color, Point, Pos, Scale, AABB};
use mctk::layout::{Dimension, Size};

fn red() -> Color {
    Color::rgb(255, 0, 0)
}

#[test]
fn a_plain_rectangle_is_filled_and_nothing_else() {
    let r = Rect::new(Pos::new(1, 2, 0), Scale::new(30, 40), red());
    assert_eq!(
        r.render(),
        vec![
            CanvasOp::SetCompositeOperation(CompositeOperation::SourceOver),
            CanvasOp::FillRoundedRect {
                x: 1,
                y: 2,
                width: 30,
                height: 40,
                radius: Corners::none(),
                paint: Paint::Color(red()),
            },
            CanvasOp::SetCompositeOperation(CompositeOperation::SourceOver),
        ]
    );
}

#[test]
fn borders_of_positive_width_are_stroked_in_order() {
    let mut data = RectInstance::new(Pos::new(1, 2, 0), Scale::new(30, 40), red());
    data.border_color = Color::rgb(0, 0, 9);
    data.border_size = Borders { top: 1, left: 0, bottom: 3, right: 4 };
    data.bg_image = Some(77);
    data.composite_operation = CompositeOperation::Xor;
    data.scissor = Some(true);
    let ops = Rect::from_instance_data(data).render();
    let line = |from: (i64, i64), to: (i64, i64), width: i64| CanvasOp::StrokeLine {
        from: Point::new(from.0, from.1),
        to: Point::new(to.0, to.1),
        color: Color::rgb(0, 0, 9),
        width,
    };
    assert_eq!(
        ops,
        vec![
            CanvasOp::SetCompositeOperation(CompositeOperation::Xor),
            CanvasOp::FillRoundedRect {
                x: 1,
                y: 2,
                width: 30,
                height: 40,
                radius: Corners::none(),
                paint: Paint::Image(77),
            },
            line((1, 2), (31, 2), 1),
            line((1, 42), (31, 42), 3),
            line((31, 2), (31, 42), 4),
            CanvasOp::SetCompositeOperation(CompositeOperation::SourceOver),
            CanvasOp::Scissor { x: 1, y: 2, width: 30, height: 40 },
        ]
    );
    let mut lifted = RectInstance::new(Pos::new(0, 0, 0), Scale::new(1, 1), red());
    lifted.scissor = Some(false);
    assert_eq!(Rect::from_instance_data(lifted).render().last(), Some(&CanvasOp::ResetScissor));
}

#[test]
fn a_circle_is_filled_and_outlined_as_it_has_colours() {
    let bare = Circle::new(Pos::new(5, 6, 0), 9);
    assert_eq!(bare.instance_data.border_width, 1);
    assert!(bare.render().is_empty());
    let data = CircleInstance {
        origin: Pos::new(5, 6, 0),
        radius: 9,
        color: Some(red()),
        border_color: Some(Color::rgb(0, 0, 9)),
        border_width: 2,
        bg_image: None,
    };
    assert_eq!(
        Circle::from_instance_data(data).render(),
        vec![
            CanvasOp::FillCircle { x: 5, y: 6, radius: 9, color: red() },
            CanvasOp::StrokeCircle { x: 5, y: 6, radius: 9, color: Color::rgb(0, 0, 9), width: 2 },
        ]
    );
    let outline = CircleInstance { color: None, ..data };
    assert_eq!(Circle::from_instance_data(outline).render().len(), 1);
}

#[test]
fn a_raw_image_without_pixels_only_sets_the_blend_mode() {
    let image = RawImage::new(Pos::new(1, 2, 0), Scale::new(3, 4))
        .composite_operation(CompositeOperation::Lighter);
    assert_eq!(image.instance_data.width, 0);
    assert_eq!(image.render(), vec![CanvasOp::SetCompositeOperation(CompositeOperation::Lighter)]);
    let empty = RawInstance { img_buffer: Some(vec![]), ..image.instance_data.clone() };
    assert_eq!(RawImage::from_instance_data(empty).render().len(), 1);
    let full = RawInstance {
        img_buffer: Some(vec![1, 2, 3, 255]),
        width: 1,
        height: 1,
        radius: 2,
        ..image.instance_data.clone()
    };
    assert_eq!(
        RawImage::from_instance_data(full).render(),
        vec![
            CanvasOp::SetCompositeOperation(CompositeOperation::Lighter),
            CanvasOp::CreateImage { width: 1, height: 1 },
            CanvasOp::FillRoundedRect {
                x: 1,
                y: 2,
                width: 3,
                height: 4,
                radius: Corners::all(2),
                paint: Paint::Created,
            },
            CanvasOp::SetCompositeOperation(CompositeOperation::SourceOver),
        ]
    );
}

#[test]
fn numbers_are_brought_into_range() {
    assert_eq!(to_extent(-1), 0);
    assert_eq!(to_extent(5), 5);
    assert_eq!(to_extent(i64::MAX), 1 << 30);
    assert_eq!(to_offset(i64::MIN), -(1 << 30));
    assert_eq!(to_offset(-7), -7);
    assert_eq!(to_coord(i64::MAX), 1 << 40);
    assert_eq!(to_coord(i64::MIN), -(1 << 40));
}

#[test]
fn a_box_holds_its_left_and_top_edges_only() {
    let b = AABB::new(Pos::new(10, 20, 0), Scale::new(5, 6));
    assert!(b.is_under(Point::new(10, 20)));
    assert!(b.is_under(Point::new(14, 25)));
    assert!(!b.is_under(Point::new(15, 20)));
    assert!(!b.is_under(Point::new(10, 26)));
    assert!(!b.is_under(Point::new(9, 20)));
    assert_eq!(b.width(), 5);
    assert_eq!(b.height(), 6);
    assert_eq!(b.size(), Scale::new(5, 6));
    let mut c = b;
    c.set_scale(-3, 9);
    assert_eq!(c, AABB { pos: Pos::new(10, 20, 0), size: Scale::new(0, 9) });
    assert_eq!(AABB::new(Pos::new(i64::MAX, 0, 0), Scale::new(-1, 1)).pos.x, 1 << 40);
    let far = AABB { pos: Pos::new(i64::MAX, i64::MAX, 0), size: Scale::new(i64::MAX, i64::MAX) };
    assert!(far.is_under(Point::new(i64::MAX, i64::MAX)));
    assert_eq!(AABB::empty(), AABB { pos: Pos::new(0, 0, 0), size: Scale::new(0, 0) });
}

#[test]
fn dimensions_resolve_against_a_reference() {
    assert_eq!(Dimension::Auto.resolve(400), None);
    assert_eq!(Dimension::Px(7).resolve(400), Some(7));
    assert_eq!(Dimension::Px(-7).resolve(400), Some(0));
    assert_eq!(Dimension::Pct(50).resolve(400), Some(200));
    assert_eq!(Dimension::Pct(150).resolve(400), Some(600));
    assert_eq!(Dimension::Pct(-5).resolve(400), Some(0));
    assert_eq!(Dimension::Pct(1).resolve(199), Some(1));
    assert_eq!(Dimension::Pct(i64::MAX).resolve(i64::MAX), Some(1 << 30));
    assert_eq!(Dimension::Auto.resolve_edge(400), 0);
    assert_eq!(Dimension::Px(-7).resolve_edge(400), -7);
    assert_eq!(Dimension::Pct(-5).resolve_edge(400), -20);
    assert_eq!(Dimension::Pct(-1).resolve_edge(150), -2);
    assert_eq!(Dimension::Pct(1).resolve_edge(150), 1);
    assert!(Dimension::Auto.auto());
    assert!(!Dimension::Px(0).auto());
    assert_eq!(Size::px(3, -4).fixed(), (3, 0));
    assert_eq!(Size::pct(3, 4).fixed(), (0, 0));
    assert_eq!(Size::new(Dimension::Px(9), Dimension::Auto).fixed(), (9, 0));
}

#[test]
fn a_physical_box_is_the_logical_box_times_the_scale_factor() {
    let b = AABB::new(Pos::new(10, -20, 3), Scale::new(5, 6));
    assert_eq!(b.physical(1), b);
    assert_eq!(b.physical(2), AABB { pos: Pos::new(20, -40, 3), size: Scale::new(10, 12) });
    assert_eq!(b.physical(0), b);
    assert_eq!(b.physical(-7), b);
    assert_eq!(b.physical(i64::MAX), AABB { pos: Pos::new(10240, -20480, 3), size: Scale::new(5120, 6144) });
    let huge = AABB::new(Pos::new(1 << 40, 0, 0), Scale::new(1 << 30, 1));
    assert_eq!(huge.physical(2), AABB { pos: Pos::new(1 << 40, 0, 0), size: Scale::new(1 << 30, 2) });
}
