use mctk::layout::{Alignment, Dimension, Direction, Layout, PositionType, Rect, Size};
use mctk::node::Node;
use mctk::types::{Pos, Scale, AABB, MAX_EXTENT};
use mctk::widgets::{Div, Widget};

fn div(layout: Layout) -> Node<Widget> {
    Node::new(Widget::Div(Div::new()), layout)
}

fn sized(width: i64, height: i64) -> Layout {
    Layout::new().size(Size::px(width, height))
}

fn frame() -> Scale {
    Scale::new(800, 600)
}

fn boxes(node: &Node<Widget>, out: &mut Vec<AABB>) {
    out.push(node.aabb);
    for child in node.children.iter() {
        boxes(child, out);
    }
}

fn aabb(x: i64, y: i64, z: i64, width: i64, height: i64) -> AABB {
    AABB { pos: Pos { x, y, z }, size: Scale { width, height } }
}

#[test]
fn fixed_root_takes_its_size() {
    let mut root = div(sized(400, 300));
    root.layout(frame(), 1);
    assert_eq!(root.aabb, aabb(0, 0, 0, 400, 300));
}

#[test]
fn half_of_a_fixed_parent_of_400_is_200() {
    let mut root = div(sized(400, 300)).push(div(Layout::new().size(Size::pct(50, 50))));
    root.layout(frame(), 1);
    assert_eq!(root.children[0].aabb, aabb(0, 0, 0, 200, 150));
}

#[test]
fn half_of_a_percentage_parent_of_400_is_200() {
    let mut root = div(Layout::new().size(Size::pct(50, 50)))
        .push(div(Layout::new().size(Size::pct(50, 100))));
    root.layout(frame(), 1);
    assert_eq!(root.aabb.size, Scale::new(400, 300));
    assert_eq!(root.children[0].aabb.size, Scale::new(200, 300));
}

#[test]
fn half_of_an_auto_parent_of_400_is_200() {
    let mut root = div(Layout::new())
        .push(div(sized(400, 100)))
        .push(div(Layout::new().size(Size::new(Dimension::Pct(50), Dimension::Px(10)))));
    root.layout(frame(), 1);
    assert_eq!(root.aabb.size, Scale::new(400, 100));
    assert_eq!(root.children[1].aabb.size, Scale::new(200, 10));
    assert_eq!(root.children[1].aabb.pos, Pos::new(400, 0, 0));
}

#[test]
fn percentage_rounds_down() {
    let mut root = div(sized(100, 10))
        .push(div(Layout::new().size(Size::pct(33, 33))));
    root.layout(frame(), 1);
    assert_eq!(root.children[0].aabb.size, Scale::new(33, 3));
}

#[test]
fn auto_column_is_as_high_as_its_children_together() {
    let child = |h: i64| {
        div(Layout::new().size(Size::new(Dimension::Px(100), Dimension::Auto)))
            .push(div(sized(50, h)))
    };
    let mut root = div(
        Layout::new()
            .direction(Direction::Column)
            .size(Size::new(Dimension::Px(200), Dimension::Auto)),
    )
    .push(child(10))
    .push(child(20))
    .push(child(30));
    root.layout(frame(), 1);
    assert_eq!(root.children[0].aabb.size, Scale::new(100, 10));
    assert_eq!(root.children[1].aabb.size, Scale::new(100, 20));
    assert_eq!(root.children[2].aabb.size, Scale::new(100, 30));
    assert_eq!(root.aabb.size, Scale::new(200, 60));
    assert_eq!(root.children[1].aabb.pos, Pos::new(0, 10, 0));
    assert_eq!(root.children[2].aabb.pos, Pos::new(0, 30, 0));
}

#[test]
fn auto_row_is_as_wide_as_its_children_together_and_as_high_as_the_highest() {
    let mut root = div(Layout::new())
        .push(div(sized(10, 5)))
        .push(div(sized(20, 50)))
        .push(div(sized(30, 7)));
    root.layout(frame(), 1);
    assert_eq!(root.aabb.size, Scale::new(60, 50));
    assert_eq!(root.children[2].aabb.pos, Pos::new(30, 0, 0));
    assert_eq!(root.inner_scale, Some(Scale::new(60, 50)));
}

#[test]
fn layout_twice_gives_the_same_boxes() {
    let tree = || {
        div(sized(300, 200).padding(Rect::all(7)).axis_alignment(Alignment::Center))
            .push(div(Layout::new().size(Size::pct(30, 40)).margin(Rect::px(1, 2, 3, 4))))
            .push(
                div(Layout::new().direction(Direction::Column))
                    .push(div(sized(11, 13)))
                    .push(div(sized(17, 19))),
            )
    };
    let mut a = tree();
    let mut b = tree();
    a.layout(frame(), 2);
    b.layout(frame(), 2);
    let mut first = Vec::new();
    let mut second = Vec::new();
    boxes(&a, &mut first);
    boxes(&b, &mut second);
    assert_eq!(first.len(), 5);
    assert_eq!(first, second);
    a.layout(frame(), 2);
    let mut again = Vec::new();
    boxes(&a, &mut again);
    assert_eq!(first, again);
}

#[test]
fn padding_shrinks_the_box_offered_to_children() {
    let mut root = div(sized(100, 100).padding(Rect::all(10)))
        .push(div(Layout::new().size(Size::pct(100, 50))));
    root.layout(frame(), 1);
    assert_eq!(root.children[0].aabb, aabb(10, 10, 0, 80, 40));
}

#[test]
fn margin_moves_a_child_and_its_successor() {
    let mut root = div(sized(200, 100))
        .push(div(sized(20, 20).margin(Rect::px(5, 6, 7, 8))))
        .push(div(sized(10, 10)));
    root.layout(frame(), 1);
    assert_eq!(root.children[0].aabb, aabb(8, 5, 0, 20, 20));
    assert_eq!(root.children[1].aabb, aabb(34, 0, 0, 10, 10));
}

#[test]
fn axis_alignment_centers_and_ends() {
    let mut centered = div(sized(100, 100).axis_alignment(Alignment::Center))
        .push(div(sized(40, 20)));
    centered.layout(frame(), 1);
    assert_eq!(centered.children[0].aabb.pos, Pos::new(30, 0, 0));
    let mut ended = div(sized(100, 100).axis_alignment(Alignment::End))
        .push(div(sized(40, 20)));
    ended.layout(frame(), 1);
    assert_eq!(ended.children[0].aabb.pos, Pos::new(60, 0, 0));
}

#[test]
fn cross_alignment_centers_ends_and_stretches() {
    let mut centered = div(sized(100, 100).cross_alignment(Alignment::Center))
        .push(div(sized(40, 20)));
    centered.layout(frame(), 1);
    assert_eq!(centered.children[0].aabb.pos, Pos::new(0, 40, 0));
    let mut ended = div(sized(100, 100).cross_alignment(Alignment::End))
        .push(div(sized(40, 20)));
    ended.layout(frame(), 1);
    assert_eq!(ended.children[0].aabb.pos, Pos::new(0, 80, 0));
    let mut stretched = div(sized(100, 50).cross_alignment(Alignment::Stretch))
        .push(div(Layout::new().size(Size::new(Dimension::Px(10), Dimension::Auto))))
        .push(div(sized(10, 20)));
    stretched.layout(frame(), 1);
    assert_eq!(stretched.children[0].aabb.size, Scale::new(10, 50));
    assert_eq!(stretched.children[1].aabb.size, Scale::new(10, 20));
}

#[test]
fn minimum_and_maximum_limit_a_size_and_the_minimum_wins() {
    let mut root = div(sized(1000, 1000))
        .push(div(sized(500, 5).max_size(Size::px(100, 100)).min_size(Size::px(10, 10))))
        .push(div(sized(50, 50).max_size(Size::px(20, 20)).min_size(Size::px(30, 30))));
    root.layout(frame(), 1);
    assert_eq!(root.children[0].aabb.size, Scale::new(100, 10));
    assert_eq!(root.children[1].aabb.size, Scale::new(30, 30));
}

#[test]
fn negative_sizes_are_zero_and_huge_ones_are_cut() {
    let mut root = div(sized(-5, i64::MAX)).push(div(sized(i64::MIN, -1)));
    root.layout(frame(), 1);
    assert_eq!(root.aabb.size, Scale::new(0, MAX_EXTENT));
    assert_eq!(root.children[0].aabb.size, Scale::new(0, 0));
}

#[test]
fn zero_sized_parent_gives_zero_to_its_children() {
    let mut root = div(sized(0, 0))
        .push(div(Layout::new().size(Size::pct(100, 100))).push(div(Layout::new())));
    root.layout(frame(), 1);
    assert_eq!(root.children[0].aabb.size, Scale::new(0, 0));
    assert_eq!(root.children[0].children[0].aabb.size, Scale::new(0, 0));
}

#[test]
fn padding_larger_than_the_box_leaves_nothing_inside() {
    let mut root = div(sized(10, 10).padding(Rect::all(20)))
        .push(div(Layout::new().size(Size::pct(100, 100))));
    root.layout(frame(), 1);
    assert_eq!(root.children[0].aabb.size, Scale::new(0, 0));
}

#[test]
fn absolute_children_are_pinned_and_leave_the_flow() {
    let pinned = |position: Rect| {
        div(sized(20, 20).position_type(PositionType::Absolute).position(position))
    };
    let mut root = div(sized(100, 100))
        .push(pinned(Rect::new(Dimension::Px(5), Dimension::Auto, Dimension::Auto, Dimension::Px(10))))
        .push(pinned(Rect::new(Dimension::Auto, Dimension::Px(10), Dimension::Px(5), Dimension::Auto)))
        .push(pinned(Rect::auto()))
        .push(div(sized(30, 30)));
    root.layout(frame(), 1);
    assert_eq!(root.children[0].aabb.pos, Pos::new(10, 5, 0));
    assert_eq!(root.children[1].aabb.pos, Pos::new(70, 75, 0));
    assert_eq!(root.children[2].aabb.pos, Pos::new(0, 0, 0));
    assert_eq!(root.children[3].aabb.pos, Pos::new(0, 0, 0));
    assert_eq!(root.inner_scale, Some(Scale::new(30, 30)));
}

#[test]
fn absolute_children_do_not_count_for_an_auto_parent() {
    let mut root = div(Layout::new())
        .push(div(sized(500, 500).position_type(PositionType::Absolute)))
        .push(div(sized(30, 40)));
    root.layout(frame(), 1);
    assert_eq!(root.aabb.size, Scale::new(30, 40));
}

#[test]
fn depth_adds_up_or_is_set() {
    let mut root = div(sized(10, 10).z_index(3))
        .push(div(sized(1, 1).z_index_increment(5)).push(div(sized(1, 1).z_index_increment(2))))
        .push(div(sized(1, 1).z_index(9)));
    root.layout(frame(), 1);
    assert_eq!(root.aabb.pos.z, 0);
    assert_eq!(root.children[0].aabb.pos.z, 5);
    assert_eq!(root.children[0].children[0].aabb.pos.z, 7);
    assert_eq!(root.children[1].aabb.pos.z, 9);
}

#[test]
fn scale_factor_leaves_logical_layout_alone() {
    let tree = || div(sized(300, 200)).push(div(Layout::new().size(Size::pct(50, 50))));
    let mut one = tree();
    let mut three = tree();
    one.layout(frame(), 1);
    three.layout(frame(), 3);
    assert_eq!(one.aabb, three.aabb);
    assert_eq!(one.children[0].aabb, three.children[0].aabb);
}

#[test]
fn percentage_of_an_auto_parent_uses_the_previous_size_while_measuring() {
    let tree = || {
        div(Layout::new()).push(div(Layout::new().size(Size::new(Dimension::Pct(50), Dimension::Px(10)))))
    };
    let mut root = tree();
    root.layout(frame(), 1);
    assert_eq!(root.aabb.size, Scale::new(0, 10));
    root.aabb.size = Scale::new(100, 10);
    root.layout(frame(), 1);
    assert_eq!(root.aabb.size, Scale::new(50, 10));
    assert_eq!(root.children[0].aabb.size, Scale::new(25, 10));
}

#[test]
fn measure_does_not_need_a_layout() {
    let root = div(Layout::new().padding(Rect::all(3)))
        .push(div(sized(10, 20)))
        .push(div(sized(5, 6)));
    assert_eq!(root.measure(frame()), Scale::new(21, 26));
    assert_eq!(root.outer(frame()), Scale::new(21, 26));
}
