use mctk::layout::{Dimension, Layout, PositionType, Rect, Size};
use mctk::node::Node;
use mctk::types::{Point, Scale, PixelSize};
use mctk::ui::UI;
use mctk::widgets::{Button, Div, Scrollable, Widget};

fn div(layout: Layout) -> Node<Widget> {
    Node::new(Widget::Div(Div::new()), layout)
}

fn sized(width: i64, height: i64) -> Layout {
    Layout::new().size(Size::px(width, height))
}

fn at(x: i64, y: i64) -> Point {
    Point::new(x, y)
}

#[test]
fn button_filling_a_div_is_hit_and_outside_is_not() {
    let mut ui: UI<Widget> = UI::new(PixelSize { width: 800, height: 600 }, 1);
    let button = Node::new(
        Widget::Button(Button::new("ok".to_string())),
        Layout::new().size(Size::pct(100, 100)),
    );
    ui.draw(div(sized(100, 100)).push(button));
    let hit = ui.under(at(50, 50)).expect("the point is inside");
    assert!(hit.len() >= 1);
    assert_eq!(hit[0], 0);
    let root = ui.root.as_ref().unwrap();
    assert!(matches!(root.children[0].component, Widget::Button(_)));
    assert_eq!(root.children[0].aabb.size, Scale::new(100, 100));
    assert_eq!(ui.under(at(150, 150)), None);
    assert_eq!(ui.under(at(100, 100)), None);
    assert!(ui.under(at(0, 0)).is_some());
    assert!(ui.under(at(99, 99)).is_some());
}

#[test]
fn a_leaf_is_hit_inside_its_box_only() {
    let mut root = div(sized(10, 20));
    root.layout(Scale::new(100, 100), 1);
    assert_eq!(root.hit_test(at(0, 0)), Some(vec![]));
    assert_eq!(root.hit_test(at(9, 19)), Some(vec![]));
    assert_eq!(root.hit_test(at(10, 0)), None);
    assert_eq!(root.hit_test(at(0, 20)), None);
    assert_eq!(root.hit_test(at(-1, 0)), None);
}

#[test]
fn the_deepest_node_wins() {
    let mut root = div(sized(100, 100))
        .push(div(sized(50, 50)).push(div(sized(10, 10))))
        .push(div(sized(50, 50)));
    root.layout(Scale::new(100, 100), 1);
    assert_eq!(root.hit_test(at(5, 5)), Some(vec![0, 0]));
    assert_eq!(root.hit_test(at(20, 20)), Some(vec![0]));
    assert_eq!(root.hit_test(at(60, 20)), Some(vec![1]));
    assert_eq!(root.hit_test(at(60, 60)), Some(vec![]));
}

#[test]
fn later_siblings_win_ties_and_depth_beats_order() {
    let over = |layout: Layout| div(layout.position_type(PositionType::Absolute));
    let mut root = div(sized(100, 100))
        .push(over(sized(50, 50)))
        .push(over(sized(50, 50)));
    root.layout(Scale::new(100, 100), 1);
    assert_eq!(root.hit_test(at(5, 5)), Some(vec![1]));
    let mut raised = div(sized(100, 100))
        .push(over(sized(50, 50).z_index_increment(1)))
        .push(over(sized(50, 50)));
    raised.layout(Scale::new(100, 100), 1);
    assert_eq!(raised.hit_test(at(5, 5)), Some(vec![0]));
}

#[test]
fn absolute_children_are_hit_outside_their_parent_and_flow_children_are_not() {
    let mut root = div(sized(10, 10))
        .push(div(sized(50, 5)))
        .push(
            div(sized(20, 20)
                .position_type(PositionType::Absolute)
                .position(Rect::new(Dimension::Px(30), Dimension::Auto, Dimension::Auto, Dimension::Px(30)))),
        );
    root.layout(Scale::new(100, 100), 1);
    assert_eq!(root.hit_test(at(35, 35)), Some(vec![1]));
    assert_eq!(root.hit_test(at(20, 2)), None);
    assert_eq!(root.hit_test(at(5, 2)), Some(vec![0]));
}

#[test]
fn a_scrolled_container_translates_the_point_and_skips_its_last_shutter() {
    let mut scrollable = Scrollable::new(Size::px(100, 50));
    scrollable.state.scroll_position.y = 30;
    let mut root = Node::new(Widget::Scrollable(scrollable), Layout::new())
        .push(div(sized(100, 50)))
        .push(div(sized(100, 200)).push(div(sized(100, 40))).push(div(sized(100, 40))))
        .push(div(sized(100, 50)));
    root.layout(Scale::new(800, 600), 1);
    assert_eq!(root.aabb.size, Scale::new(100, 50));
    // all children of a component with full control start at its corner
    assert_eq!(root.children[1].aabb.pos.y, 0);
    assert_eq!(root.children[2].aabb.pos.y, 0);
    // the point (5, 5) is seen by the content at (5, 35)
    assert_eq!(root.hit_test(at(5, 5)), Some(vec![1, 0]));
    // child 2 is not among the children that take part
    let mut unscrolled = Node::new(Widget::Scrollable(Scrollable::new(Size::px(100, 50))), Layout::new())
        .push(div(sized(10, 10)))
        .push(div(sized(10, 10)))
        .push(div(sized(100, 50)));
    unscrolled.layout(Scale::new(800, 600), 1);
    assert_eq!(unscrolled.hit_test(at(50, 25)), Some(vec![]));
    assert_eq!(unscrolled.hit_test(at(5, 5)), Some(vec![1]));
}
