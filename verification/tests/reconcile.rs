use mctk::event::{Event, EventKind};
use mctk::layout::{Layout, Size};
use mctk::node::Node;
use mctk::types::{PixelSize, Point, Scale};
use mctk::ui::UI;
use mctk::widgets::{Button, Div, SlideBar, Text, Toggle, Widget};

fn div(layout: Layout) -> Node<Widget> {
    Node::new(Widget::Div(Div::new()), layout)
}

fn sized(width: i64, height: i64) -> Layout {
    Layout::new().size(Size::px(width, height))
}

fn button(label: &str, key: u64) -> Node<Widget> {
    Node::new(Widget::Button(Button::new(label.to_string())), sized(50, 40)).key(key)
}

fn pair(first: &str, second: &str) -> Node<Widget> {
    div(sized(200, 100)).push(button(first, 1)).push(button(second, 2))
}

fn is_pressed(node: &Node<Widget>) -> bool {
    match &node.component {
        Widget::Button(b) => b.state.pressed,
        Widget::Toggle(t) => t.state.pressed,
        _ => panic!("neither a button nor a toggle"),
    }
}

fn label_of(node: &Node<Widget>) -> String {
    match &node.component {
        Widget::Button(b) => b.label.clone(),
        Widget::Text(t) => t.label.clone(),
        _ => panic!("neither a button nor a text"),
    }
}

fn press_first(ui: &mut UI<Widget>) {
    let down = Event::new(EventKind::MouseDown, Point::new(1, 1));
    ui.root.as_mut().unwrap().dispatch(&vec![0], &down);
}

#[test]
fn a_changed_sibling_does_not_reset_the_state_of_a_node() {
    let mut ui: UI<Widget> = UI::new(PixelSize { width: 800, height: 600 }, 1);
    ui.draw(pair("a", "b"));
    press_first(&mut ui);
    assert!(is_pressed(&ui.root.as_ref().unwrap().children[0]));
    ui.draw(pair("a", "changed"));
    let root = ui.root.as_ref().unwrap();
    assert!(is_pressed(&root.children[0]));
    assert!(!is_pressed(&root.children[1]));
    assert_eq!(label_of(&root.children[1]), "changed");
    // the label inside the second button is projected anew
    assert_eq!(label_of(&root.children[1].children[0].children[0]), "changed");
    assert_eq!(label_of(&root.children[0].children[0].children[0]), "a");
}

#[test]
fn changed_properties_of_the_node_itself_keep_its_state_too() {
    let mut ui: UI<Widget> = UI::new(PixelSize { width: 800, height: 600 }, 1);
    ui.draw(pair("a", "b"));
    press_first(&mut ui);
    ui.draw(pair("renamed", "b"));
    let root = ui.root.as_ref().unwrap();
    assert!(is_pressed(&root.children[0]));
    assert_eq!(label_of(&root.children[0]), "renamed");
}

#[test]
fn another_key_or_another_kind_starts_afresh() {
    let mut ui: UI<Widget> = UI::new(PixelSize { width: 800, height: 600 }, 1);
    ui.draw(pair("a", "b"));
    press_first(&mut ui);
    ui.draw(div(sized(200, 100)).push(button("a", 7)).push(button("b", 2)));
    assert!(!is_pressed(&ui.root.as_ref().unwrap().children[0]));
    press_first(&mut ui);
    let toggle = Node::new(Widget::Toggle(Toggle::new(false)), sized(50, 40)).key(7);
    ui.draw(div(sized(200, 100)).push(toggle).push(button("b", 2)));
    assert!(!is_pressed(&ui.root.as_ref().unwrap().children[0]));
}

#[test]
fn a_node_that_moves_to_another_place_starts_afresh() {
    let mut ui: UI<Widget> = UI::new(PixelSize { width: 800, height: 600 }, 1);
    ui.draw(pair("a", "b"));
    press_first(&mut ui);
    ui.draw(div(sized(200, 100)).push(button("b", 2)).push(button("a", 1)));
    let root = ui.root.as_ref().unwrap();
    assert!(!is_pressed(&root.children[0]));
    assert!(!is_pressed(&root.children[1]));
}

#[test]
fn a_removed_node_is_gone_and_a_new_one_is_initialized() {
    let mut ui: UI<Widget> = UI::new(PixelSize { width: 800, height: 600 }, 1);
    ui.draw(pair("a", "b"));
    ui.draw(div(sized(200, 100)).push(button("a", 1)));
    assert_eq!(ui.root.as_ref().unwrap().children.len(), 1);
    ui.draw(pair("a", "b").push(button("c", 3)));
    assert_eq!(ui.root.as_ref().unwrap().children.len(), 3);
}

fn toggle(active: bool) -> Node<Widget> {
    div(sized(200, 100)).push(Node::new(Widget::Toggle(Toggle::new(active)), sized(60, 30)))
}

#[test]
fn state_follows_the_properties_only_when_they_change() {
    let mut ui: UI<Widget> = UI::new(PixelSize { width: 800, height: 600 }, 1);
    ui.draw(toggle(false));
    press_first(&mut ui);
    assert!(is_pressed(&ui.root.as_ref().unwrap().children[0]));
    // the same properties: the state stays
    ui.draw(toggle(false));
    assert!(is_pressed(&ui.root.as_ref().unwrap().children[0]));
    // the property changes: the state follows it
    ui.draw(toggle(true));
    assert!(is_pressed(&ui.root.as_ref().unwrap().children[0]));
    press_first(&mut ui);
    assert!(!is_pressed(&ui.root.as_ref().unwrap().children[0]));
    ui.draw(toggle(false));
    assert!(!is_pressed(&ui.root.as_ref().unwrap().children[0]));
    ui.draw(toggle(true));
    assert!(is_pressed(&ui.root.as_ref().unwrap().children[0]));
}

#[test]
fn the_projection_shows_the_state_that_was_carried_over() {
    let mut ui: UI<Widget> = UI::new(PixelSize { width: 800, height: 600 }, 1);
    ui.draw(toggle(false));
    let label = |ui: &UI<Widget>| {
        let toggle = &ui.root.as_ref().unwrap().children[0];
        // housing, track, label box, text
        label_of(&toggle.children[0].children[1].children[0].children[0])
    };
    assert_eq!(label(&ui), "OFF");
    press_first(&mut ui);
    ui.draw(toggle(false));
    assert_eq!(label(&ui), "ON");
}

#[test]
fn boxes_and_hashes_are_carried_over() {
    let mut ui: UI<Widget> = UI::new(PixelSize { width: 800, height: 600 }, 1);
    ui.draw(toggle(false));
    let before = ui.root.as_ref().unwrap().children[0].aabb;
    assert_eq!(before.size, Scale::new(60, 30));
    let hash = ui.root.as_ref().unwrap().children[0].props_hash;
    assert!(hash.is_some());
    let fresh = toggle(false);
    assert_eq!(fresh.children[0].aabb.size, Scale::new(0, 0));
    let rebuilt = fresh.build(ui.root.take(), 8);
    assert_eq!(rebuilt.children[0].aabb, before);
    assert_eq!(rebuilt.children[0].props_hash, hash);
    assert_eq!(rebuilt.children[0].props_key(), hash);
}

#[test]
fn components_project_themselves_only_so_deep() {
    let tree = Node::new(Widget::Button(Button::new("b".to_string())), sized(50, 40));
    let shallow = tree.build(None, 0);
    assert!(shallow.children.is_empty());
    assert!(!shallow.projected);
    let tree = Node::new(Widget::Button(Button::new("b".to_string())), sized(50, 40));
    let deep = tree.build(None, 1);
    assert_eq!(deep.children.len(), 1);
    assert!(deep.projected);
    assert_eq!(deep.children[0].children.len(), 1);
    assert!(matches!(deep.children[0].children[0].component, Widget::Text(_)));
}

#[test]
fn a_new_slide_bar_starts_from_its_value() {
    let bar = SlideBar::new().value(40).col_width(10).col_spacing(5).row_spacing(5);
    let mut tree = Node::new(Widget::SlideBar(bar), sized(100, 40)).build(None, 8);
    match &tree.component {
        Widget::SlideBar(b) => assert_eq!(b.state.value, 40),
        _ => panic!("the root is the slide bar"),
    }
    tree.layout(Scale::new(800, 600), 1);
    match &tree.component {
        Widget::SlideBar(b) => {
            assert_eq!(b.state.grid.len(), 3);
            assert_eq!(b.state.grid[0], vec![true, true, false, false, false, false, false]);
        },
        _ => panic!("the root is the slide bar"),
    }
    let _ = Text::new("unused".to_string());
}
