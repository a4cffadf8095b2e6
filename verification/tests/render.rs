use mctk::layout::{Layout, Size};
use mctk::node::Node;
use mctk::renderables::Renderable;
use mctk::types::{Color, PixelSize, Pos, Scale};
use mctk::ui::UI;
use mctk::widgets::{Div, Image, Svg, Toggle, Widget};

fn sized(width: i64, height: i64) -> Layout {
    Layout::new().size(Size::px(width, height))
}

fn image(name: &str) -> Node<Widget> {
    Node::new(Widget::Image(Image::new(name.to_string())), sized(10, 20))
}

fn ui() -> UI<Widget> {
    UI::new(PixelSize { width: 800, height: 600 }, 2)
}

#[test]
fn an_unchanged_node_is_not_drawn_again() {
    let mut ui = ui();
    ui.draw(image("logo"));
    assert_eq!(ui.render(), 1);
    let first = format!("{:?}", ui.root.as_ref().unwrap().renderables());
    let hash = ui.root.as_ref().unwrap().render_hash;
    assert!(hash.is_some());
    assert_eq!(ui.render(), 0);
    assert_eq!(ui.render(), 0);
    assert_eq!(format!("{:?}", ui.root.as_ref().unwrap().renderables()), first);
    assert_eq!(ui.root.as_ref().unwrap().render_hash, hash);
    // rebuilding with the same description keeps the cache
    ui.draw(image("logo"));
    assert_eq!(ui.render(), 0);
    assert_eq!(format!("{:?}", ui.root.as_ref().unwrap().renderables()), first);
}

#[test]
fn what_an_image_draws() {
    let mut ui = ui();
    ui.draw(image("logo"));
    ui.render();
    let drawn = ui.root.as_ref().unwrap().renderables();
    assert_eq!(drawn.len(), 1);
    match &drawn[0] {
        Renderable::Image(i) => {
            assert_eq!(i.instance_data.name, "logo");
            assert_eq!(i.instance_data.pos, Pos::new(0, 0, 0));
            assert_eq!(i.instance_data.scale, Scale::new(10, 20));
            assert_eq!(i.instance_data.radius, 4);
            assert_eq!(i.instance_data.dynamic_load_from, None);
        },
        other => panic!("not an image: {:?}", other),
    }
}

#[test]
fn a_changed_input_draws_again() {
    let mut ui = ui();
    ui.draw(image("logo"));
    assert_eq!(ui.render(), 1);
    ui.draw(image("other"));
    assert_eq!(ui.render(), 1);
    assert_eq!(ui.render(), 0);
}

#[test]
fn a_changed_box_or_scale_factor_draws_again() {
    let mut ui = ui();
    ui.draw(image("logo"));
    assert_eq!(ui.render(), 1);
    ui.draw(Node::new(Widget::Image(Image::new("logo".to_string())), sized(11, 20)));
    assert_eq!(ui.render(), 1);
    assert_eq!(ui.render(), 0);
    ui.set_scale_factor(3);
    assert_eq!(ui.render(), 1);
    assert_eq!(ui.render(), 0);
}

#[test]
fn a_dynamic_source_is_drawn_every_time() {
    let mut ui = ui();
    let dynamic = Image::new("photo".to_string()).dynamic_load_from(Some("/tmp/p.png".to_string()));
    ui.draw(Node::new(Widget::Image(dynamic), sized(10, 20)));
    assert_eq!(ui.render(), 1);
    assert_eq!(ui.render(), 1);
    assert_eq!(ui.root.as_ref().unwrap().render_hash, None);
    let mut ui2 = UI::new(PixelSize { width: 800, height: 600 }, 2);
    let dynamic = Svg::new("icon".to_string()).dynamic_load_from(Some("/tmp/i.svg".to_string()));
    ui2.draw(Node::new(Widget::Svg(dynamic), sized(10, 20)));
    assert_eq!(ui2.render(), 1);
    assert_eq!(ui2.render(), 1);
    let mut ui3 = UI::new(PixelSize { width: 800, height: 600 }, 2);
    ui3.draw(Node::new(Widget::Svg(Svg::new("icon".to_string())), sized(10, 20)));
    assert_eq!(ui3.render(), 1);
    assert_eq!(ui3.render(), 0);
}

#[test]
fn a_component_that_declares_nothing_is_drawn_every_time() {
    let mut ui = ui();
    ui.draw(Node::new(Widget::Div(Div::new().bg(Color::rgb(1, 2, 3))), sized(10, 20)));
    assert_eq!(ui.render(), 1);
    assert_eq!(ui.render(), 1);
    assert_eq!(ui.root.as_ref().unwrap().renderables().len(), 1);
}

#[test]
fn only_the_changed_leaf_is_drawn_again() {
    let tree = |second: &str| {
        Node::new(Widget::Svg(Svg::new("frame".to_string())), sized(100, 100))
            .push(image("a"))
            .push(image(second))
            .push(image("c"))
    };
    let mut ui = ui();
    ui.draw(tree("b"));
    assert_eq!(ui.render(), 4);
    assert_eq!(ui.render(), 0);
    ui.draw(tree("changed"));
    assert_eq!(ui.render(), 1);
    assert_eq!(ui.render(), 0);
}

#[test]
fn a_toggle_is_drawn_again_when_it_flips() {
    let mut ui = ui();
    ui.draw(Node::new(Widget::Toggle(Toggle::new(false)), sized(60, 30)));
    let all = ui.render();
    // the toggle and the five nodes it projects itself into: housing, knob,
    // track, label box, text
    assert_eq!(all, 6);
    // the toggle itself keeps its cache; the boxes and the text declare nothing
    assert_eq!(ui.render(), 5);
    let hash = ui.root.as_ref().unwrap().render_hash;
    match &mut ui.root.as_mut().unwrap().component {
        Widget::Toggle(t) => t.state.pressed = true,
        _ => panic!("the root is the toggle"),
    }
    assert_eq!(ui.render(), 6);
    assert_ne!(ui.root.as_ref().unwrap().render_hash, hash);
}
