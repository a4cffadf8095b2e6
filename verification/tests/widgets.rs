use mctk::event::{Event, EventKind, Message, MessageFactory};
use mctk::layout::{Alignment, Dimension, Direction, Layout, PositionType, Rect, Size};
use mctk::node::Node;
use mctk::renderables::types::Corners;
use mctk::renderables::Renderable;
use mctk::style::{StyleKey, StyleVal, Styled};
use mctk::types::{Color, PixelSize, Point, Pos, Scale, AABB};
use mctk::ui::UI;
use mctk::component::{Component, ComponentHasher, RenderContext};
use mctk::widgets::grid::{count_up, fill_grid_with_true, grid_from_positions, make_filled, random_order};
use mctk::widgets::radio_buttons::RADIO_CLICKED;
use mctk::widgets::scrollable::scroll_to;
use mctk::widgets::slide_bar::{count_cells, to_slide_value};
use mctk::widgets::{
    Button, Div, HDivider, IconButton, IconType, Image, RadioButton, RadioButtons,
    RadioButtonsType, RoundedRect, Scrollable, SlideBar, SlideBarType, Svg, Text, Toggle,
    ToggleType, VDivider, Widget,
};

fn event(kind: EventKind) -> Event {
    Event::new(kind, Point::new(0, 0))
}

fn context(width: i64, height: i64) -> RenderContext {
    RenderContext {
        aabb: AABB { pos: Pos::new(10, 20, 0), size: Scale::new(width, height) },
        inner_scale: None,
        scale_factor: 1,
    }
}

fn div_of(node: &Node<Widget>) -> Div {
    match &node.component {
        Widget::Div(d) => *d,
        other => panic!("not a div: {:?}", other),
    }
}

fn rect_of(node: &Node<Widget>) -> RoundedRect {
    match &node.component {
        Widget::RoundedRect(r) => *r,
        other => panic!("not a rounded box: {:?}", other),
    }
}

fn label_of(node: &Node<Widget>) -> String {
    match &node.component {
        Widget::Text(t) => t.label.clone(),
        other => panic!("not a text: {:?}", other),
    }
}

#[test]
fn a_new_button_sends_nothing() {
    let b = Button::new("go".to_string());
    assert_eq!(b.label, "go");
    assert_eq!(b.on_click, None);
    assert_eq!(b.on_press, None);
    assert_eq!(b.on_release, None);
    assert_eq!(b.on_double_click, None);
    assert_eq!(b.tool_tip, None);
    assert!(!b.state.pressed);
    assert!(!b.state.hover);
    assert!(!b.dirty);
    assert_eq!(b.styled, Styled::new());
}

#[test]
fn the_builders_of_a_button_set_one_field_each() {
    let b = Button::new("go".to_string())
        .on_click(MessageFactory::new(1))
        .on_press(MessageFactory::new(2))
        .on_release(MessageFactory::new(3))
        .on_double_click(MessageFactory::new(4))
        .tool_tip("tip".to_string());
    assert_eq!(b.on_click, Some(MessageFactory::new(1)));
    assert_eq!(b.on_press, Some(MessageFactory::new(2)));
    assert_eq!(b.on_release, Some(MessageFactory::new(3)));
    assert_eq!(b.on_double_click, Some(MessageFactory::new(4)));
    assert_eq!(b.tool_tip, Some("tip".to_string()));
    assert_eq!(b.label, "go");
}

#[test]
fn a_button_reports_press_release_click_and_double_click() {
    let mut b = Button::new("go".to_string())
        .on_click(MessageFactory::new(1))
        .on_press(MessageFactory::new(2))
        .on_release(MessageFactory::new(3))
        .on_double_click(MessageFactory::new(4));
    let down = b.on_event(&event(EventKind::MouseDown));
    assert_eq!(down.messages, vec![Message::new(2, 0)]);
    assert!(down.dirty);
    assert!(!down.stop_bubbling);
    assert!(b.state.pressed);
    let up = b.on_event(&event(EventKind::MouseUp));
    assert_eq!(up.messages, vec![Message::new(3, 0)]);
    assert!(!b.state.pressed);
    let click = b.on_event(&event(EventKind::Click));
    assert_eq!(click.messages, vec![Message::new(1, 0)]);
    assert!(!click.dirty);
    assert!(!click.stop_bubbling);
    let double = b.on_event(&event(EventKind::DoubleClick));
    assert_eq!(double.messages, vec![Message::new(4, 0)]);
    let touch = b.on_event(&event(EventKind::TouchDown));
    assert_eq!(touch.messages, vec![Message::new(2, 0)]);
    assert!(b.state.pressed);
    assert_eq!(b.on_event(&event(EventKind::TouchUp)).messages, vec![Message::new(3, 0)]);
}

#[test]
fn a_button_claims_the_start_of_a_drag() {
    let mut b = Button::new("go".to_string());
    b.on_event(&event(EventKind::MouseDown));
    let start = b.on_event(&event(EventKind::DragStart));
    assert!(start.stop_bubbling);
    assert!(start.messages.is_empty());
    assert!(!b.state.pressed);
    b.on_event(&event(EventKind::MouseDown));
    let end = b.on_event(&event(EventKind::DragEnd));
    assert!(!end.stop_bubbling);
    assert!(!b.state.pressed);
    assert!(b.on_event(&event(EventKind::TouchDragStart)).stop_bubbling);
    assert!(!b.on_event(&event(EventKind::TouchDragEnd)).stop_bubbling);
    let quiet = b.on_event(&event(EventKind::Tick));
    assert!(!quiet.dirty && !quiet.stop_bubbling && quiet.messages.is_empty());
    let mut motion = event(EventKind::MouseMotion);
    motion.time_ms = 77;
    let moved = b.on_event(&motion);
    assert!(!moved.dirty);
    assert_eq!(b.state.hover_start, Some(77));
}

#[test]
fn a_button_is_a_frame_with_its_label_inside() {
    let mut b = Button::new("go".to_string());
    b.styled = b.styled.style(StyleKey::Padding, StyleVal::Number(5)).style(
        StyleKey::BorderWidth,
        StyleVal::Number(4),
    );
    let view = b.view().unwrap();
    let frame = rect_of(&view);
    assert_eq!(frame.background_color, Color::rgb(25, 25, 25));
    assert_eq!(frame.border_color, Color::rgb(83, 83, 83));
    assert_eq!(frame.border_width.top, 4);
    assert_eq!(frame.radius, Corners::all(4));
    assert_eq!(view.layout.size, Size::pct(100, 100));
    assert_eq!(view.layout.padding, Rect::all(5));
    assert_eq!(view.layout.margin, Rect::all(2));
    assert_eq!(view.layout.cross_alignment, Alignment::Center);
    assert_eq!(view.layout.axis_alignment, Alignment::Center);
    assert_eq!(view.children.len(), 1);
    assert_eq!(label_of(&view.children[0]), "go");
    b.on_event(&event(EventKind::MouseDown));
    assert_eq!(rect_of(&b.view().unwrap()).background_color, Color::rgb(45, 138, 255));
    b.on_event(&event(EventKind::MouseUp));
    b.state.hover = true;
    assert_eq!(rect_of(&b.view().unwrap()).background_color, Color::rgb(97, 97, 97));
}

#[test]
fn the_builders_of_an_icon_button_set_one_field_each() {
    let b = IconButton::new("icon".to_string());
    assert_eq!(b.icon, "icon");
    assert_eq!(b.icon_type, IconType::Svg);
    assert!(!b.disabled);
    assert_eq!(b.dynamic_load_icon, None);
    let b = b
        .on_click(MessageFactory::new(1))
        .on_press(MessageFactory::new(2))
        .on_release(MessageFactory::new(3))
        .tool_tip("tip".to_string())
        .icon_type(IconType::Png)
        .disabled(true)
        .dynamic_load_icon("/tmp/i.png".to_string());
    assert_eq!(b.on_click, Some(MessageFactory::new(1)));
    assert_eq!(b.on_press, Some(MessageFactory::new(2)));
    assert_eq!(b.on_release, Some(MessageFactory::new(3)));
    assert_eq!(b.tool_tip, Some("tip".to_string()));
    assert_eq!(b.icon_type, IconType::Png);
    assert!(b.disabled);
    assert_eq!(b.dynamic_load_icon, Some("/tmp/i.png".to_string()));
}

#[test]
fn a_disabled_icon_button_ignores_everything_but_motion() {
    let mut b = IconButton::new("icon".to_string())
        .on_click(MessageFactory::new(1))
        .on_press(MessageFactory::new(2))
        .disabled(true);
    for kind in [EventKind::MouseDown, EventKind::Click, EventKind::DragStart, EventKind::TouchUp] {
        let r = b.on_event(&event(kind));
        assert!(r.messages.is_empty() && !r.stop_bubbling && !r.dirty);
    }
    assert!(!b.state.pressed);
    let mut motion = event(EventKind::MouseMotion);
    motion.time_ms = 5;
    b.on_event(&motion);
    assert_eq!(b.state.hover_start, Some(5));
    let mut b = b.disabled(false);
    assert_eq!(b.on_event(&event(EventKind::MouseDown)).messages, vec![Message::new(2, 0)]);
    assert_eq!(b.on_event(&event(EventKind::Click)).messages, vec![Message::new(1, 0)]);
    assert!(b.on_event(&event(EventKind::DragStart)).stop_bubbling);
    assert!(b.on_event(&event(EventKind::DoubleClick)).messages.is_empty());
}

#[test]
fn an_icon_button_is_a_frame_of_fixed_size_with_its_icon_inside() {
    let b = IconButton::new("icon".to_string());
    let view = b.view().unwrap();
    assert_eq!(view.layout.size, Size::px(24, 24));
    assert_eq!(view.children.len(), 1);
    assert_eq!(view.children[0].layout.size, Size::px(22, 22));
    match &view.children[0].component {
        Widget::Svg(s) => {
            assert_eq!(s.name, "icon");
            assert_eq!(s.dynamic_load_from, None);
        },
        other => panic!("{:?}", other),
    }
    let mut b = IconButton::new("icon".to_string())
        .icon_type(IconType::Png)
        .dynamic_load_icon("/tmp/i.png".to_string());
    b.styled = b.styled.style(StyleKey::Size, StyleVal::Size(Size::px(40, 30)));
    let view = b.view().unwrap();
    assert_eq!(view.layout.size, Size::px(40, 30));
    assert_eq!(view.children[0].layout.size, Size::px(38, 28));
    match &view.children[0].component {
        Widget::Image(i) => {
            assert_eq!(i.name, "icon");
            assert_eq!(i.dynamic_load_from, Some("/tmp/i.png".to_string()));
        },
        other => panic!("{:?}", other),
    }
}

#[test]
fn images_keep_their_name_and_source() {
    let i = Image::new("a".to_string());
    assert_eq!(i.name, "a");
    assert_eq!(i.dynamic_load_from, None);
    let i = i.dynamic_load_from(Some("/p".to_string()));
    assert_eq!(i.dynamic_load_from, Some("/p".to_string()));
    assert_eq!(i.dynamic_load_from(None).dynamic_load_from, None);
    let s = Svg::new("b".to_string());
    assert_eq!(s.name, "b");
    assert_eq!(s.dynamic_load_from, None);
    let s = s.dynamic_load_from(Some("/q".to_string()));
    assert_eq!(s.dynamic_load_from, Some("/q".to_string()));
    match &s.render(context(5, 6)).unwrap()[0] {
        Renderable::Svg(svg) => {
            assert_eq!(svg.instance_data.name, "b");
            assert_eq!(svg.instance_data.pos, Pos::new(10, 20, 0));
            assert_eq!(svg.instance_data.scale, Scale::new(5, 6));
            assert_eq!(svg.instance_data.dynamic_load_from, Some("/q".to_string()));
        },
        other => panic!("{:?}", other),
    }
}

#[test]
fn the_hash_of_an_image_is_the_hash_of_its_name() {
    let digest = |name: &str| {
        let mut h = ComponentHasher::new();
        assert!(Image::new(name.to_string()).render_hash(&mut h));
        h.finish()
    };
    assert_eq!(digest("logo"), digest("logo"));
    assert_ne!(digest("logo"), digest("logp"));
    assert_ne!(digest(""), digest("a"));
    let mut by_hand = ComponentHasher::new();
    for b in "logo".bytes() {
        by_hand.write_u64(b as u64);
    }
    assert_eq!(digest("logo"), by_hand.finish());
    let mut untouched = ComponentHasher::new();
    let dynamic = Image::new("logo".to_string()).dynamic_load_from(Some("/p".to_string()));
    assert!(!dynamic.render_hash(&mut untouched));
    assert_eq!(untouched, ComponentHasher::new());
    // one step of the hash: xor, then multiply
    let mut one = ComponentHasher::new();
    one.write_u64(5);
    assert_eq!(one.finish(), (0xcbf29ce484222325u64 ^ 5).wrapping_mul(0x100000001b3));
    one.write_bool(true);
    assert_eq!(
        one.finish(),
        (((0xcbf29ce484222325u64 ^ 5).wrapping_mul(0x100000001b3)) ^ 1).wrapping_mul(0x100000001b3)
    );
}

#[test]
fn a_new_toggle_stands_where_it_is_told() {
    let off = Toggle::new(false);
    assert!(!off.active);
    assert!(!off.state.pressed);
    assert_eq!(off.toggle_type, ToggleType::Type3);
    assert_eq!(off.on_change, None);
    let on = Toggle::new(true).on_change(MessageFactory::new(9)).toggle_type(ToggleType::Type1);
    assert!(on.active);
    assert!(on.state.pressed);
    assert_eq!(on.toggle_type, ToggleType::Type1);
    assert_eq!(on.on_change, Some(MessageFactory::new(9)));
}

#[test]
fn a_toggle_flips_on_press_and_reports_on_click() {
    let mut t = Toggle::new(false).on_change(MessageFactory::new(9));
    assert!(t.on_event(&event(EventKind::Click)).messages == vec![Message::new(9, 0)]);
    let down = t.on_event(&event(EventKind::MouseDown));
    assert!(down.dirty && down.messages.is_empty() && !down.stop_bubbling);
    assert!(t.state.pressed);
    assert_eq!(t.on_event(&event(EventKind::Click)).messages, vec![Message::new(9, 1)]);
    assert_eq!(t.on_event(&event(EventKind::DoubleClick)).messages, vec![Message::new(9, 1)]);
    t.on_event(&event(EventKind::TouchDown));
    assert!(!t.state.pressed);
    assert!(t.on_event(&event(EventKind::MouseUp)).messages.is_empty());
    t.state.pressed = true;
    t.new_props();
    assert!(!t.state.pressed);
}

#[test]
fn the_three_looks_of_a_toggle() {
    let look = |t: ToggleType, on: bool| {
        let mut toggle = Toggle::new(on).toggle_type(t);
        toggle.state.pressed = on;
        toggle.view().unwrap()
    };
    let one = look(ToggleType::Type1, false);
    assert_eq!(one.layout.size, Size::px(58, 38));
    assert_eq!(one.layout.padding, Rect::px(0, 1, 0, 1));
    assert_eq!(one.children.len(), 2);
    let knob = &one.children[0];
    assert_eq!(knob.layout.position_type, PositionType::Absolute);
    assert_eq!(knob.layout.position, Rect::px(0, 0, 0, 0));
    assert_eq!(knob.layout.margin, Rect::px(5, 2, 0, 0));
    assert_eq!(knob.layout.size, Size::px(28, 28));
    assert_eq!(div_of(knob).background, Some(Color::rgb(97, 97, 97)));
    assert_eq!(div_of(knob).radius, Corners::all(50));
    let track = &one.children[1];
    assert_eq!(track.layout.size, Size::px(58, 30));
    assert_eq!(track.layout.axis_alignment, Alignment::End);
    assert_eq!(div_of(track).background, Some(Color::rgb(255, 255, 255)));
    assert!(track.children.is_empty());
    let one_on = look(ToggleType::Type1, true);
    assert_eq!(
        one_on.children[0].layout.position,
        Rect::new(Dimension::Px(0), Dimension::Auto, Dimension::Px(0), Dimension::Px(0))
    );
    assert_eq!(one_on.children[0].layout.margin, Rect::px(5, 0, 0, 5));
    assert_eq!(one_on.children[1].layout.axis_alignment, Alignment::Start);
    assert_eq!(div_of(&one_on.children[1]).background, Some(Color::rgb(45, 138, 255)));

    let two = look(ToggleType::Type2, true);
    assert_eq!(two.layout.size, Size::px(80, 40));
    assert_eq!(two.children[0].layout.size, Size::px(38, 38));
    assert_eq!(two.children[1].layout.size, Size::px(76, 28));
    assert_eq!(div_of(&two.children[1]).border_width, 3);
    assert_eq!(div_of(&two.children[1]).border_color, Color::rgb(45, 138, 255));
    let label_box = &two.children[1].children[0];
    assert_eq!(label_box.layout.margin, Rect::px(0, 8, 0, 10));
    assert_eq!(label_of(&label_box.children[0]), "ON");

    let three = look(ToggleType::Type3, false);
    assert_eq!(three.layout.size, Size::px(58, 26));
    assert_eq!(three.children[0].layout.size, Size::px(18, 18));
    assert_eq!(three.children[0].layout.margin, Rect::px(4, 4, 0, 4));
    assert_eq!(three.children[0].layout.cross_alignment, Alignment::Center);
    assert_eq!(three.children[1].layout.size, Size::px(60, 26));
    assert_eq!(div_of(&three.children[1]).background, Some(Color::rgb(25, 25, 25)));
    let label_box = &three.children[1].children[0];
    assert_eq!(label_box.layout.margin, Rect::px(0, 0, 0, 10));
    assert_eq!(label_of(&label_box.children[0]), "OFF");
    match &label_box.children[0].component {
        Widget::Text(t) => {
            assert_eq!(t.styled.style_val(StyleKey::Font), Some(StyleVal::Font(1)));
            assert_eq!(t.styled.style_val(StyleKey::LineHeight), Some(StyleVal::Number(12)));
        },
        other => panic!("{:?}", other),
    }
    assert_eq!(
        format!("{:?}", Toggle::new(false).toggle_type(ToggleType::Type1).toogle_type_1()),
        format!("{:?}", Some(look(ToggleType::Type1, false)))
    );
    assert_eq!(
        format!("{:?}", Toggle::new(true).toggle_type_2()),
        format!("{:?}", Some(look(ToggleType::Type2, true)))
    );
    assert_eq!(
        format!("{:?}", Toggle::new(false).toggle_type_3()),
        format!("{:?}", Some(look(ToggleType::Type3, false)))
    );
}

fn labels(n: usize) -> Vec<String> {
    (0..n).map(|i| format!("b{}", i)).collect()
}

fn radio(node: &Node<Widget>) -> &RadioButton {
    match &node.component {
        Widget::RadioButton(r) => r,
        other => panic!("not a radio button: {:?}", other),
    }
}

#[test]
fn a_new_group_is_a_row_of_grouped_buttons() {
    let g = RadioButtons::new(labels(3), 1);
    assert_eq!(g.buttons, labels(3));
    assert_eq!(g.selected, 1);
    assert_eq!(g.state.selected, 1);
    assert_eq!(g.direction, Direction::Row);
    assert_eq!(g.max_rows, None);
    assert_eq!(g.max_columns, None);
    assert_eq!(g.on_change, None);
    assert_eq!(g.radio_buttons_type, RadioButtonsType::Group);
    let g = g
        .direction(Direction::Column)
        .max_rows(4)
        .max_columns(5)
        .on_change(MessageFactory::new(6))
        .radio_buttons_type(RadioButtonsType::Basic);
    assert_eq!(g.direction, Direction::Column);
    assert_eq!(g.max_rows, Some(4));
    assert_eq!(g.max_columns, Some(5));
    assert_eq!(g.on_change, Some(MessageFactory::new(6)));
    assert_eq!(g.radio_buttons_type, RadioButtonsType::Basic);
    assert_eq!(g.buttons, labels(3));
}

#[test]
fn five_buttons_two_to_a_row_make_three_runs() {
    let g = RadioButtons::new(labels(5), 3)
        .max_columns(2)
        .radio_buttons_type(RadioButtonsType::Block);
    let view = g.view().unwrap();
    assert_eq!(view.layout.direction, Direction::Column);
    assert_eq!(view.layout.size, Size::new(Dimension::Pct(100), Dimension::Auto));
    assert_eq!(view.children.len(), 3);
    let sizes: Vec<usize> = view.children.iter().map(|run| run.children.len()).collect();
    assert_eq!(sizes, vec![4, 4, 2]);
    let keys: Vec<u64> = view.children.iter().map(|run| run.key).collect();
    assert_eq!(keys, vec![0, 1, 2]);
    assert_eq!(view.children[0].layout.size, Size::new(Dimension::Pct(100), Dimension::Auto));
    assert_eq!(view.children[1].layout.size, Size::auto());
    assert_eq!(view.children[1].layout.cross_alignment, Alignment::Stretch);
    assert_eq!(view.children[1].layout.direction, Direction::Row);
    let entry_keys: Vec<u64> = view.children[0].children.iter().map(|n| n.key).collect();
    assert_eq!(entry_keys, vec![1, 2, 3, 4]);
    let positions: Vec<usize> = view
        .children
        .iter()
        .flat_map(|run| run.children.iter().step_by(2).map(|n| radio(n).position))
        .collect();
    assert_eq!(positions, vec![0, 1, 2, 3, 4]);
    let selected: Vec<bool> = view
        .children
        .iter()
        .flat_map(|run| run.children.iter().step_by(2).map(|n| radio(n).selected))
        .collect();
    assert_eq!(selected, vec![false, false, false, true, false]);
    assert_eq!(radio(&view.children[1].children[0]).label, "b2");
    assert!(matches!(view.children[0].children[1].component, Widget::HDivider(_)));
    // only the outer corners of the block are rounded
    let corners = |run: usize, entry: usize| radio(&view.children[run].children[2 * entry]).radius;
    let none = Corners::none();
    assert_eq!(corners(0, 0), Corners { top_left: 4, ..none });
    assert_eq!(corners(0, 1), Corners { top_right: 4, ..none });
    assert_eq!(corners(1, 0), none);
    assert_eq!(corners(1, 1), none);
    assert_eq!(corners(2, 0), Corners { bottom_right: 4, bottom_left: 4, ..none });
}

#[test]
fn a_column_of_buttons_runs_down_and_a_limit_of_zero_counts_as_one() {
    let g = RadioButtons::new(labels(3), 0).direction(Direction::Column);
    let view = g.view().unwrap();
    assert_eq!(view.layout.direction, Direction::Row);
    assert_eq!(view.children.len(), 1);
    assert_eq!(view.children[0].children.len(), 6);
    assert_eq!(view.children[0].layout.direction, Direction::Column);
    assert_eq!(radio(&view.children[0].children[0]).radius, Corners::all(10));
    let basic = RadioButtons::new(labels(1), 0).radio_buttons_type(RadioButtonsType::Basic);
    assert_eq!(radio(&basic.view().unwrap().children[0].children[0]).radius, Corners::all(14));
    let each = RadioButtons::new(labels(3), 0).max_columns(0).view().unwrap();
    assert_eq!(each.children.len(), 3);
    let empty = RadioButtons::new(vec![], 0).view().unwrap();
    assert_eq!(empty.children.len(), 1);
    assert!(empty.children[0].children.is_empty());
}

#[test]
fn a_group_selects_what_its_buttons_report() {
    let mut g = RadioButtons::new(labels(3), 0).on_change(MessageFactory::new(6));
    assert_eq!(g.update(Message::new(RADIO_CLICKED, 2)), vec![Message::new(6, 2)]);
    assert_eq!(g.state.selected, 2);
    assert_eq!(g.selected, 0);
    assert!(RadioButtons::is_click_report(&Message::new(RADIO_CLICKED, 0)));
    assert!(!RadioButtons::is_click_report(&Message::new(RADIO_CLICKED + 1, 1)));
    assert!(!RadioButtons::is_click_report(&Message::new(RADIO_CLICKED, -1)));
    let mut w = Widget::RadioButtons(g);
    assert!(w.update(Message::new(RADIO_CLICKED + 1, 1)).is_empty());
    assert!(w.update(Message::new(RADIO_CLICKED, -1)).is_empty());
    assert_eq!(w.update(Message::new(RADIO_CLICKED, 1)), vec![Message::new(6, 1)]);
    let mut g = match w {
        Widget::RadioButtons(g) => g,
        _ => unreachable!(),
    };
    assert_eq!(g.state.selected, 1);
    g.new_props();
    assert_eq!(g.state.selected, 0);
    let mut silent = RadioButtons::new(labels(3), 0);
    assert!(silent.update(Message::new(RADIO_CLICKED, 1)).is_empty());
    assert_eq!(silent.state.selected, 1);
}

fn radio_button(selected: bool, kind: RadioButtonsType) -> RadioButton {
    RadioButton {
        label: "r".to_string(),
        position: 4,
        selected,
        radius: Corners::all(3),
        radio_button_type: kind,
        styled: Styled::new(),
    }
}

#[test]
fn a_radio_button_stops_its_click_and_names_its_place() {
    let mut r = radio_button(false, RadioButtonsType::Block);
    let clicked = r.on_click(&event(EventKind::Click));
    assert!(clicked.stop_bubbling);
    assert_eq!(clicked.messages, vec![Message::new(RADIO_CLICKED, 4)]);
    let twice = r.on_double_click(&event(EventKind::DoubleClick));
    assert!(twice.stop_bubbling);
    assert_eq!(twice.messages, vec![Message::new(RADIO_CLICKED, 4)]);
    for kind in [EventKind::Click, EventKind::DoubleClick] {
        let reaction = r.on_event(&event(kind));
        assert!(reaction.stop_bubbling);
        assert_eq!(reaction.messages, vec![Message::new(RADIO_CLICKED, 4)]);
    }
    let other = r.on_event(&event(EventKind::MouseDown));
    assert!(!other.stop_bubbling && other.messages.is_empty());
}

#[test]
fn a_radio_button_draws_a_ring_and_a_dot_when_selected() {
    let circles = |selected: bool| {
        radio_button(selected, RadioButtonsType::Group)
            .render(context(100, 40))
            .unwrap()
            .iter()
            .map(|r| match r {
                Renderable::Circle(c) => c.instance_data,
                other => panic!("{:?}", other),
            })
            .collect::<Vec<_>>()
    };
    let off = circles(false);
    assert_eq!(off.len(), 1);
    assert_eq!(off[0].origin, Pos::new(10 + 100 - 14, 20 + 20, 0));
    assert_eq!(off[0].radius, 9);
    assert_eq!(off[0].border_width, 2);
    assert_eq!(off[0].color, None);
    assert_eq!(off[0].border_color, Some(Color::rgb(83, 83, 83)));
    let on = circles(true);
    assert_eq!(on.len(), 2);
    assert_eq!(on[0].border_color, Some(Color::rgb(45, 138, 255)));
    assert_eq!(on[1].radius, 7);
    assert_eq!(on[1].color, Some(Color::rgb(45, 138, 255)));
    assert_eq!(on[1].origin, on[0].origin);
}

#[test]
fn the_three_looks_of_a_radio_button() {
    let basic = radio_button(true, RadioButtonsType::Basic).view().unwrap();
    assert_eq!(basic.children.len(), 2);
    assert_eq!(rect_of(&basic.children[0]).background_color, Color::rgb(45, 138, 255));
    assert_eq!(rect_of(&basic.children[0]).radius, Corners::all(3));
    assert_eq!(label_of(&basic.children[1]), "r");
    let group = radio_button(false, RadioButtonsType::Group).view().unwrap();
    assert_eq!(group.layout.padding, Rect::px(22, 10, 22, 10));
    assert_eq!(group.children.len(), 1);
    assert_eq!(label_of(&group.children[0].children[0]), "r");
    let block = radio_button(false, RadioButtonsType::Block).view().unwrap();
    assert_eq!(rect_of(&block).background_color, Color::rgb(25, 25, 25));
    assert_eq!(block.layout.size, Size::pct(100, 100));
    assert_eq!(block.layout.padding, Rect::all(2));
    assert_eq!(label_of(&block.children[0]), "r");
}

#[test]
fn dividers_are_rules_of_one_unit() {
    let h = HDivider { size: 2, color: Color::rgb(1, 2, 3) }.view().unwrap();
    assert_eq!(div_of(&h).border_width, 2);
    assert_eq!(div_of(&h).border_color, Color::rgb(1, 2, 3));
    assert_eq!(h.layout.direction, Direction::Row);
    assert_eq!(h.layout.size, Size::new(Dimension::Pct(100), Dimension::Auto));
    assert_eq!(h.layout.cross_alignment, Alignment::Stretch);
    assert_eq!(h.children[0].layout.size, Size::new(Dimension::Auto, Dimension::Px(1)));
    let v = VDivider { size: 2, color: Color::rgb(1, 2, 3) }.view().unwrap();
    assert_eq!(v.layout.direction, Direction::Column);
    assert_eq!(v.layout.size, Size::new(Dimension::Auto, Dimension::Pct(100)));
    assert_eq!(v.layout.axis_alignment, Alignment::Stretch);
    assert_eq!(v.children[0].layout.size, Size::new(Dimension::Px(1), Dimension::Auto));
    let mut a = ComponentHasher::new();
    let mut b = ComponentHasher::new();
    assert!(HDivider { size: 2, color: Color::rgb(1, 2, 3) }.props_hash(&mut a));
    assert!(VDivider { size: 3, color: Color::rgb(1, 2, 3) }.props_hash(&mut b));
    assert_ne!(a, b);
}

#[test]
fn scrolling_is_scaled_and_bounded() {
    assert_eq!(scroll_to(0, -20, 200, 50), 80);
    assert_eq!(scroll_to(10, -20, 200, 50), 90);
    assert_eq!(scroll_to(0, -100, 200, 50), 150);
    assert_eq!(scroll_to(0, 20, 200, 50), 0);
    assert_eq!(scroll_to(100, 20, 200, 50), 20);
    assert_eq!(scroll_to(100, 1, 200, 70), 97);
    assert_eq!(scroll_to(7, -20, 200, 0), 200);
    assert_eq!(scroll_to(7, 0, 200, 0), 200);
    assert_eq!(scroll_to(7, 20, 200, 0), 0);
    assert_eq!(scroll_to(0, -20, 30, 50), 0);
    assert_eq!(scroll_to(0, i64::MIN, i64::MAX, 1), (1 << 30) - 1);
}

#[test]
fn scrolling_rounds_to_the_nearest_unit() {
    assert_eq!(scroll_to(0, -1, 30, 20), 2);
    assert_eq!(scroll_to(0, -1, 50, 20), 3);
    assert_eq!(scroll_to(0, -1, 25, 20), 1);
    assert_eq!(scroll_to(0, -1, 35, 20), 2);
    assert_eq!(scroll_to(10, 1, 30, 20), 9);
    assert_eq!(scroll_to(10, 1, 50, 20), 8);
    assert_eq!(scroll_to(4, 1, 25, 20), 3);
    assert_eq!(scroll_to(10, 3, 250, 200), 6);
    assert_eq!(scroll_to(1, 1, 30, 20), 0);
    assert_eq!(scroll_to(0, -3, 70, 20), 11);
}

#[test]
fn a_drag_step_scrolls_from_where_the_drag_began() {
    let mut s = Scrollable::new(Size::px(100, 20));
    s.state.drag_start_position.y = 4;
    let mut e = event(EventKind::Drag);
    e.origin = Point::new(0, 10);
    e.position = Point::new(0, 9);
    e.current_aabb = AABB { pos: Pos::new(0, 0, 0), size: Scale::new(100, 20) };
    e.current_inner_scale = Some(Scale::new(100, 30));
    s.on_drag(&e);
    assert_eq!(s.state.scroll_position.y, 6);
    assert!(s.dirty);
    assert_eq!(s.state.drag_start_position.y, 4);
    let mut unplaced = Scrollable::new(Size::px(100, 20));
    e.current_inner_scale = None;
    let r = unplaced.on_event(&e);
    assert!(!r.dirty);
    assert_eq!(unplaced, Scrollable::new(Size::px(100, 20)));
}

#[test]
fn a_scrolling_container_has_full_control() {
    let mut s = Scrollable::new(Size::px(100, 50)).on_scroll_end(MessageFactory::new(5));
    assert_eq!(s.size, Size::px(100, 50));
    assert_eq!(s.on_scroll_end, Some(MessageFactory::new(5)));
    assert!(s.full_control());
    assert_eq!(s.container(), Some(vec![0, 1]));
    assert_eq!(s.scroll_position().unwrap().y, Some(0));
    assert_eq!(s.scroll_position().unwrap().x, None);
    let mut aabb = AABB { pos: Pos::new(3, 4, 5), size: Scale::new(1, 1) };
    let context = mctk::component::BoxContext {
        parent: AABB::empty(),
        frame: AABB::empty(),
        scale_factor: 1,
    };
    s.set_aabb(&mut aabb, &vec![], context);
    assert_eq!(aabb, AABB { pos: Pos::new(3, 4, 5), size: Scale::new(100, 50) });
    s.state.scroll_position.y = 33;
    let view = s.view().unwrap();
    assert_eq!(view.key, 33);
    assert_eq!(view.children.len(), 3);
    assert_eq!(rect_of(&view.children[0]).scissor, Some(false));
    assert_eq!(rect_of(&view.children[2]).scissor, Some(true));
    assert_eq!(view.children[0].layout.size, Size::px(100, 50));
    assert_eq!(view.children[0].layout.position_type, PositionType::Absolute);
    assert_eq!(view.children[1].layout.direction, Direction::Column);
    assert_eq!(s.on_event(&event(EventKind::DragEnd)).messages, vec![Message::new(5, 0)]);
    assert!(s.on_event(&event(EventKind::DragStart)).stop_bubbling);
    assert_eq!(s.state.drag_start_position.y, 33);
    // without the size of the content a drag does nothing
    let drag = s.on_event(&event(EventKind::Drag));
    assert!(!drag.dirty);
    assert_eq!(s.state.scroll_position.y, 33);
}

#[test]
fn the_value_of_a_slide_bar_is_the_percentage_under_the_pointer() {
    assert_eq!(to_slide_value(0, 100), 0);
    assert_eq!(to_slide_value(30, 100), 30);
    assert_eq!(to_slide_value(99, 100), 99);
    assert_eq!(to_slide_value(100, 100), 100);
    assert_eq!(to_slide_value(250, 100), 100);
    assert_eq!(to_slide_value(-5, 100), 0);
    assert_eq!(to_slide_value(1, 3), 33);
    assert_eq!(to_slide_value(2, 3), 66);
    assert_eq!(to_slide_value(5, 0), 100);
    assert_eq!(to_slide_value(0, 0), 0);
    assert_eq!(count_cells(100, 10, 5), 7);
    assert_eq!(count_cells(40, 10, 5), 3);
    assert_eq!(count_cells(9, 10, 5), 1);
    assert_eq!(count_cells(100, 0, 0), 1);
    assert_eq!(count_cells(1 << 30, 1, 0), 1024);
}

#[test]
fn a_slide_bar_is_built_field_by_field() {
    let b = SlideBar::new();
    assert_eq!(b.value, 0);
    assert_eq!(b.slider_type, SlideBarType::Box);
    assert_eq!(b.bg_color, Color::rgb(49, 49, 49));
    assert_eq!(b.animation_bg_color, Color::rgba(255, 255, 255, 153));
    assert!(b.state.grid.is_empty());
    let b = b
        .value(7)
        .slider_type(SlideBarType::Line)
        .height(9)
        .col_width(4)
        .col_spacing(2)
        .row_spacing(3)
        .active_color(Color::rgb(1, 1, 1))
        .bg_color(Color::rgb(2, 2, 2))
        .animation_bg_color(Color::rgb(3, 3, 3))
        .on_slide(MessageFactory::new(1))
        .on_slide_end(MessageFactory::new(2))
        .reset_on_slide_end(true)
        .fill_random_on_start(true)
        .fill_random_on_slide(true)
        .has_idle_animation(true);
    assert_eq!(b.value, 7);
    assert_eq!(b.slider_type, SlideBarType::Line);
    assert_eq!(b.height, 9);
    assert_eq!((b.col_width, b.col_spacing, b.row_spacing), (4, 2, 3));
    assert_eq!(b.active_color, Color::rgb(1, 1, 1));
    assert_eq!(b.bg_color, Color::rgb(2, 2, 2));
    assert_eq!(b.animation_bg_color, Color::rgb(3, 3, 3));
    assert_eq!(b.on_slide, Some(MessageFactory::new(1)));
    assert_eq!(b.on_slide_end, Some(MessageFactory::new(2)));
    assert!(b.reset_on_slide_end && b.fill_random_on_start && b.fill_random_on_slide);
    assert!(b.has_idle_animation);
    assert_eq!(b.state.pending_fill, None);
    assert_eq!(b.state.value, 0);
}

fn bar() -> SlideBar {
    let mut b = SlideBar::new()
        .value(50)
        .col_width(10)
        .col_spacing(5)
        .row_spacing(5)
        .active_color(Color::rgb(9, 9, 9))
        .on_slide(MessageFactory::new(1))
        .on_slide_end(MessageFactory::new(2));
    b.init();
    let mut aabb = AABB { pos: Pos::new(0, 0, 0), size: Scale::new(100, 40) };
    let context = mctk::component::BoxContext {
        parent: AABB::empty(),
        frame: AABB::empty(),
        scale_factor: 1,
    };
    b.set_aabb(&mut aabb, &vec![], context);
    assert_eq!(aabb.size, Scale::new(100, 40));
    b
}

fn lit(b: &SlideBar) -> Vec<usize> {
    b.state.grid.iter().map(|row| row.iter().filter(|c| **c).count()).collect()
}

#[test]
fn a_slide_bar_lights_its_grid_up_to_its_value() {
    let mut b = bar();
    assert_eq!(b.state.value, 50);
    assert_eq!(b.state.grid.len(), 3);
    assert!(b.state.grid.iter().all(|row| row.len() == 7));
    assert_eq!(lit(&b), vec![3, 3, 3]);
    assert_eq!(b.state.grid[0], vec![true, true, true, false, false, false, false]);
    let area = AABB { pos: Pos::new(0, 0, 0), size: Scale::new(100, 40) };
    assert_eq!(b.handle_on_drag(Point::new(30, 0), area), Some(30));
    assert_eq!(b.state.value, 30);
    assert_eq!(lit(&b), vec![2, 2, 2]);
    assert_eq!(b.handle_on_drag(Point::new(30, 9), area), None);
    assert_eq!(b.handle_on_drag(Point::new(1000, 0), area), Some(100));
    assert_eq!(lit(&b), vec![7, 7, 7]);
    assert_eq!(b.handle_on_drag(Point::new(-3, 0), area), Some(0));
    assert_eq!(lit(&b), vec![0, 0, 0]);
    // a grid that is there is kept
    let mut other = AABB { pos: Pos::new(0, 0, 0), size: Scale::new(500, 500) };
    let context = mctk::component::BoxContext {
        parent: AABB::empty(),
        frame: AABB::empty(),
        scale_factor: 1,
    };
    b.set_aabb(&mut other, &vec![], context);
    assert_eq!(b.state.grid.len(), 3);
}

#[test]
fn a_slide_bar_reports_new_values_while_dragged_and_the_value_at_the_end() {
    let mut b = bar();
    let start = b.on_event(&event(EventKind::DragStart));
    assert!(start.stop_bubbling);
    assert!(b.state.is_dragging);
    let mut drag = Event::new(EventKind::Drag, Point::new(45, 3));
    drag.current_aabb = AABB { pos: Pos::new(5, 0, 0), size: Scale::new(100, 40) };
    let moved = b.on_event(&drag);
    assert_eq!(moved.messages, vec![Message::new(1, 40)]);
    assert!(!moved.stop_bubbling);
    assert!(b.on_event(&drag).messages.is_empty());
    drag.kind = EventKind::TouchDrag;
    drag.position = Point::new(55, 3);
    let touched = b.on_event(&drag);
    assert_eq!(touched.messages, vec![Message::new(1, 50)]);
    assert!(touched.stop_bubbling);
    let end = b.on_event(&event(EventKind::DragEnd));
    assert_eq!(end.messages, vec![Message::new(2, 50)]);
    assert!(!end.stop_bubbling);
    assert!(!b.state.is_dragging);
    assert_eq!(lit(&b), vec![3, 3, 3]);
    assert!(b.on_event(&event(EventKind::TouchDragEnd)).stop_bubbling);
}

fn lit_in_all(b: &SlideBar) -> usize {
    lit(b).iter().sum()
}

#[test]
fn a_slide_bar_that_resets_lights_cells_at_random() {
    let mut b = bar().reset_on_slide_end(true);
    let end = b.on_event(&event(EventKind::DragEnd));
    assert_eq!(end.messages, vec![Message::new(2, 50)]);
    assert_eq!(b.state.value, 0);
    // the cells wait until the bar is given its turn
    assert_eq!(b.state.pending_fill, Some(20));
    assert_eq!(lit(&b), vec![3, 3, 3]);
    b.randomize();
    assert_eq!(b.state.pending_fill, None);
    assert_eq!(b.state.grid.len(), 3);
    assert!(b.state.grid.iter().all(|row| row.len() == 7));
    assert_eq!(lit_in_all(&b), 20);
    // a bar on which nothing waits is left alone
    let grid = b.state.grid.clone();
    b.randomize();
    assert_eq!(b.state.grid, grid);
    b.reset(2);
    assert_eq!(b.state.pending_fill, None);
    assert_eq!(lit_in_all(&b), 2);
    b.reset(0);
    assert_eq!(lit(&b), vec![0, 0, 0]);
    b.reset(1000);
    assert_eq!(lit(&b), vec![7, 7, 7]);
    // the order is drawn afresh each time
    let differs = (0..40).any(|_| {
        b.reset(10);
        let first = b.state.grid.clone();
        b.reset(10);
        assert_eq!(lit_in_all(&b), 10);
        b.state.grid != first
    });
    assert!(differs);
}

#[test]
fn a_slide_bar_that_starts_at_random_lights_twenty_cells() {
    let mut b = SlideBar::new().value(50).col_width(10).col_spacing(5).row_spacing(5);
    b = b.fill_random_on_start(true);
    b.init();
    let mut aabb = AABB { pos: Pos::new(0, 0, 0), size: Scale::new(1000, 100) };
    let context = mctk::component::BoxContext {
        parent: AABB::empty(),
        frame: AABB::empty(),
        scale_factor: 1,
    };
    b.set_aabb(&mut aabb, &vec![], context);
    assert_eq!(b.state.pending_fill, Some(20));
    let rows = b.state.grid.len();
    let cols = b.state.grid[0].len();
    assert!(rows * cols > 20);
    assert_eq!(lit_in_all(&b), 0);
    let mut w = Widget::SlideBar(b);
    w.randomize();
    let b = match w {
        Widget::SlideBar(b) => b,
        _ => unreachable!(),
    };
    assert_eq!(b.state.pending_fill, None);
    assert_eq!((b.state.grid.len(), b.state.grid[0].len()), (rows, cols));
    assert_eq!(lit_in_all(&b), 20);
    assert_eq!(b.state.value, 50);
}

#[test]
fn the_driver_gives_chance_its_turn_after_every_frame() {
    let mut ui: UI<Widget> = UI::new(PixelSize { width: 400, height: 100 }, 1);
    let bar = SlideBar::new().col_width(10).col_spacing(5).row_spacing(5).fill_random_on_start(true);
    ui.draw(Node::new(
        Widget::SlideBar(bar),
        Layout::new().size(Size::px(400, 100)),
    ));
    let root = ui.root.as_ref().unwrap();
    match &root.component {
        Widget::SlideBar(b) => {
            assert_eq!(b.state.pending_fill, None);
            assert_eq!(lit_in_all(b), 20);
        },
        other => panic!("{:?}", other),
    }
    // a tree without a slide bar comes out of chance as it went in
    let mut plain = Node::new(Widget::Div(Div::new()), Layout::new())
        .push(Node::new(Widget::Button(Button::new("b".to_string())), Layout::new()));
    plain.layout(Scale::new(100, 100), 1);
    let before = format!("{:?}", plain);
    plain.randomize_all();
    assert_eq!(format!("{:?}", plain), before);
}

#[test]
fn a_slide_bar_projects_one_child_for_every_column() {
    let mut b = bar();
    let view = b.view().unwrap();
    assert_eq!(view.layout.size, Size::pct(100, 100));
    assert_eq!(view.children.len(), 7);
    let column = &view.children[2];
    assert_eq!(column.key, 2);
    assert_eq!(column.layout.size, Size::new(Dimension::Px(10), Dimension::Auto));
    assert_eq!(column.layout.margin, Rect::px(0, 0, 0, 5));
    assert_eq!(column.layout.direction, Direction::Column);
    assert_eq!(column.children.len(), 3);
    assert_eq!(column.children[1].key, 1);
    assert_eq!(column.children[1].layout.size, Size::px(10, 10));
    assert_eq!(column.children[1].layout.margin, Rect::px(0, 0, 5, 0));
    assert_eq!(div_of(&column.children[1]).background, Some(Color::rgb(9, 9, 9)));
    assert_eq!(div_of(&view.children[3].children[0]).background, Some(Color::rgb(49, 49, 49)));
    b.has_idle_animation = true;
    let idle = b.view().unwrap();
    assert_eq!(div_of(&idle.children[0].children[0]).background, Some(Color::rgba(255, 255, 255, 153)));
    b.state.is_dragging = true;
    let dragging = b.view().unwrap();
    assert_eq!(div_of(&dragging.children[0].children[0]).background, Some(Color::rgb(9, 9, 9)));
    b.slider_type = SlideBarType::Line;
    let lines = b.view().unwrap();
    assert_eq!(lines.children.len(), 7);
    assert!(lines.children[0].children.is_empty());
    assert_eq!(div_of(&lines.children[0]).background, Some(Color::rgb(9, 9, 9)));
    assert_eq!(div_of(&lines.children[6]).background, Some(Color::rgb(49, 49, 49)));
    assert!(SlideBar::new().view().unwrap().children.is_empty());
}

#[test]
fn the_hash_of_a_slide_bar_follows_its_grid() {
    let digest = |b: &SlideBar| {
        let mut h = ComponentHasher::new();
        assert!(b.render_hash(&mut h));
        h.finish()
    };
    let mut b = bar();
    let before = digest(&b);
    assert_eq!(before, digest(&bar()));
    b.state.grid[1][5] = true;
    assert_ne!(digest(&b), before);
    b.state.grid[1][5] = false;
    assert_eq!(digest(&b), before);
    b.state.is_dragging = true;
    assert_ne!(digest(&b), before);
    let mut props = ComponentHasher::new();
    assert!(b.props_hash(&mut props));
    assert_eq!(props.finish(), (0xcbf29ce484222325u64 ^ 50).wrapping_mul(0x100000001b3));
}

#[test]
fn grids_are_filled_by_columns_or_by_positions() {
    assert_eq!(make_filled(2, 3, 1), vec![vec![true, false, false], vec![true, false, false]]);
    assert_eq!(make_filled(1, 2, 5), vec![vec![true, true]]);
    assert!(make_filled(0, 3, 1).is_empty());
    assert_eq!(
        grid_from_positions(2, 3, &vec![5, 0, 7, 1], 2),
        vec![vec![true, false, false], vec![false, false, true]]
    );
    assert_eq!(
        grid_from_positions(2, 3, &vec![5, 0, 7, 1], 4),
        vec![vec![true, true, false], vec![false, false, true]]
    );
    assert_eq!(
        grid_from_positions(2, 3, &vec![5, 0, 7, 1], 100),
        grid_from_positions(2, 3, &vec![5, 0, 7, 1], 4)
    );
    assert_eq!(grid_from_positions(1, 2, &vec![], 3), vec![vec![false, false]]);
    assert_eq!(count_up(4), vec![0, 1, 2, 3]);
    assert!(count_up(0).is_empty());
}

#[test]
fn a_random_order_holds_every_number_once() {
    for n in [0usize, 1, 2, 17, 100] {
        let mut order = random_order(n);
        assert_eq!(order.len(), n);
        order.sort();
        assert_eq!(order, (0..n).collect::<Vec<_>>());
    }
    // with 1000 numbers the order that went in does not come out again
    let shuffled = (0..20).any(|_| random_order(1000) != (0..1000).collect::<Vec<_>>());
    assert!(shuffled);
}

#[test]
fn a_random_grid_has_as_many_lit_cells_as_asked_for() {
    let count = |grid: &Vec<Vec<bool>>| grid.iter().flatten().filter(|c| **c).count();
    for (rows, cols, num_true, want) in
        [(3, 4, 5, 5), (3, 4, 0, 0), (3, 4, 12, 12), (3, 4, 50, 12), (1, 1, 1, 1), (5, 0, 3, 0)]
    {
        let grid = fill_grid_with_true(rows, cols, num_true);
        assert_eq!(grid.len(), rows);
        assert!(grid.iter().all(|row| row.len() == cols));
        assert_eq!(count(&grid), want);
    }
    assert!(fill_grid_with_true(0, 7, 3).is_empty());
}

#[test]
fn boxes_draw_a_rectangle_or_nothing() {
    assert!(Div::new().render(context(5, 6)).is_none());
    let drawn = Div::new().bg(Color::rgb(1, 2, 3)).border(Color::rgb(4, 5, 6), 2, Corners::all(7));
    match &drawn.render(context(5, 6)).unwrap()[0] {
        Renderable::Rect(r) => {
            let d = &r.instance_data;
            assert_eq!(d.pos, Pos::new(10, 20, 0));
            assert_eq!(d.scale, Scale::new(5, 6));
            assert_eq!(d.color, Color::rgb(1, 2, 3));
            assert_eq!(d.border_color, Color::rgb(4, 5, 6));
            assert_eq!(d.border_size.left, 2);
            assert_eq!(d.radius, Corners::all(7));
            assert_eq!(d.scissor, None);
        },
        other => panic!("{:?}", other),
    }
    assert!(Div::new().border(Color::rgb(4, 5, 6), 1, Corners::none()).render(context(5, 6)).is_some());
    let mut shutter = RoundedRect::new();
    shutter.scissor = Some(true);
    match &shutter.render(context(5, 6)).unwrap()[0] {
        Renderable::Rect(r) => {
            assert_eq!(r.instance_data.scissor, Some(true));
            assert_eq!(r.instance_data.color, Color::clear());
        },
        other => panic!("{:?}", other),
    }
}

#[test]
fn text_draws_itself_and_has_a_size_of_its_own() {
    let t = Text::new("hello".to_string())
        .style(StyleKey::FontSize, StyleVal::Number(20))
        .style(StyleKey::TextColor, StyleVal::Color(Color::rgb(1, 2, 3)));
    assert_eq!(t.natural_size(), Scale::new(50, 20));
    assert_eq!(Text::new("héllo".to_string()).natural_size(), Scale::new(30, 12));
    assert_eq!(Text::new(String::new()).natural_size(), Scale::new(0, 12));
    match &t.render(context(5, 6)).unwrap()[0] {
        Renderable::Text(r) => {
            assert_eq!(r.instance_data.text, "hello");
            assert_eq!(r.instance_data.color, Color::rgb(1, 2, 3));
            assert_eq!(r.instance_data.font_size, 20);
            assert_eq!(r.instance_data.pos, Pos::new(10, 20, 0));
        },
        other => panic!("{:?}", other),
    }
    let copy = t.duplicate();
    assert_eq!(copy.label, "hello");
    assert_eq!(copy.styled, t.styled);
    let mut node = Node::new(Widget::Text(t), Layout::new());
    node.layout(Scale::new(800, 600), 1);
    assert_eq!(node.aabb.size, Scale::new(50, 20));
    assert_eq!(Widget::Div(Div::new()).natural_size(), Scale::new(0, 0));
}

#[test]
fn defaults_are_empty() {
    let i = Image::default();
    assert_eq!(i.name, "");
    assert_eq!(i.dynamic_load_from, None);
    let s = Svg::default();
    assert_eq!(s.name, "");
    assert_eq!(s.dynamic_load_from, None);
    let b = SlideBar::default();
    assert_eq!(b.value, 0);
    assert!(b.state.grid.is_empty());
    assert_eq!(RoundedRect::default(), RoundedRect::new());
}
