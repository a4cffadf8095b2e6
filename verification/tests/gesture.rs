use mctk::event::EventKind;
use mctk::gesture::{
    copy_path, same_path, Emitted, Gesture, Phase, PointerInput, Sample, CLICK_MAX_TRAVEL,
    DOUBLE_CLICK_INTERVAL_MS,
};
use mctk::types::Point;

fn sample(input: PointerInput, hit: Option<Vec<usize>>, time_ms: u64) -> Sample {
    Sample { input, hit, time_ms }
}

fn motion(x: i64, y: i64, hit: Option<Vec<usize>>) -> Sample {
    sample(PointerInput::Motion(Point::new(x, y)), hit, 0)
}

fn kinds(events: &Vec<Emitted>) -> Vec<EventKind> {
    events.iter().map(|e| e.event.kind).collect()
}

fn count(events: &Vec<Emitted>, kind: EventKind) -> usize {
    events.iter().filter(|e| e.event.kind == kind).count()
}

fn node() -> Option<Vec<usize>> {
    Some(vec![0, 2])
}

fn run(gesture: &mut Gesture, samples: Vec<Sample>) -> Vec<Emitted> {
    let mut all = Vec::new();
    for s in samples {
        all.extend(gesture.step(s));
    }
    all
}

#[test]
fn press_move_move_release_is_one_drag_without_click() {
    let mut g = Gesture::new(false);
    let events = run(
        &mut g,
        vec![
            motion(5, 5, node()),
            sample(PointerInput::Press, node(), 1),
            motion(10, 5, node()),
            motion(30, 5, node()),
            sample(PointerInput::Release, node(), 2),
        ],
    );
    assert_eq!(
        kinds(&events),
        vec![
            EventKind::MouseEnter,
            EventKind::MouseMotion,
            EventKind::MouseDown,
            EventKind::DragStart,
            EventKind::Drag,
            EventKind::Drag,
            EventKind::MouseUp,
            EventKind::DragEnd,
        ]
    );
    assert_eq!(count(&events, EventKind::DragStart), 1);
    assert_eq!(count(&events, EventKind::Drag), 2);
    assert_eq!(count(&events, EventKind::DragEnd), 1);
    assert_eq!(count(&events, EventKind::Click), 0);
    assert!(events.iter().all(|e| e.target == vec![0, 2]));
    assert_eq!(g.phase, Phase::Hover);
    assert_eq!(g.target, None);
}

#[test]
fn seven_moves_give_seven_drags() {
    let mut g = Gesture::new(false);
    let mut samples = vec![motion(0, 0, node()), sample(PointerInput::Press, node(), 0)];
    for i in 1..=7 {
        samples.push(motion(10 * i, 0, node()));
    }
    samples.push(sample(PointerInput::Release, None, 0));
    let events = run(&mut g, samples);
    assert_eq!(count(&events, EventKind::DragStart), 1);
    assert_eq!(count(&events, EventKind::Drag), 7);
    assert_eq!(count(&events, EventKind::DragEnd), 1);
    assert_eq!(count(&events, EventKind::Click), 0);
    assert_eq!(count(&events, EventKind::DoubleClick), 0);
    assert_eq!(g.phase, Phase::Idle);
}

#[test]
fn press_release_without_motion_is_one_click_and_no_drag() {
    let mut g = Gesture::new(false);
    let events = run(
        &mut g,
        vec![
            motion(5, 5, node()),
            sample(PointerInput::Press, node(), 10),
            sample(PointerInput::Release, node(), 20),
        ],
    );
    assert_eq!(
        kinds(&events),
        vec![
            EventKind::MouseEnter,
            EventKind::MouseMotion,
            EventKind::MouseDown,
            EventKind::MouseUp,
            EventKind::Click,
        ]
    );
    assert_eq!(count(&events, EventKind::DragStart), 0);
    assert_eq!(count(&events, EventKind::Drag), 0);
    assert_eq!(count(&events, EventKind::DragEnd), 0);
}

#[test]
fn movement_within_the_click_distance_still_clicks() {
    assert_eq!(CLICK_MAX_TRAVEL, 4);
    let mut g = Gesture::new(false);
    let events = run(
        &mut g,
        vec![
            motion(5, 5, node()),
            sample(PointerInput::Press, node(), 0),
            motion(7, 7, node()),
            sample(PointerInput::Release, node(), 0),
        ],
    );
    assert_eq!(
        kinds(&events)[3..].to_vec(),
        vec![
            EventKind::DragStart,
            EventKind::Drag,
            EventKind::MouseUp,
            EventKind::DragEnd,
            EventKind::Click
        ]
    );
    let mut far = Gesture::new(false);
    let events = run(
        &mut far,
        vec![
            motion(5, 5, node()),
            sample(PointerInput::Press, node(), 0),
            motion(8, 7, node()),
            sample(PointerInput::Release, node(), 0),
        ],
    );
    assert_eq!(count(&events, EventKind::Click), 0);
}

#[test]
fn going_there_and_back_counts_as_movement() {
    let mut g = Gesture::new(false);
    let events = run(
        &mut g,
        vec![
            motion(5, 5, node()),
            sample(PointerInput::Press, node(), 0),
            motion(8, 5, node()),
            motion(5, 5, node()),
            sample(PointerInput::Release, node(), 0),
        ],
    );
    assert_eq!(count(&events, EventKind::Click), 0);
    assert_eq!(count(&events, EventKind::Drag), 2);
}

#[test]
fn release_over_another_node_does_not_click() {
    let mut g = Gesture::new(false);
    let events = run(
        &mut g,
        vec![
            motion(5, 5, node()),
            sample(PointerInput::Press, node(), 0),
            sample(PointerInput::Release, Some(vec![1]), 0),
        ],
    );
    assert_eq!(count(&events, EventKind::Click), 0);
    assert_eq!(count(&events, EventKind::MouseUp), 1);
    assert_eq!(events.last().unwrap().target, vec![0, 2]);
}

#[test]
fn two_quick_clicks_are_a_click_and_a_double_click() {
    assert_eq!(DOUBLE_CLICK_INTERVAL_MS, 500);
    let mut g = Gesture::new(false);
    let click = |g: &mut Gesture, t: u64| {
        run(g, vec![sample(PointerInput::Press, node(), t), sample(PointerInput::Release, node(), t)])
    };
    run(&mut g, vec![motion(1, 1, node())]);
    let first = click(&mut g, 1000);
    let second = click(&mut g, 1500);
    let third = click(&mut g, 1600);
    let fourth = click(&mut g, 2101);
    assert_eq!(kinds(&first), vec![EventKind::MouseDown, EventKind::MouseUp, EventKind::Click]);
    assert_eq!(
        kinds(&second),
        vec![EventKind::MouseDown, EventKind::MouseUp, EventKind::DoubleClick]
    );
    assert_eq!(kinds(&third), vec![EventKind::MouseDown, EventKind::MouseUp, EventKind::Click]);
    assert_eq!(kinds(&fourth), vec![EventKind::MouseDown, EventKind::MouseUp, EventKind::Click]);
}

#[test]
fn clicks_on_different_nodes_do_not_double() {
    let mut g = Gesture::new(false);
    run(&mut g, vec![motion(1, 1, node())]);
    run(
        &mut g,
        vec![sample(PointerInput::Press, node(), 0), sample(PointerInput::Release, node(), 0)],
    );
    let other = run(
        &mut g,
        vec![
            sample(PointerInput::Press, Some(vec![9]), 10),
            sample(PointerInput::Release, Some(vec![9]), 10),
        ],
    );
    assert_eq!(count(&other, EventKind::Click), 1);
    assert_eq!(count(&other, EventKind::DoubleClick), 0);
}

#[test]
fn cancel_ends_the_gesture_without_click() {
    let mut g = Gesture::new(false);
    let events = run(
        &mut g,
        vec![
            motion(5, 5, node()),
            sample(PointerInput::Press, node(), 0),
            sample(PointerInput::Cancel, node(), 0),
            sample(PointerInput::Release, node(), 0),
        ],
    );
    assert_eq!(
        kinds(&events),
        vec![
            EventKind::MouseEnter,
            EventKind::MouseMotion,
            EventKind::MouseDown,
            EventKind::Cancel
        ]
    );
    assert_eq!(g.phase, Phase::Idle);
}

#[test]
fn release_without_press_and_press_on_nothing_are_ignored() {
    let mut g = Gesture::new(false);
    assert!(g.step(sample(PointerInput::Release, node(), 0)).is_empty());
    assert!(g.step(sample(PointerInput::Press, None, 0)).is_empty());
    assert_eq!(g.phase, Phase::Idle);
    assert!(g.step(sample(PointerInput::Cancel, None, 0)).is_empty());
    run(&mut g, vec![motion(1, 1, node()), sample(PointerInput::Press, node(), 0)]);
    assert!(g.step(sample(PointerInput::Press, node(), 0)).is_empty());
    assert_eq!(g.phase, Phase::Pressed);
}

#[test]
fn hovering_enters_and_leaves() {
    let mut g = Gesture::new(false);
    let a = g.step(motion(1, 1, Some(vec![0])));
    let same = g.step(motion(2, 1, Some(vec![0])));
    let b = g.step(motion(3, 1, Some(vec![1])));
    let out = g.step(motion(4, 1, None));
    assert_eq!(kinds(&a), vec![EventKind::MouseEnter, EventKind::MouseMotion]);
    assert_eq!(kinds(&same), vec![EventKind::MouseMotion]);
    assert_eq!(
        kinds(&b),
        vec![EventKind::MouseLeave, EventKind::MouseEnter, EventKind::MouseMotion]
    );
    assert_eq!(b[0].target, vec![0]);
    assert_eq!(b[1].target, vec![1]);
    assert_eq!(kinds(&out), vec![EventKind::MouseLeave]);
    assert_eq!(out[0].target, vec![1]);
    assert_eq!(g.phase, Phase::Idle);
    assert_eq!(same[0].event.delta, Point::new(1, 0));
}

#[test]
fn drag_events_carry_origin_and_step() {
    let mut g = Gesture::new(false);
    let events = run(
        &mut g,
        vec![
            motion(5, 5, node()),
            sample(PointerInput::Press, node(), 0),
            motion(10, 7, node()),
            motion(30, 3, node()),
        ],
    );
    let start = &events[3];
    let first = &events[4];
    let second = &events[5];
    assert_eq!(start.event.kind, EventKind::DragStart);
    assert_eq!(start.event.position, Point::new(5, 5));
    assert_eq!(first.event.origin, Point::new(5, 5));
    assert_eq!(first.event.position, Point::new(10, 7));
    assert_eq!(first.event.delta, Point::new(5, 2));
    assert_eq!(second.event.delta, Point::new(20, -4));
    assert_eq!(g.travel, 7 + 24);
    assert_eq!(g.phase, Phase::Dragging);
}

#[test]
fn a_touch_point_emits_touch_events() {
    let mut g = Gesture::new(true);
    let events = run(
        &mut g,
        vec![
            sample(PointerInput::Press, node(), 0),
            motion(10, 5, node()),
            motion(30, 5, node()),
            sample(PointerInput::Release, node(), 0),
        ],
    );
    assert_eq!(
        kinds(&events),
        vec![
            EventKind::TouchDown,
            EventKind::TouchDragStart,
            EventKind::TouchDrag,
            EventKind::TouchDrag,
            EventKind::TouchUp,
            EventKind::TouchDragEnd,
        ]
    );
    let tap = run(
        &mut g,
        vec![sample(PointerInput::Press, node(), 0), sample(PointerInput::Release, node(), 0)],
    );
    assert_eq!(kinds(&tap), vec![EventKind::TouchDown, EventKind::TouchUp, EventKind::Click]);
    let cancelled = run(
        &mut g,
        vec![sample(PointerInput::Press, node(), 0), sample(PointerInput::Cancel, None, 0)],
    );
    assert_eq!(kinds(&cancelled), vec![EventKind::TouchDown, EventKind::TouchCancel]);
}

#[test]
fn a_claimed_drag_goes_to_the_claimant_alone() {
    let mut g = Gesture::new(false);
    run(
        &mut g,
        vec![motion(5, 5, node()), sample(PointerInput::Press, node(), 0), motion(9, 9, node())],
    );
    g.claim(vec![0]);
    let events = run(&mut g, vec![motion(20, 20, node()), sample(PointerInput::Release, node(), 0)]);
    assert_eq!(kinds(&events), vec![EventKind::Drag, EventKind::MouseUp, EventKind::DragEnd]);
    assert_eq!(events[0].target, vec![0]);
    assert!(events[0].solo);
    assert_eq!(events[1].target, vec![0, 2]);
    assert!(!events[1].solo);
    assert_eq!(events[2].target, vec![0]);
    assert!(events[2].solo);
    assert_eq!(g.claim, None);
}

#[test]
fn only_a_drag_under_way_can_be_claimed() {
    let mut g = Gesture::new(false);
    g.claim(vec![1]);
    assert_eq!(g.claim, None);
    run(&mut g, vec![motion(5, 5, node()), sample(PointerInput::Press, node(), 0)]);
    g.claim(vec![1]);
    assert_eq!(g.claim, None);
}

#[test]
fn positions_out_of_range_are_brought_into_range() {
    let mut g = Gesture::new(false);
    let events = g.step(motion(i64::MAX, i64::MIN, node()));
    assert_eq!(events[1].event.position, Point::new(1 << 40, -(1 << 40)));
    let more = run(
        &mut g,
        vec![sample(PointerInput::Press, node(), 0), motion(i64::MIN, i64::MAX, node())],
    );
    assert_eq!(more[2].event.delta, Point::new(-(1 << 41), 1 << 41));
    assert_eq!(g.travel, 1 << 42);
}

#[test]
fn paths_compare_and_copy() {
    assert!(same_path(&vec![1, 2, 3], &vec![1, 2, 3]));
    assert!(!same_path(&vec![1, 2, 3], &vec![1, 2]));
    assert!(!same_path(&vec![1, 2, 3], &vec![1, 2, 4]));
    assert!(same_path(&vec![], &vec![]));
    assert_eq!(copy_path(&vec![4, 5]), vec![4, 5]);
}
