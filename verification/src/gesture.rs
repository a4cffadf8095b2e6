//! From raw pointer input to semantic events: one state machine for the
//! mouse pointer and one for every touch point.
//!
//! The machine is fed samples: what the device did, and which node lies
//! under the pointer now (the result of a hit test).  It answers with the
//! semantic events to deliver, each with the path of its target.  A node
//! that has claimed a drag gets the rest of the drag for itself.
use vstd::prelude::*;
use crate::event::{Event, EventKind};
use crate::types::{coord, to_coord, Point, AABB, MAX_COORD};

verus! {

/// The largest total movement between press and release that still makes a click.
pub const CLICK_MAX_TRAVEL: i64 = 4;

/// The longest time between two clicks that make a double click, in milliseconds.
pub const DOUBLE_CLICK_INTERVAL_MS: u64 = 500;

/// Where the count of movement stops.
pub const MAX_TRAVEL: i64 = 1_125_899_906_842_624;

#[derive(Clone, Copy, Debug, PartialEq, Eq, Structural)]
pub enum Phase {
    /// Over no node, no button down.
    Idle,
    /// Over a node, no button down.
    Hover,
    /// Button or finger down, no movement yet.
    Pressed,
    /// Moving with the button or finger down.
    Dragging,
}

/// What the device did.
#[derive(Clone, Copy, Debug, PartialEq, Eq, Structural)]
pub enum PointerInput {
    /// Moved to a position, in logical units.
    Motion(Point),
    Press,
    Release,
    Cancel,
}

/// One input with its circumstances.
#[derive(Debug)]
pub struct Sample {
    pub input: PointerInput,
    /// The node under the pointer, as hit testing found it.
    pub hit: Option<Vec<usize>>,
    /// When the input happened, in milliseconds.
    pub time_ms: u64,
}

pub struct SampleModel {
    pub input: PointerInput,
    pub hit: Option<Seq<usize>>,
    pub time_ms: u64,
}

/// The views of an optional path.
pub open spec fn path_model(p: Option<Vec<usize>>) -> Option<Seq<usize>> {
    match p {
        Some(v) => Some(v@),
        None => None,
    }
}

impl View for Sample {
    type V = SampleModel;

    open spec fn view(&self) -> SampleModel {
        SampleModel { input: self.input, hit: path_model(self.hit), time_ms: self.time_ms }
    }
}

/// A semantic event and the node it is to be delivered to.
#[derive(Debug)]
pub struct Emitted {
    pub target: Vec<usize>,
    pub event: Event,
    /// Whether the event is for the target alone and does not bubble.
    pub solo: bool,
}

pub struct EmittedModel {
    pub target: Seq<usize>,
    pub event: Event,
    pub solo: bool,
}

impl View for Emitted {
    type V = EmittedModel;

    open spec fn view(&self) -> EmittedModel {
        EmittedModel { target: self.target@, event: self.event, solo: self.solo }
    }
}

/// The views of the elements of `events`.
pub open spec fn emitted_models(events: Seq<Emitted>) -> Seq<EmittedModel> {
    Seq::new(events.len(), |i: int| events[i]@)
}

/// The latest click, kept to recognise a double click.
#[derive(Debug)]
pub struct LastClick {
    pub time_ms: u64,
    pub target: Vec<usize>,
}

pub struct LastClickModel {
    pub time_ms: u64,
    pub target: Seq<usize>,
}

/// The state of one pointer or touch point.
#[derive(Debug)]
pub struct Gesture {
    /// Whether this is a touch point rather than the mouse pointer.
    pub touch: bool,
    pub phase: Phase,
    /// The latest position.
    pub position: Point,
    /// The node the pointer is over.
    pub over: Option<Vec<usize>>,
    /// Where the button went down.
    pub origin: Point,
    /// The node that received the press.
    pub target: Option<Vec<usize>>,
    /// The total movement since the press.
    pub travel: i64,
    /// The node that has claimed the drag for itself by stopping its start.
    pub claim: Option<Vec<usize>>,
    pub last_click: Option<LastClick>,
}

pub struct GestureModel {
    pub touch: bool,
    pub phase: Phase,
    pub position: Point,
    pub over: Option<Seq<usize>>,
    pub origin: Point,
    pub target: Option<Seq<usize>>,
    pub travel: i64,
    pub claim: Option<Seq<usize>>,
    pub last_click: Option<LastClickModel>,
}

impl View for Gesture {
    type V = GestureModel;

    open spec fn view(&self) -> GestureModel {
        GestureModel {
            touch: self.touch,
            phase: self.phase,
            position: self.position,
            over: path_model(self.over),
            origin: self.origin,
            target: path_model(self.target),
            travel: self.travel,
            claim: path_model(self.claim),
            last_click: match self.last_click {
                Some(c) => Some(LastClickModel { time_ms: c.time_ms, target: c.target@ }),
                None => None,
            },
        }
    }
}

/// The kind of event that a touch point emits where the mouse emits `kind`.
pub open spec fn kind_for(touch: bool, kind: EventKind) -> EventKind {
    if touch {
        match kind {
            EventKind::MouseDown => EventKind::TouchDown,
            EventKind::MouseUp => EventKind::TouchUp,
            EventKind::MouseMotion => EventKind::TouchMoved,
            EventKind::DragStart => EventKind::TouchDragStart,
            EventKind::Drag => EventKind::TouchDrag,
            EventKind::DragEnd => EventKind::TouchDragEnd,
            EventKind::Cancel => EventKind::TouchCancel,
            k => k,
        }
    } else {
        kind
    }
}

pub open spec fn abs(v: int) -> int {
    if v < 0 {
        -v
    } else {
        v
    }
}

/// `p` with both coordinates in range.
pub open spec fn sane(p: Point) -> Point {
    Point { x: coord(p.x as int) as i64, y: coord(p.y as int) as i64 }
}

/// The movement from `a` to `b`: horizontal plus vertical distance.
pub open spec fn distance(a: Point, b: Point) -> int {
    abs(sane(b).x - sane(a).x) + abs(sane(b).y - sane(a).y)
}

/// The difference `b - a`, coordinate by coordinate.
pub open spec fn step(a: Point, b: Point) -> Point {
    Point { x: (sane(b).x - sane(a).x) as i64, y: (sane(b).y - sane(a).y) as i64 }
}

/// `travel` with `d` added, stopping at `MAX_TRAVEL`.
pub open spec fn travelled(travel: i64, d: int) -> i64 {
    if travel < 0 {
        0
    } else if travel + d >= MAX_TRAVEL {
        MAX_TRAVEL
    } else {
        (travel + d) as i64
    }
}

impl GestureModel {
    /// A pointer that has not been seen yet.
    pub open spec fn initial(touch: bool) -> GestureModel {
        GestureModel {
            touch,
            phase: Phase::Idle,
            position: Point { x: 0, y: 0 },
            over: None,
            origin: Point { x: 0, y: 0 },
            target: None,
            travel: 0,
            claim: None,
            last_click: None,
        }
    }

    /// The event of kind `kind` for `target`, at position `at`, `delta` away from the last.
    pub open spec fn emit(self, target: Seq<usize>, kind: EventKind, at: Point, delta: Point) -> EmittedModel {
        EmittedModel {
            solo: false,
            target,
            event: Event {
                kind: kind_for(self.touch, kind),
                position: at,
                origin: self.origin,
                delta,
                key: 0,
                time_ms: 0,
                scale_factor: 1,
                current_aabb: AABB::zero(),
                current_inner_scale: None,
            },
        }
    }

    /// The phase of a pointer with no button down and `hit` under it.
    pub open spec fn resting(hit: Option<Seq<usize>>) -> Phase {
        if hit is Some {
            Phase::Hover
        } else {
            Phase::Idle
        }
    }

    /// Movement with no button down: the node left, the node entered, and
    /// the motion itself for the node under the pointer.
    pub open spec fn hovered(self, p: Point, hit: Option<Seq<usize>>) -> (
        GestureModel,
        Seq<EmittedModel>,
    ) {
        let q = sane(p);
        let zero = Point { x: 0, y: 0 };
        let leave = if self.over != hit && self.over is Some && !self.touch {
            seq![self.emit(self.over.unwrap(), EventKind::MouseLeave, q, zero)]
        } else {
            Seq::empty()
        };
        let enter = if self.over != hit && hit is Some && !self.touch {
            seq![self.emit(hit.unwrap(), EventKind::MouseEnter, q, zero)]
        } else {
            Seq::empty()
        };
        let motion = if hit is Some {
            seq![self.emit(hit.unwrap(), EventKind::MouseMotion, q, step(self.position, p))]
        } else {
            Seq::empty()
        };
        (
            GestureModel { phase: Self::resting(hit), position: q, over: hit, ..self },
            leave + enter + motion,
        )
    }

    /// The event `e` of a drag as it is sent: to the node that has claimed
    /// the drag, alone, if one has; else to the pressed node, from where it
    /// bubbles.
    pub open spec fn addressed(self, e: EmittedModel) -> EmittedModel {
        match self.claim {
            Some(c) => EmittedModel { target: c, solo: true, ..e },
            None => e,
        }
    }

    /// Movement with the button down: the first one starts the drag.
    pub open spec fn dragged(self, p: Point) -> (GestureModel, Seq<EmittedModel>) {
        let q = sane(p);
        let next = GestureModel {
            phase: Phase::Dragging,
            position: q,
            travel: travelled(self.travel, distance(self.position, p)),
            ..self
        };
        match self.target {
            Some(t) => {
                let drag = self.addressed(
                    self.emit(t, EventKind::Drag, q, step(self.position, p)),
                );
                if self.phase is Pressed {
                    (
                        next,
                        seq![
                            self.emit(t, EventKind::DragStart, sane(self.position), Point { x: 0, y: 0 }),
                            drag,
                        ],
                    )
                } else {
                    (next, seq![drag])
                }
            },
            None => (next, Seq::empty()),
        }
    }

    /// Whether a release over `hit` makes a click on the pressed node.
    pub open spec fn clicks(self, hit: Option<Seq<usize>>) -> bool {
        self.target is Some && hit == self.target && self.travel <= CLICK_MAX_TRAVEL
    }

    /// Whether a click at `time_ms` is the second of a double click.
    pub open spec fn doubles(self, time_ms: u64) -> bool {
        self.last_click matches Some(c) && Some(c.target) == self.target && c.time_ms <= time_ms
            && time_ms - c.time_ms <= DOUBLE_CLICK_INTERVAL_MS
    }

    /// The button goes up.
    pub open spec fn released(self, hit: Option<Seq<usize>>, time_ms: u64) -> (
        GestureModel,
        Seq<EmittedModel>,
    ) {
        let zero = Point { x: 0, y: 0 };
        let at = self.position;
        match self.target {
            Some(t) => {
                let up = seq![self.emit(t, EventKind::MouseUp, at, zero)];
                let end = if self.phase is Dragging {
                    seq![self.addressed(self.emit(t, EventKind::DragEnd, at, zero))]
                } else {
                    Seq::empty()
                };
                let click = if !self.clicks(hit) {
                    Seq::empty()
                } else if self.doubles(time_ms) {
                    seq![self.emit(t, EventKind::DoubleClick, at, zero)]
                } else {
                    seq![self.emit(t, EventKind::Click, at, zero)]
                };
                (
                    GestureModel {
                        phase: Self::resting(hit),
                        over: hit,
                        target: None,
                        travel: 0,
                        claim: None,
                        last_click: if !self.clicks(hit) {
                            self.last_click
                        } else if self.doubles(time_ms) {
                            None
                        } else {
                            Some(LastClickModel { time_ms, target: t })
                        },
                        ..self
                    },
                    up + end + click,
                )
            },
            None => (
                GestureModel {
                    phase: Self::resting(hit),
                    over: hit,
                    travel: 0,
                    claim: None,
                    ..self
                },
                Seq::empty(),
            ),
        }
    }

    /// The gesture is abandoned.
    pub open spec fn cancelled(self) -> (GestureModel, Seq<EmittedModel>) {
        let zero = Point { x: 0, y: 0 };
        (
            GestureModel {
                phase: Phase::Idle,
                over: None,
                target: None,
                travel: 0,
                claim: None,
                ..self
            },
            match self.target {
                Some(t) => seq![self.emit(t, EventKind::Cancel, self.position, zero)],
                None => match self.over {
                    Some(o) => seq![self.emit(o, EventKind::Cancel, self.position, zero)],
                    None => Seq::empty(),
                },
            },
        )
    }

    /// The state after one sample, and the events to deliver.
    pub open spec fn stepped(self, s: SampleModel) -> (GestureModel, Seq<EmittedModel>) {
        match s.input {
            PointerInput::Motion(p) => match self.phase {
                Phase::Idle | Phase::Hover => self.hovered(p, s.hit),
                Phase::Pressed | Phase::Dragging => self.dragged(p),
            },
            PointerInput::Press => match self.phase {
                Phase::Idle | Phase::Hover => match s.hit {
                    Some(t) => (
                        GestureModel {
                            phase: Phase::Pressed,
                            origin: self.position,
                            over: s.hit,
                            target: Some(t),
                            travel: 0,
                            claim: None,
                            ..self
                        },
                        seq![
                            GestureModel { origin: self.position, ..self }.emit(
                                t,
                                EventKind::MouseDown,
                                self.position,
                                Point { x: 0, y: 0 },
                            ),
                        ],
                    ),
                    None => (self, Seq::empty()),
                },
                Phase::Pressed | Phase::Dragging => (self, Seq::empty()),
            },
            PointerInput::Release => match self.phase {
                Phase::Pressed | Phase::Dragging => self.released(s.hit, s.time_ms),
                Phase::Idle | Phase::Hover => (self, Seq::empty()),
            },
            PointerInput::Cancel => self.cancelled(),
        }
    }

    /// The state after the node at `path` has claimed the drag.  Only a
    /// drag that is under way can be claimed.
    pub open spec fn claimed(self, path: Seq<usize>) -> GestureModel {
        if self.phase is Dragging {
            GestureModel { claim: Some(path), ..self }
        } else {
            self
        }
    }

    /// The state after all of `samples`, and all events in order.
    pub open spec fn ran(self, samples: Seq<SampleModel>) -> (GestureModel, Seq<EmittedModel>)
        decreases samples.len(),
    {
        if samples.len() == 0 {
            (self, Seq::empty())
        } else {
            let before = self.ran(samples.drop_last());
            let last = before.0.stepped(samples.last());
            (last.0, before.1 + last.1)
        }
    }
}

/// How many events of `events` are of kind `kind`.
pub open spec fn count(events: Seq<EmittedModel>, kind: EventKind) -> nat
    decreases events.len(),
{
    if events.len() == 0 {
        0
    } else {
        count(events.drop_last(), kind) + if events.last().event.kind == kind {
            1nat
        } else {
            0nat
        }
    }
}

/// A copy of `path`.
pub fn copy_path(path: &Vec<usize>) -> (r: Vec<usize>)
    ensures
        r@ == path@,
{
    let mut r: Vec<usize> = Vec::new();
    let mut i: usize = 0;
    while i < path.len()
        invariant
            i <= path.len(),
            r@ == path@.subrange(0, i as int),
        decreases path.len() - i,
    {
        r.push(path[i]);
        assert(r@ =~= path@.subrange(0, i + 1));
        i += 1;
    }
    assert(r@ =~= path@);
    r
}

/// A copy of an optional path.
pub fn copy_target(path: &Option<Vec<usize>>) -> (r: Option<Vec<usize>>)
    ensures
        path_model(r) == path_model(*path),
{
    match path {
        Some(p) => Some(copy_path(p)),
        None => None,
    }
}

/// Whether two paths name the same node.
pub fn same_path(a: &Vec<usize>, b: &Vec<usize>) -> (r: bool)
    ensures
        r == (a@ == b@),
{
    if a.len() != b.len() {
        return false;
    }
    let mut i: usize = 0;
    while i < a.len()
        invariant
            i <= a.len(),
            a.len() == b.len(),
            forall|j: int| 0 <= j < i ==> a@[j] == b@[j],
        decreases a.len() - i,
    {
        if a[i] != b[i] {
            return false;
        }
        i += 1;
    }
    assert(a@ =~= b@);
    true
}

/// Whether two optional paths name the same node, or both none.
pub fn same_target(a: &Option<Vec<usize>>, b: &Option<Vec<usize>>) -> (r: bool)
    ensures
        r == (path_model(*a) == path_model(*b)),
{
    match (a, b) {
        (Some(x), Some(y)) => same_path(x, y),
        (None, None) => true,
        _ => false,
    }
}

fn sanitize(p: Point) -> (q: Point)
    ensures
        q == sane(p),
        q.in_range(),
{
    Point { x: to_coord(p.x), y: to_coord(p.y) }
}

fn step_between(a: Point, b: Point) -> (d: Point)
    ensures
        d == step(a, b),
{
    let a = sanitize(a);
    let b = sanitize(b);
    Point { x: b.x - a.x, y: b.y - a.y }
}

fn distance_between(a: Point, b: Point) -> (d: i64)
    ensures
        d == distance(a, b),
        0 <= d <= 4 * MAX_COORD,
{
    let a = sanitize(a);
    let b = sanitize(b);
    let dx = b.x - a.x;
    let dy = b.y - a.y;
    (if dx < 0 {
        -dx
    } else {
        dx
    }) + (if dy < 0 {
        -dy
    } else {
        dy
    })
}

fn add_travel(travel: i64, d: i64) -> (r: i64)
    requires
        0 <= d <= 4 * MAX_COORD,
    ensures
        r == travelled(travel, d as int),
{
    if travel < 0 {
        0
    } else if travel >= MAX_TRAVEL - d {
        MAX_TRAVEL
    } else {
        travel + d
    }
}

fn touch_kind(touch: bool, kind: EventKind) -> (r: EventKind)
    ensures
        r == kind_for(touch, kind),
{
    if touch {
        match kind {
            EventKind::MouseDown => EventKind::TouchDown,
            EventKind::MouseUp => EventKind::TouchUp,
            EventKind::MouseMotion => EventKind::TouchMoved,
            EventKind::DragStart => EventKind::TouchDragStart,
            EventKind::Drag => EventKind::TouchDrag,
            EventKind::DragEnd => EventKind::TouchDragEnd,
            EventKind::Cancel => EventKind::TouchCancel,
            k => k,
        }
    } else {
        kind
    }
}

impl Gesture {
    /// The state of a pointer that has not been seen yet.
    pub fn new(touch: bool) -> (g: Gesture)
        ensures
            g@ == GestureModel::initial(touch),
    {
        Gesture {
            touch,
            phase: Phase::Idle,
            position: Point { x: 0, y: 0 },
            over: None,
            origin: Point { x: 0, y: 0 },
            target: None,
            travel: 0,
            claim: None,
            last_click: None,
        }
    }

    /// Notes that the node at `path` has claimed the drag for itself.
    pub fn claim(&mut self, path: Vec<usize>)
        ensures
            final(self)@ == old(self)@.claimed(path@),
    {
        if let Phase::Dragging = self.phase {
            self.claim = Some(path);
        }
    }

    fn address(&self, e: Emitted) -> (r: Emitted)
        ensures
            r@ == self@.addressed(e@),
    {
        match &self.claim {
            Some(c) => Emitted { target: copy_path(c), event: e.event, solo: true },
            None => e,
        }
    }

    fn emit(&self, target: &Vec<usize>, kind: EventKind, at: Point, delta: Point) -> (e: Emitted)
        ensures
            e@ == self@.emit(target@, kind, at, delta),
    {
        Emitted {
            solo: false,
            target: copy_path(target),
            event: Event {
                kind: touch_kind(self.touch, kind),
                position: at,
                origin: self.origin,
                delta,
                key: 0,
                time_ms: 0,
                scale_factor: 1,
                current_aabb: AABB::empty(),
                current_inner_scale: None,
            },
        }
    }

    fn hover(&mut self, p: Point, hit: Option<Vec<usize>>) -> (out: Vec<Emitted>)
        ensures
            (final(self)@, emitted_models(out@)) == old(self)@.hovered(p, path_model(hit)),
    {
        let q = sanitize(p);
        let zero = Point { x: 0, y: 0 };
        let mut out: Vec<Emitted> = Vec::new();
        let changed = !same_target(&self.over, &hit);
        if changed && !self.touch {
            if let Some(o) = &self.over {
                let e = self.emit(o, EventKind::MouseLeave, q, zero);
                out.push(e);
            }
            if let Some(h) = &hit {
                let e = self.emit(h, EventKind::MouseEnter, q, zero);
                out.push(e);
            }
        }
        if let Some(h) = &hit {
            let e = self.emit(h, EventKind::MouseMotion, q, step_between(self.position, p));
            out.push(e);
        }
        self.phase = if hit.is_some() {
            Phase::Hover
        } else {
            Phase::Idle
        };
        self.position = q;
        self.over = hit;
        assert(emitted_models(out@) =~= old(self)@.hovered(p, path_model(hit)).1);
        out
    }

    fn drag(&mut self, p: Point) -> (out: Vec<Emitted>)
        ensures
            (final(self)@, emitted_models(out@)) == old(self)@.dragged(p),
    {
        let q = sanitize(p);
        let mut out: Vec<Emitted> = Vec::new();
        if let Some(t) = &self.target {
            if let Phase::Pressed = self.phase {
                let e = self.emit(
                    t,
                    EventKind::DragStart,
                    sanitize(self.position),
                    Point { x: 0, y: 0 },
                );
                out.push(e);
            }
            let e = self.emit(t, EventKind::Drag, q, step_between(self.position, p));
            let e = self.address(e);
            out.push(e);
        }
        self.travel = add_travel(self.travel, distance_between(self.position, p));
        self.phase = Phase::Dragging;
        self.position = q;
        assert(emitted_models(out@) =~= old(self)@.dragged(p).1);
        out
    }

    fn doubles(&self, time_ms: u64) -> (r: bool)
        ensures
            r == self@.doubles(time_ms),
    {
        match (&self.last_click, &self.target) {
            (Some(c), Some(t)) => same_path(&c.target, t) && c.time_ms <= time_ms && time_ms
                - c.time_ms <= DOUBLE_CLICK_INTERVAL_MS,
            _ => false,
        }
    }

    fn release(&mut self, hit: Option<Vec<usize>>, time_ms: u64) -> (out: Vec<Emitted>)
        ensures
            (final(self)@, emitted_models(out@)) == old(self)@.released(path_model(hit), time_ms),
    {
        let zero = Point { x: 0, y: 0 };
        let at = self.position;
        let mut out: Vec<Emitted> = Vec::new();
        let clicks = self.target.is_some() && same_target(&hit, &self.target) && self.travel
            <= CLICK_MAX_TRAVEL;
        let doubles = self.doubles(time_ms);
        let target = copy_target(&self.target);
        if let Some(t) = target {
            let e = self.emit(&t, EventKind::MouseUp, at, zero);
            out.push(e);
            if let Phase::Dragging = self.phase {
                let e = self.emit(&t, EventKind::DragEnd, at, zero);
                let e = self.address(e);
                out.push(e);
            }
            if clicks {
                if doubles {
                    let e = self.emit(&t, EventKind::DoubleClick, at, zero);
                    out.push(e);
                    self.last_click = None;
                } else {
                    let e = self.emit(&t, EventKind::Click, at, zero);
                    out.push(e);
                    self.last_click = Some(LastClick { time_ms, target: t });
                }
            }
        }
        self.phase = if hit.is_some() {
            Phase::Hover
        } else {
            Phase::Idle
        };
        self.over = hit;
        self.target = None;
        self.travel = 0;
        self.claim = None;
        assert(emitted_models(out@) =~= old(self)@.released(path_model(hit), time_ms).1);
        out
    }

    fn cancel(&mut self) -> (out: Vec<Emitted>)
        ensures
            (final(self)@, emitted_models(out@)) == old(self)@.cancelled(),
    {
        let zero = Point { x: 0, y: 0 };
        let mut out: Vec<Emitted> = Vec::new();
        match &self.target {
            Some(t) => {
                let e = self.emit(t, EventKind::Cancel, self.position, zero);
                out.push(e);
            },
            None => match &self.over {
                Some(o) => {
                    let e = self.emit(o, EventKind::Cancel, self.position, zero);
                    out.push(e);
                },
                None => {},
            },
        }
        self.phase = Phase::Idle;
        self.over = None;
        self.target = None;
        self.travel = 0;
        self.claim = None;
        assert(emitted_models(out@) =~= old(self)@.cancelled().1);
        out
    }

    /// Takes one sample; answers with the semantic events to deliver, in order.
    pub fn step(&mut self, sample: Sample) -> (out: Vec<Emitted>)
        ensures
            (final(self)@, emitted_models(out@)) == old(self)@.stepped(sample@),
    {
        let Sample { input, hit, time_ms } = sample;
        match input {
            PointerInput::Motion(p) => match self.phase {
                Phase::Idle | Phase::Hover => self.hover(p, hit),
                Phase::Pressed | Phase::Dragging => self.drag(p),
            },
            PointerInput::Press => match self.phase {
                Phase::Idle | Phase::Hover => match hit {
                    Some(t) => {
                        self.origin = self.position;
                        let e = self.emit(
                            &t,
                            EventKind::MouseDown,
                            self.position,
                            Point { x: 0, y: 0 },
                        );
                        let mut out: Vec<Emitted> = Vec::new();
                        out.push(e);
                        self.phase = Phase::Pressed;
                        self.over = Some(copy_path(&t));
                        self.target = Some(t);
                        self.travel = 0;
                        self.claim = None;
                        assert(emitted_models(out@) =~= old(self)@.stepped(sample@).1);
                        out
                    },
                    None => {
                        let out: Vec<Emitted> = Vec::new();
                        assert(emitted_models(out@) =~= Seq::<EmittedModel>::empty());
                        out
                    },
                },
                Phase::Pressed | Phase::Dragging => {
                    let out: Vec<Emitted> = Vec::new();
                    assert(emitted_models(out@) =~= Seq::<EmittedModel>::empty());
                    out
                },
            },
            PointerInput::Release => match self.phase {
                Phase::Pressed | Phase::Dragging => self.release(hit, time_ms),
                Phase::Idle | Phase::Hover => {
                    let out: Vec<Emitted> = Vec::new();
                    assert(emitted_models(out@) =~= Seq::<EmittedModel>::empty());
                    out
                },
            },
            PointerInput::Cancel => self.cancel(),
        }
    }
}

} // verus!
