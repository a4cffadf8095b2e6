//! A bar of lit and dark cells whose value is set by dragging across it.
use vstd::prelude::*;
use crate::component::{mixed, BoxContext, ComponentHasher};
use crate::event::{Event, EventKind, MessageFactory, Reaction, ReactionModel};
use crate::layout::{Alignment, Dimension, Direction, Layout, Rect, Size};
use crate::node::{Modeled, Node, NodeModel};
use crate::style::Styled;
use crate::types::{coord, extent, offset, to_coord, to_extent, to_offset, Color, Point, AABB};
use crate::widgets::button::{fire, fired};
use crate::widgets::div::Div;
use crate::widgets::grid::{
    fill_grid_with_true, filled, grid_model, is_permutation, lemma_random_cells_are_counted, lit_by,
    lit_cells, make_filled, smaller,
};
use crate::widgets::{Widget, WidgetModel};

verus! {

/// The largest number of rows or columns of a grid.
pub const MAX_GRID: i64 = 1024;

/// How many cells are lit where cells are lit at random.
pub const RANDOM_CELLS: usize = 20;

#[derive(Clone, Copy, Debug, PartialEq, Eq, Structural)]
pub enum SlideBarType {
    Box,
    Line,
}

/// What a slide bar remembers from frame to frame.
#[derive(Debug)]
pub struct SlideBarState {
    pub value: u8,
    pub grid: Vec<Vec<bool>>,
    pub elapsed_ticks: usize,
    pub last_frame_index: Option<usize>,
    pub is_dragging: bool,
    /// How many cells are still to be lit at random, if any are.
    pub pending_fill: Option<usize>,
}

pub struct SlideBarStateModel {
    pub value: u8,
    pub grid: Seq<Seq<bool>>,
    pub elapsed_ticks: usize,
    pub last_frame_index: Option<usize>,
    pub is_dragging: bool,
    /// How many cells are still to be lit at random, if any are.
    pub pending_fill: Option<usize>,
}

impl View for SlideBarState {
    type V = SlideBarStateModel;

    open spec fn view(&self) -> SlideBarStateModel {
        SlideBarStateModel {
            value: self.value,
            grid: grid_model(self.grid@),
            elapsed_ticks: self.elapsed_ticks,
            last_frame_index: self.last_frame_index,
            is_dragging: self.is_dragging,
            pending_fill: self.pending_fill,
        }
    }
}

#[derive(Debug)]
pub struct SlideBar {
    pub value: u8,
    pub slider_type: SlideBarType,
    pub height: u8,
    pub active_color: Color,
    pub bg_color: Color,
    pub animation_bg_color: Color,
    pub col_width: i64,
    pub col_spacing: i64,
    pub row_spacing: i64,
    pub on_slide: Option<MessageFactory>,
    pub on_slide_end: Option<MessageFactory>,
    pub reset_on_slide_end: bool,
    pub fill_random_on_start: bool,
    pub fill_random_on_slide: bool,
    pub has_idle_animation: bool,
    pub state: SlideBarState,
    pub dirty: bool,
}

/// The mathematical value of a `SlideBar`.
pub struct SlideBarModel {
    pub value: u8,
    pub slider_type: SlideBarType,
    pub height: u8,
    pub active_color: Color,
    pub bg_color: Color,
    pub animation_bg_color: Color,
    pub col_width: i64,
    pub col_spacing: i64,
    pub row_spacing: i64,
    pub on_slide: Option<MessageFactory>,
    pub on_slide_end: Option<MessageFactory>,
    pub reset_on_slide_end: bool,
    pub fill_random_on_start: bool,
    pub fill_random_on_slide: bool,
    pub has_idle_animation: bool,
    pub state: SlideBarStateModel,
    pub dirty: bool,
}

/// The value that a pointer `dx` to the right of the left edge of a bar of
/// width `width` stands for: the percentage of the width, between 0 and 100.
pub open spec fn slide_value(dx: i64, width: i64) -> u8 {
    let x = coord(dx as int);
    let w = extent(width as int);
    if x <= 0 {
        0u8
    } else if w == 0 {
        100u8
    } else if x * 100 / w >= 100 {
        100u8
    } else {
        (x * 100 / w) as u8
    }
}

pub fn to_slide_value(dx: i64, width: i64) -> (v: u8)
    ensures
        v == slide_value(dx, width),
        v <= 100,
{
    let x = to_coord(dx);
    let w = to_extent(width);
    if x <= 0 {
        0
    } else if w == 0 {
        100
    } else {
        let q = x * 100 / w;
        if q >= 100 {
            100
        } else {
            q as u8
        }
    }
}

/// How many cells of length `cell`, `gap` apart, fit into `length`: at
/// least one, at most `MAX_GRID`.
pub open spec fn cells_in(length: i64, cell: i64, gap: i64) -> int {
    let len = extent(length as int);
    let c = extent(cell as int);
    let step = c + extent(gap as int);
    if step <= 0 || len < c {
        1
    } else if (len - c) / step + 1 > MAX_GRID {
        MAX_GRID as int
    } else {
        (len - c) / step + 1
    }
}

pub fn count_cells(length: i64, cell: i64, gap: i64) -> (n: usize)
    ensures
        n == cells_in(length, cell, gap),
        1 <= n <= MAX_GRID,
{
    let len = to_extent(length);
    let c = to_extent(cell);
    let step = c + to_extent(gap);
    if step <= 0 || len < c {
        1
    } else {
        let q = (len - c) / step + 1;
        if q > MAX_GRID {
            MAX_GRID as usize
        } else {
            q as usize
        }
    }
}

/// How many columns are lit for `value` out of 100; a larger value counts as 100.
pub open spec fn lit_columns(value: u8, cols: nat) -> nat {
    if value >= 100 {
        cols
    } else {
        (value as nat * cols / 100) as nat
    }
}

/// The number of columns of a grid: the length of its first row.
pub open spec fn columns_of(grid: Seq<Seq<bool>>) -> nat {
    if grid.len() > 0 {
        grid[0].len()
    } else {
        0
    }
}

impl SlideBar {
    /// The value of the bar.
    pub open spec fn model(&self) -> SlideBarModel {
        SlideBarModel {
            value: self.value,
            slider_type: self.slider_type,
            height: self.height,
            active_color: self.active_color,
            bg_color: self.bg_color,
            animation_bg_color: self.animation_bg_color,
            col_width: self.col_width,
            col_spacing: self.col_spacing,
            row_spacing: self.row_spacing,
            on_slide: self.on_slide,
            on_slide_end: self.on_slide_end,
            reset_on_slide_end: self.reset_on_slide_end,
            fill_random_on_start: self.fill_random_on_start,
            fill_random_on_slide: self.fill_random_on_slide,
            has_idle_animation: self.has_idle_animation,
            state: self.state@,
            dirty: self.dirty,
        }
    }
}

impl SlideBarModel {
    /// A bar of boxes at value zero that sends nothing.
    pub open spec fn plain() -> SlideBarModel {
        SlideBarModel {
            value: 0,
            slider_type: SlideBarType::Box,
            height: 0,
            active_color: Color::transparent(),
            bg_color: Color { r: 49, g: 49, b: 49, a: 255 },
            animation_bg_color: Color { r: 255, g: 255, b: 255, a: 153 },
            col_width: 0,
            col_spacing: 0,
            row_spacing: 0,
            on_slide: None,
            on_slide_end: None,
            reset_on_slide_end: false,
            fill_random_on_start: false,
            fill_random_on_slide: false,
            has_idle_animation: false,
            state: SlideBarStateModel {
                value: 0,
                grid: Seq::empty(),
                elapsed_ticks: 0,
                last_frame_index: None,
                is_dragging: false,
                pending_fill: None,
            },
            dirty: false,
        }
    }

    /// The bar with default state: the value of the properties, no grid yet.
    pub open spec fn initialized(self) -> SlideBarModel {
        SlideBarModel {
            state: SlideBarStateModel {
                value: self.value,
                grid: Seq::empty(),
                elapsed_ticks: 0,
                last_frame_index: None,
                is_dragging: false,
                pending_fill: None,
            },
            ..self
        }
    }

    pub open spec fn rows(self) -> nat {
        self.state.grid.len()
    }

    pub open spec fn cols(self) -> nat {
        columns_of(self.state.grid)
    }

    /// The bar after the pointer has been dragged to `position`, measured
    /// from its corner, and the new value if it differs from the old one.
    /// With a new value the grid is lit up to that value.
    pub open spec fn dragged(self, position: Point, aabb: AABB) -> (SlideBarModel, Option<u8>) {
        let value = slide_value(position.x, aabb.size.width);
        if value == self.state.value {
            (self, None)
        } else {
            (
                SlideBarModel {
                    state: SlideBarStateModel {
                        value,
                        grid: filled(self.rows(), self.cols(), lit_columns(value, self.cols())),
                        ..self.state
                    },
                    dirty: true,
                    ..self
                },
                Some(value),
            )
        }
    }

    /// The bar back at value zero, with `num_true` cells waiting to be
    /// lit at random.
    pub open spec fn cleared(self, num_true: usize) -> SlideBarModel {
        SlideBarModel {
            state: SlideBarStateModel {
                value: 0,
                elapsed_ticks: 0,
                last_frame_index: None,
                pending_fill: Some(num_true),
                ..self.state
            },
            dirty: true,
            ..self
        }
    }

    /// The bar with exactly the cells lit that the first `num_true`
    /// entries of `order` name, and nothing left to be lit.
    pub open spec fn lit_at_random(self, order: Seq<usize>, num_true: usize) -> SlideBarModel {
        SlideBarModel {
            state: SlideBarStateModel {
                grid: lit_by(self.rows(), self.cols(), order, num_true as nat),
                pending_fill: None,
                ..self.state
            },
            ..self
        }
    }

    /// Whether `after` can be this bar once it has lit the cells that
    /// wait to be lit at random.  A bar on which none wait stays as it
    /// is.  Otherwise the cells are lit in some order of all cells of the
    /// grid: which order is left to chance.  A grid of more cells than
    /// the machine can count stays as it is.
    pub open spec fn randomized(self, after: SlideBarModel) -> bool {
        match self.state.pending_fill {
            None => after == self,
            Some(n) => if self.rows() * self.cols() <= usize::MAX {
                exists|order: Seq<usize>|
                    is_permutation(order, self.rows() * self.cols()) && after
                        == self.lit_at_random(order, n)
            } else {
                after == (SlideBarModel {
                    state: SlideBarStateModel { pending_fill: None, ..self.state },
                    ..self
                })
            },
        }
    }

    /// The bar with `dragging` noted.
    pub open spec fn held(self, dragging: bool) -> SlideBarModel {
        SlideBarModel {
            state: SlideBarStateModel { is_dragging: dragging, ..self.state },
            dirty: true,
            ..self
        }
    }

    /// The bar after the end of a drag, and its answer to it.
    pub open spec fn released(self, answer: ReactionModel) -> (SlideBarModel, ReactionModel) {
        (
            if self.reset_on_slide_end {
                self.cleared(RANDOM_CELLS)
            } else {
                self
            }.held(false),
            fired(self.on_slide_end, self.state.value as i64, answer.dirtied()),
        )
    }

    /// The bar after a drag step, and its answer to it.
    pub open spec fn slid(self, event: Event, answer: ReactionModel) -> (
        SlideBarModel,
        ReactionModel,
    ) {
        let d = self.dragged(event.spec_relative(), event.current_aabb);
        match d.1 {
            Some(v) => (d.0, fired(self.on_slide, v as i64, answer.dirtied())),
            None => (d.0, answer),
        }
    }

    /// The bar after `event`, and its answer.  The start of a drag is
    /// claimed and stopped.  Every drag step sets the value from the
    /// position of the pointer and reports it if it changed.  The end of
    /// the drag reports the value.  Touch events are stopped here.
    pub open spec fn handled(self, event: Event) -> (SlideBarModel, ReactionModel) {
        let quiet = ReactionModel::ignored();
        match event.kind {
            EventKind::DragStart | EventKind::TouchDragStart => (
                self.held(true),
                quiet.dirtied().stopped(),
            ),
            EventKind::Drag => self.slid(event, quiet),
            EventKind::TouchDrag => self.slid(event, quiet.stopped()),
            EventKind::DragEnd => self.released(quiet),
            EventKind::TouchDragEnd => self.released(quiet.stopped()),
            _ => (self, quiet),
        }
    }

    /// The bar after `set_aabb`: a bar without a grid gets one that fits
    /// its box, lit up to its value, or dark with cells waiting to be lit
    /// at random.
    pub open spec fn boxed(self, aabb: AABB) -> SlideBarModel {
        if self.state.grid.len() > 0 {
            self
        } else {
            let cols = cells_in(aabb.size.width, self.col_width, self.col_spacing) as nat;
            let rows = cells_in(aabb.size.height, self.col_width, self.row_spacing) as nat;
            SlideBarModel {
                state: SlideBarStateModel {
                    grid: if self.fill_random_on_start {
                        filled(rows, cols, 0)
                    } else {
                        filled(rows, cols, lit_columns(self.state.value, cols))
                    },
                    pending_fill: if self.fill_random_on_start {
                        Some(RANDOM_CELLS)
                    } else {
                        self.state.pending_fill
                    },
                    ..self.state
                },
                dirty: true,
                ..self
            }
        }
    }

    /// The bar after its properties have changed.
    pub open spec fn refreshed(self) -> SlideBarModel {
        SlideBarModel {
            state: SlideBarStateModel { value: self.value, ..self.state },
            dirty: true,
            ..self
        }
    }

    /// What decides the subtree: the value of the properties.
    pub open spec fn props_digest(self, seed: u64) -> Option<u64> {
        Some(mixed(seed, self.value as u64))
    }
}

impl Default for SlideBar {
    /// A bar of boxes at value zero that sends nothing.
    fn default() -> (s: SlideBar)
        ensures
            s.model() == SlideBarModel::plain(),
    {
        SlideBar::new()
    }
}

impl SlideBar {
    /// A bar of boxes at value zero that sends nothing.
    pub fn new() -> (s: SlideBar)
        ensures
            s.model() == SlideBarModel::plain(),
    {
        let s = SlideBar {
            value: 0,
            slider_type: SlideBarType::Box,
            height: 0,
            active_color: Color::clear(),
            bg_color: Color::rgb(49, 49, 49),
            animation_bg_color: Color::rgba(255, 255, 255, 153),
            col_width: 0,
            col_spacing: 0,
            row_spacing: 0,
            on_slide: None,
            on_slide_end: None,
            reset_on_slide_end: false,
            fill_random_on_start: false,
            fill_random_on_slide: false,
            has_idle_animation: false,
            state: SlideBarState {
                value: 0,
                grid: Vec::new(),
                elapsed_ticks: 0,
                last_frame_index: None,
                is_dragging: false,
                pending_fill: None,
            },
            dirty: false,
        };
        assert(s.model().state.grid =~= Seq::empty());
        s
    }

    pub fn value(self, value: u8) -> (s: SlideBar)
        ensures
            s.model() == (SlideBarModel { value, ..self.model() }),
    {
        let mut s = self;
        s.value = value;
        s
    }

    pub fn slider_type(self, slider_type: SlideBarType) -> (s: SlideBar)
        ensures
            s.model() == (SlideBarModel { slider_type, ..self.model() }),
    {
        let mut s = self;
        s.slider_type = slider_type;
        s
    }

    pub fn height(self, height: u8) -> (s: SlideBar)
        ensures
            s.model() == (SlideBarModel { height, ..self.model() }),
    {
        let mut s = self;
        s.height = height;
        s
    }

    pub fn col_width(self, col_width: i64) -> (s: SlideBar)
        ensures
            s.model() == (SlideBarModel { col_width, ..self.model() }),
    {
        let mut s = self;
        s.col_width = col_width;
        s
    }

    pub fn col_spacing(self, col_spacing: i64) -> (s: SlideBar)
        ensures
            s.model() == (SlideBarModel { col_spacing, ..self.model() }),
    {
        let mut s = self;
        s.col_spacing = col_spacing;
        s
    }

    pub fn row_spacing(self, row_spacing: i64) -> (s: SlideBar)
        ensures
            s.model() == (SlideBarModel { row_spacing, ..self.model() }),
    {
        let mut s = self;
        s.row_spacing = row_spacing;
        s
    }

    pub fn active_color(self, color: Color) -> (s: SlideBar)
        ensures
            s.model() == (SlideBarModel { active_color: color, ..self.model() }),
    {
        let mut s = self;
        s.active_color = color;
        s
    }

    pub fn bg_color(self, color: Color) -> (s: SlideBar)
        ensures
            s.model() == (SlideBarModel { bg_color: color, ..self.model() }),
    {
        let mut s = self;
        s.bg_color = color;
        s
    }

    pub fn animation_bg_color(self, color: Color) -> (s: SlideBar)
        ensures
            s.model() == (SlideBarModel { animation_bg_color: color, ..self.model() }),
    {
        let mut s = self;
        s.animation_bg_color = color;
        s
    }

    /// Sets the message that a new value sends; its payload is the value.
    pub fn on_slide(self, f: MessageFactory) -> (s: SlideBar)
        ensures
            s.model() == (SlideBarModel { on_slide: Some(f), ..self.model() }),
    {
        let mut s = self;
        s.on_slide = Some(f);
        s
    }

    /// Sets the message that the end of a drag sends; its payload is the value.
    pub fn on_slide_end(self, f: MessageFactory) -> (s: SlideBar)
        ensures
            s.model() == (SlideBarModel { on_slide_end: Some(f), ..self.model() }),
    {
        let mut s = self;
        s.on_slide_end = Some(f);
        s
    }

    pub fn reset_on_slide_end(self, value: bool) -> (s: SlideBar)
        ensures
            s.model() == (SlideBarModel { reset_on_slide_end: value, ..self.model() }),
    {
        let mut s = self;
        s.reset_on_slide_end = value;
        s
    }

    pub fn fill_random_on_start(self, value: bool) -> (s: SlideBar)
        ensures
            s.model() == (SlideBarModel { fill_random_on_start: value, ..self.model() }),
    {
        let mut s = self;
        s.fill_random_on_start = value;
        s
    }

    pub fn fill_random_on_slide(self, value: bool) -> (s: SlideBar)
        ensures
            s.model() == (SlideBarModel { fill_random_on_slide: value, ..self.model() }),
    {
        let mut s = self;
        s.fill_random_on_slide = value;
        s
    }

    pub fn has_idle_animation(self, value: bool) -> (s: SlideBar)
        ensures
            s.model() == (SlideBarModel { has_idle_animation: value, ..self.model() }),
    {
        let mut s = self;
        s.has_idle_animation = value;
        s
    }

    fn rows(&self) -> (r: usize)
        ensures
            r == self.model().rows(),
    {
        self.state.grid.len()
    }

    fn cols(&self) -> (c: usize)
        ensures
            c == self.model().cols(),
    {
        if self.state.grid.len() > 0 {
            self.state.grid[0].len()
        } else {
            0
        }
    }

    fn lit(value: u8, cols: usize) -> (n: usize)
        ensures
            n == lit_columns(value, cols as nat),
    {
        if value >= 100 {
            cols
        } else {
            assert(value as int * cols as int <= 100 * usize::MAX) by (nonlinear_arith)
                requires
                    0 <= value < 100,
                    0 <= cols <= usize::MAX,
            ;
            let p = value as u128 * cols as u128;
            assert(p / 100 <= cols) by (nonlinear_arith)
                requires
                    p == value as int * cols as int,
                    0 <= value < 100,
                    0 <= cols,
            ;
            (p / 100) as usize
        }
    }

    /// Sets the value from the position of the pointer, measured from the
    /// corner of the bar; answers the new value if it differs from the old.
    pub fn handle_on_drag(
        &mut self,
        relative_logical_position: Point,
        current_logical_aabb: AABB,
    ) -> (r: Option<u8>)
        ensures
            (final(self).model(), r) == old(self).model().dragged(
                relative_logical_position,
                current_logical_aabb,
            ),
    {
        let value = to_slide_value(relative_logical_position.x, current_logical_aabb.size.width);
        if self.state.value == value {
            return None;
        }
        let rows = self.rows();
        let cols = self.cols();
        self.state.grid = make_filled(rows, cols, Self::lit(value, cols));
        self.state.value = value;
        self.dirty = true;
        Some(value)
    }

    /// Puts the bar back to value zero and notes that `num_true` cells
    /// are to be lit at random.
    pub fn clear(&mut self, num_true: usize)
        ensures
            final(self).model() == old(self).model().cleared(num_true),
    {
        self.state.value = 0;
        self.state.elapsed_ticks = 0;
        self.state.last_frame_index = None;
        self.state.pending_fill = Some(num_true);
        self.dirty = true;
    }

    /// Lights the cells that wait to be lit, in an order of the cells of
    /// the grid that is drawn afresh at random.
    pub fn randomize(&mut self)
        ensures
            old(self).model().randomized(final(self).model()),
    {
        match self.state.pending_fill {
            Some(n) => {
                let rows = self.rows();
                let cols = self.cols();
                self.state.pending_fill = None;
                match rows.checked_mul(cols) {
                    Some(_) => {
                        let grid = fill_grid_with_true(rows, cols, n);
                        proof {
                            let before = old(self).model();
                            let order = choose|order: Seq<usize>|
                                is_permutation(order, (rows * cols) as nat) && grid_model(grid@)
                                    == lit_by(rows as nat, cols as nat, order, n as nat);
                            assert(before.lit_at_random(order, n).state.grid == grid_model(grid@));
                        }
                        self.state.grid = grid;
                        assert(exists|order: Seq<usize>|
                            is_permutation(order, old(self).model().rows() * old(self).model().cols())
                                && self.model() == old(self).model().lit_at_random(order, n));
                    },
                    None => {},
                }
            },
            None => {},
        }
    }

    /// Puts the bar back to value zero, with `num_true` cells lit at random.
    pub fn reset(&mut self, num_true: usize)
        ensures
            old(self).model().cleared(num_true).randomized(final(self).model()),
    {
        self.clear(num_true);
        self.randomize();
    }

    pub fn init(&mut self)
        ensures
            final(self).model() == old(self).model().initialized(),
    {
        self.state = SlideBarState {
            value: self.value,
            grid: Vec::new(),
            elapsed_ticks: 0,
            last_frame_index: None,
            is_dragging: false,
            pending_fill: None,
        };
        assert(self.model().state.grid =~= Seq::empty());
    }

    pub fn props_hash(&self, hasher: &mut ComponentHasher) -> (declared: bool)
        ensures
            declared && self.model().props_digest(old(hasher).state) == Some(final(hasher).state),
    {
        hasher.write_u64(self.value as u64);
        true
    }

    pub fn new_props(&mut self)
        ensures
            final(self).model() == old(self).model().refreshed(),
    {
        self.state.value = self.value;
        self.dirty = true;
    }

    fn release(&mut self, r: &mut Reaction)
        ensures
            (final(self).model(), final(r)@) == old(self).model().released(old(r)@),
    {
        r.dirty();
        fire(&self.on_slide_end, self.state.value as i64, r);
        if self.reset_on_slide_end {
            self.clear(RANDOM_CELLS);
        }
        self.state.is_dragging = false;
        self.dirty = true;
    }

    fn slide(&mut self, event: &Event, r: &mut Reaction)
        ensures
            (final(self).model(), final(r)@) == old(self).model().slid(*event, old(r)@),
    {
        match self.handle_on_drag(event.relative_logical_position(), event.current_logical_aabb()) {
            Some(v) => {
                r.dirty();
                fire(&self.on_slide, v as i64, r);
            },
            None => {},
        }
    }

    pub fn on_event(&mut self, event: &Event) -> (r: Reaction)
        ensures
            (final(self).model(), r@) == old(self).model().handled(*event),
    {
        let mut r = Reaction::new();
        match event.kind {
            EventKind::DragStart | EventKind::TouchDragStart => {
                self.state.is_dragging = true;
                self.dirty = true;
                r.dirty();
                r.stop_bubbling();
            },
            EventKind::Drag => {
                self.slide(event, &mut r);
            },
            EventKind::TouchDrag => {
                r.stop_bubbling();
                self.slide(event, &mut r);
            },
            EventKind::DragEnd => {
                self.release(&mut r);
            },
            EventKind::TouchDragEnd => {
                r.stop_bubbling();
                self.release(&mut r);
            },
            _ => {},
        }
        r
    }

    pub fn full_control(&self) -> (r: bool)
        ensures
            r,
    {
        true
    }

    pub fn set_aabb(&mut self, aabb: &mut AABB, children: &Vec<AABB>, context: BoxContext)
        ensures
            final(self).model() == old(self).model().boxed(*old(aabb)),
            *final(aabb) == *old(aabb),
    {
        if self.state.grid.len() > 0 {
            return;
        }
        let cols = count_cells(aabb.size.width, self.col_width, self.col_spacing);
        let rows = count_cells(aabb.size.height, self.col_width, self.row_spacing);
        assert(rows * cols <= usize::MAX) by (nonlinear_arith)
            requires
                1 <= rows <= 1024,
                1 <= cols <= 1024,
        ;
        if self.fill_random_on_start {
            self.state.grid = make_filled(rows, cols, 0);
            self.state.pending_fill = Some(RANDOM_CELLS);
        } else {
            self.state.grid = make_filled(rows, cols, Self::lit(self.state.value, cols));
        }
        self.dirty = true;
    }
}

/// Whether the cell in row `j` and column `i` exists and is lit.
pub open spec fn lit_at(grid: Seq<Seq<bool>>, j: int, i: int) -> bool {
    0 <= j < grid.len() && 0 <= i < grid[j].len() && grid[j][i]
}

/// The hash state after the first `n` cells of `row` have been written.
pub open spec fn mixed_row(state: u64, row: Seq<bool>, n: nat) -> u64
    decreases n,
{
    if n == 0 || n > row.len() {
        state
    } else {
        mixed(
            mixed_row(state, row, (n - 1) as nat),
            if row[n - 1] {
                1
            } else {
                0
            },
        )
    }
}

/// The hash state after the first `n` rows of `grid` have been written,
/// each with its length before its cells.
pub open spec fn mixed_grid(state: u64, grid: Seq<Seq<bool>>, n: nat) -> u64
    decreases n,
{
    if n == 0 || n > grid.len() {
        state
    } else {
        let row = grid[n - 1];
        mixed_row(
            mixed(mixed_grid(state, grid, (n - 1) as nat), row.len() as u64),
            row,
            row.len(),
        )
    }
}

impl SlideBarModel {
    /// What decides the pixels: the whole state.
    pub open spec fn render_digest(self, seed: u64) -> Option<u64> {
        let s = self.state;
        Some(
            mixed(
                mixed(
                    mixed(
                        mixed_grid(mixed(seed, s.value as u64), s.grid, s.grid.len()),
                        match s.last_frame_index {
                            Some(i) => (i as u64).wrapping_add(1),
                            None => 0,
                        },
                    ),
                    s.elapsed_ticks as u64,
                ),
                if s.is_dragging {
                    1
                } else {
                    0
                },
            ),
        )
    }

    /// The colour of the cell in row `j` and column `i`.
    pub open spec fn cell_color(self, j: int, i: int) -> Color {
        if lit_at(self.state.grid, j, i) {
            if self.has_idle_animation && !self.state.is_dragging {
                self.animation_bg_color
            } else {
                self.active_color
            }
        } else {
            self.bg_color
        }
    }

    /// The layout of a column: as wide as a cell, set off to the left.
    pub open spec fn column_layout(self, direction: Direction) -> Layout {
        Layout {
            size: Size { width: Dimension::Px(self.col_width), height: Dimension::Auto },
            margin: Rect {
                top: Dimension::Px(0),
                right: Dimension::Px(0),
                bottom: Dimension::Px(0),
                left: Dimension::Px(self.col_spacing),
            },
            direction,
            ..Layout::initial()
        }
    }

    /// Column `i` of a bar of boxes with its first `n` cells.
    pub open spec fn box_column(self, i: nat, n: nat) -> NodeModel<Widget>
        decreases n,
    {
        if n == 0 || n > self.rows() {
            NodeModel::<Widget>::leaf(
                WidgetModel::Div(Div::plain()),
                self.column_layout(Direction::Column),
            ).keyed(i as u64)
        } else {
            self.box_column(i, (n - 1) as nat).pushed(
                NodeModel::<Widget>::leaf(
                    WidgetModel::Div(
                        Div {
                            background: Some(self.cell_color(n - 1, i as int)),
                            ..Div::plain()
                        },
                    ),
                    Layout {
                        size: Size {
                            width: Dimension::Px(self.col_width),
                            height: Dimension::Px(self.col_width),
                        },
                        margin: Rect {
                            top: Dimension::Px(0),
                            right: Dimension::Px(0),
                            bottom: Dimension::Px(self.row_spacing),
                            left: Dimension::Px(0),
                        },
                        ..Layout::initial()
                    },
                ).keyed((n - 1) as u64),
            )
        }
    }

    /// Column `i` of a bar of lines: one box in the colour of the top cell.
    pub open spec fn line_column(self, i: nat) -> NodeModel<Widget> {
        NodeModel::<Widget>::leaf(
            WidgetModel::Div(
                Div {
                    background: Some(
                        if lit_at(self.state.grid, 0, i as int) {
                            self.active_color
                        } else {
                            self.bg_color
                        },
                    ),
                    ..Div::plain()
                },
            ),
            self.column_layout(Direction::Row),
        ).keyed(i as u64)
    }

    pub open spec fn column(self, i: nat) -> NodeModel<Widget> {
        match self.slider_type {
            SlideBarType::Box => self.box_column(i, self.rows()),
            SlideBarType::Line => self.line_column(i),
        }
    }

    /// The bar with its first `n` columns.
    pub open spec fn columns(self, n: nat) -> NodeModel<Widget>
        decreases n,
    {
        if n == 0 || n > self.cols() {
            NodeModel::<Widget>::leaf(
                WidgetModel::Div(Div::plain()),
                Layout {
                    size: Size { width: Dimension::Pct(100), height: Dimension::Pct(100) },
                    cross_alignment: Alignment::Stretch,
                    ..Layout::initial()
                },
            )
        } else {
            self.columns((n - 1) as nat).pushed(self.column((n - 1) as nat))
        }
    }

    /// What the bar projects itself into: a box filling the node with one
    /// child for every column of the grid.
    pub open spec fn viewed(self) -> NodeModel<Widget> {
        self.columns(self.cols())
    }
}

impl SlideBar {
    fn hash_row(row: &Vec<bool>, hasher: &mut ComponentHasher)
        ensures
            final(hasher).state == mixed_row(old(hasher).state, row@, row@.len()),
    {
        let mut c: usize = 0;
        while c < row.len()
            invariant
                c <= row.len(),
                hasher.state == mixed_row(old(hasher).state, row@, c as nat),
            decreases row.len() - c,
        {
            hasher.write_bool(row[c]);
            c += 1;
        }
    }

    pub fn render_hash(&self, hasher: &mut ComponentHasher) -> (declared: bool)
        ensures
            declared && self.model().render_digest(old(hasher).state) == Some(final(hasher).state),
    {
        hasher.write_u64(self.state.value as u64);
        let ghost start = hasher.state;
        let ghost grid = self.model().state.grid;
        let mut r: usize = 0;
        while r < self.state.grid.len()
            invariant
                r <= self.state.grid@.len(),
                grid == grid_model(self.state.grid@),
                hasher.state == mixed_grid(start, grid, r as nat),
            decreases self.state.grid.len() - r,
        {
            hasher.write_u64(self.state.grid[r].len() as u64);
            Self::hash_row(&self.state.grid[r], hasher);
            r += 1;
        }
        hasher.write_u64(
            match self.state.last_frame_index {
                Some(i) => (i as u64).wrapping_add(1),
                None => 0,
            },
        );
        hasher.write_u64(self.state.elapsed_ticks as u64);
        hasher.write_bool(self.state.is_dragging);
        true
    }

    fn is_lit(&self, j: usize, i: usize) -> (r: bool)
        ensures
            r == lit_at(self.model().state.grid, j as int, i as int),
    {
        j < self.state.grid.len() && i < self.state.grid[j].len() && self.state.grid[j][i]
    }

    fn cell_color(&self, j: usize, i: usize) -> (c: Color)
        ensures
            c == self.model().cell_color(j as int, i as int),
    {
        if self.is_lit(j, i) {
            if self.has_idle_animation && !self.state.is_dragging {
                self.animation_bg_color
            } else {
                self.active_color
            }
        } else {
            self.bg_color
        }
    }

    fn column_layout(&self, direction: Direction) -> (l: Layout)
        ensures
            l == self.model().column_layout(direction),
    {
        Layout::new().size(Size::new(Dimension::Px(self.col_width), Dimension::Auto)).margin(
            Rect::px(0, 0, 0, self.col_spacing),
        ).direction(direction)
    }

    fn column(&self, i: usize) -> (n: Node<Widget>)
        ensures
            n@ == self.model().column(i as nat),
    {
        match self.slider_type {
            SlideBarType::Box => {
                let mut col = Node::new(
                    Widget::Div(Div::new()),
                    self.column_layout(Direction::Column),
                ).key(i as u64);
                let rows = self.rows();
                let mut j: usize = 0;
                while j < rows
                    invariant
                        j <= rows,
                        rows == self.model().rows(),
                        col@ == self.model().box_column(i as nat, j as nat),
                    decreases rows - j,
                {
                    col = col.push(
                        Node::new(
                            Widget::Div(Div::new().bg(self.cell_color(j, i))),
                            Layout::new().size(Size::px(self.col_width, self.col_width)).margin(
                                Rect::px(0, 0, self.row_spacing, 0),
                            ),
                        ).key(j as u64),
                    );
                    j += 1;
                }
                col
            },
            SlideBarType::Line => {
                let color = if self.is_lit(0, i) {
                    self.active_color
                } else {
                    self.bg_color
                };
                Node::new(Widget::Div(Div::new().bg(color)), self.column_layout(Direction::Row)).key(
                    i as u64,
                )
            },
        }
    }

    pub fn view(&self) -> (r: Option<Node<Widget>>)
        ensures
            r matches Some(n) && n@ == self.model().viewed(),
    {
        let mut slider = Node::new(
            Widget::Div(Div::new()),
            Layout::new().size(Size::pct(100, 100)).cross_alignment(Alignment::Stretch),
        );
        let cols = self.cols();
        let mut i: usize = 0;
        while i < cols
            invariant
                i <= cols,
                cols == self.model().cols(),
                slider@ == self.model().columns(i as nat),
            decreases cols - i,
        {
            slider = slider.push(self.column(i));
            i += 1;
        }
        Some(slider)
    }
}

/// Whatever order chance picks, a bar that lights cells at random lights
/// as many as were waiting, or all cells of its grid if more were waiting
/// than it has; its value and everything else stay as they were.
pub proof fn lemma_random_fill_is_counted(bar: SlideBarModel, after: SlideBarModel, n: usize)
    requires
        bar.state.pending_fill == Some(n),
        bar.rows() * bar.cols() <= usize::MAX,
        bar.randomized(after),
    ensures
        lit_cells(after.state.grid, bar.cols()).finite(),
        lit_cells(after.state.grid, bar.cols()).len() == smaller(
            n as nat,
            bar.rows() * bar.cols(),
        ),
        after.state.grid.len() == bar.rows(),
        after.state.pending_fill is None,
        after.state.value == bar.state.value,
{
    let order = choose|order: Seq<usize>|
        is_permutation(order, bar.rows() * bar.cols()) && after == bar.lit_at_random(order, n);
    lemma_random_cells_are_counted(bar.rows(), bar.cols(), order, n as nat);
}

} // verus!
