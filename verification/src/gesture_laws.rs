//! What holds of every gesture: how many drag and click events a sequence
//! of inputs produces.
use vstd::prelude::*;
use crate::event::EventKind;
use crate::gesture::{
    count, kind_for, EmittedModel, GestureModel, Phase, PointerInput, SampleModel,
    CLICK_MAX_TRAVEL,
};

verus! {

/// Counting distributes over concatenation.
pub proof fn lemma_count_concat(a: Seq<EmittedModel>, b: Seq<EmittedModel>, kind: EventKind)
    ensures
        count(a + b, kind) == count(a, kind) + count(b, kind),
    decreases b.len(),
{
    if b.len() == 0 {
        assert(a + b =~= a);
    } else {
        assert((a + b).drop_last() =~= a + b.drop_last());
        lemma_count_concat(a, b.drop_last(), kind);
    }
}

/// Feeding two runs of samples one after the other is feeding their concatenation.
pub proof fn lemma_ran_concat(g: GestureModel, a: Seq<SampleModel>, b: Seq<SampleModel>)
    ensures
        g.ran(a + b).0 == g.ran(a).0.ran(b).0,
        g.ran(a + b).1 == g.ran(a).1 + g.ran(a).0.ran(b).1,
    decreases b.len(),
{
    if b.len() == 0 {
        assert(a + b =~= a);
        assert(g.ran(a).1 + Seq::<EmittedModel>::empty() =~= g.ran(a).1);
    } else {
        assert((a + b).drop_last() =~= a + b.drop_last());
        lemma_ran_concat(g, a, b.drop_last());
        let mid = g.ran(a).0.ran(b.drop_last());
        let last = mid.0.stepped(b.last());
        assert((g.ran(a).1 + mid.1) + last.1 =~= g.ran(a).1 + (mid.1 + last.1));
    }
}

/// Feeding one sample is one step.
pub proof fn lemma_ran_one(g: GestureModel, s: SampleModel)
    ensures
        g.ran(seq![s]) == g.stepped(s),
{
    let one = seq![s];
    assert(one.drop_last() =~= Seq::<SampleModel>::empty());
    assert(g.ran(one.drop_last()) == (g, Seq::<EmittedModel>::empty()));
    assert(Seq::<EmittedModel>::empty() + g.stepped(s).1 =~= g.stepped(s).1);
}

/// How often each of the five kinds of event that the laws speak of occurs.
pub open spec fn tally(events: Seq<EmittedModel>, touch: bool) -> (nat, nat, nat, nat, nat) {
    (
        count(events, kind_for(touch, EventKind::DragStart)),
        count(events, kind_for(touch, EventKind::Drag)),
        count(events, kind_for(touch, EventKind::DragEnd)),
        count(events, EventKind::Click),
        count(events, EventKind::DoubleClick),
    )
}

/// While the button is down every motion gives one `Drag`, and the first
/// one a `DragStart` before it; nothing else that the laws count comes out.
pub proof fn lemma_motions_while_pressed(g: GestureModel, motions: Seq<SampleModel>)
    requires
        g.phase is Pressed || g.phase is Dragging,
        g.target is Some,
        forall|i: int| 0 <= i < motions.len() ==> motions[i].input is Motion,
    ensures
        ({
            let after = g.ran(motions);
            &&& after.0.target == g.target
            &&& after.0.touch == g.touch
            &&& after.0.last_click == g.last_click
            &&& after.0.phase == if motions.len() > 0 {
                Phase::Dragging
            } else {
                g.phase
            }
            &&& tally(after.1, g.touch) == (
                if g.phase is Pressed && motions.len() > 0 {
                    1nat
                } else {
                    0nat
                },
                motions.len(),
                0nat,
                0nat,
                0nat,
            )
        }),
    decreases motions.len(),
{
    if motions.len() > 0 {
        let init = motions.drop_last();
        lemma_motions_while_pressed(g, init);
        let before = g.ran(init);
        let last = before.0.stepped(motions.last());
        assert(motions.last().input is Motion);
        let t = g.touch;
        lemma_count_concat(before.1, last.1, kind_for(t, EventKind::DragStart));
        lemma_count_concat(before.1, last.1, kind_for(t, EventKind::Drag));
        lemma_count_concat(before.1, last.1, kind_for(t, EventKind::DragEnd));
        lemma_count_concat(before.1, last.1, EventKind::Click);
        lemma_count_concat(before.1, last.1, EventKind::DoubleClick);
        lemma_tally_of_drag(before.0, motions.last());
    }
}

/// What one motion with the button down emits.
pub proof fn lemma_tally_of_drag(g: GestureModel, s: SampleModel)
    requires
        g.phase is Pressed || g.phase is Dragging,
        g.target is Some,
        s.input is Motion,
    ensures
        tally(g.stepped(s).1, g.touch) == (
            if g.phase is Pressed {
                1nat
            } else {
                0nat
            },
            1nat,
            0nat,
            0nat,
            0nat,
        ),
{
    let e = g.stepped(s).1;
    reveal_with_fuel(count, 3);
    if g.phase is Pressed {
        assert(e.len() == 2);
        assert(e.drop_last().len() == 1);
        assert(e.drop_last().drop_last().len() == 0);
    } else {
        assert(e.len() == 1);
        assert(e.drop_last().len() == 0);
    }
}

/// What a press on a node emits: nothing that the laws count.
pub proof fn lemma_tally_of_press(g: GestureModel, s: SampleModel)
    requires
        s.input is Press,
    ensures
        tally(g.stepped(s).1, g.touch) == (0nat, 0nat, 0nat, 0nat, 0nat),
{
    let e = g.stepped(s).1;
    reveal_with_fuel(count, 3);
    if e.len() > 0 {
        assert(e.len() == 1);
        assert(e.drop_last().len() == 0);
    }
}

/// What a release emits: a `DragEnd` if a drag was under way, and a click
/// or a double click if the release makes one.
pub proof fn lemma_tally_of_release(g: GestureModel, s: SampleModel)
    requires
        g.phase is Pressed || g.phase is Dragging,
        g.target is Some,
        s.input is Release,
    ensures
        tally(g.stepped(s).1, g.touch) == (
            0nat,
            0nat,
            if g.phase is Dragging {
                1nat
            } else {
                0nat
            },
            if g.clicks(s.hit) && !g.doubles(s.time_ms) {
                1nat
            } else {
                0nat
            },
            if g.clicks(s.hit) && g.doubles(s.time_ms) {
                1nat
            } else {
                0nat
            },
        ),
{
    let e = g.stepped(s).1;
    reveal_with_fuel(count, 4);
    let a = e.drop_last();
    let b = a.drop_last();
    if e.len() == 3 {
        assert(a.len() == 2);
        assert(b.len() == 1);
        assert(b.drop_last().len() == 0);
    } else if e.len() == 2 {
        assert(a.len() == 1);
        assert(b.len() == 0);
    } else {
        assert(e.len() == 1);
        assert(a.len() == 0);
    }
}

/// The life of a drag.  A press on a node, then `n >= 1` motions, then a
/// release produce exactly one `DragStart`, `n` `Drag` events and one
/// `DragEnd`; and neither a click nor a double click once the pointer has
/// travelled further than `CLICK_MAX_TRAVEL`.
pub proof fn lemma_drag_lifecycle(
    g: GestureModel,
    press: SampleModel,
    motions: Seq<SampleModel>,
    release: SampleModel,
)
    requires
        g.phase is Idle || g.phase is Hover,
        press.input is Press,
        press.hit is Some,
        motions.len() >= 1,
        forall|i: int| 0 <= i < motions.len() ==> motions[i].input is Motion,
        release.input is Release,
    ensures
        ({
            let held = g.ran(seq![press] + motions).0;
            let events = g.ran(seq![press] + motions + seq![release]).1;
            &&& count(events, kind_for(g.touch, EventKind::DragStart)) == 1
            &&& count(events, kind_for(g.touch, EventKind::Drag)) == motions.len()
            &&& count(events, kind_for(g.touch, EventKind::DragEnd)) == 1
            &&& held.travel > CLICK_MAX_TRAVEL ==> count(events, EventKind::Click) == 0 && count(
                events,
                EventKind::DoubleClick,
            ) == 0
        }),
{
    let t = g.touch;
    lemma_ran_one(g, press);
    let pressed = g.stepped(press);
    lemma_tally_of_press(g, press);
    lemma_ran_concat(g, seq![press], motions);
    lemma_motions_while_pressed(pressed.0, motions);
    let moved = pressed.0.ran(motions);
    lemma_ran_concat(g, seq![press] + motions, seq![release]);
    lemma_ran_one(moved.0, release);
    lemma_tally_of_release(moved.0, release);
    let last = moved.0.stepped(release);
    let events = g.ran(seq![press] + motions + seq![release]).1;
    assert(events == (pressed.1 + moved.1) + last.1);
    lemma_count_concat(pressed.1 + moved.1, last.1, kind_for(t, EventKind::DragStart));
    lemma_count_concat(pressed.1 + moved.1, last.1, kind_for(t, EventKind::Drag));
    lemma_count_concat(pressed.1 + moved.1, last.1, kind_for(t, EventKind::DragEnd));
    lemma_count_concat(pressed.1 + moved.1, last.1, EventKind::Click);
    lemma_count_concat(pressed.1 + moved.1, last.1, EventKind::DoubleClick);
    lemma_count_concat(pressed.1, moved.1, kind_for(t, EventKind::DragStart));
    lemma_count_concat(pressed.1, moved.1, kind_for(t, EventKind::Drag));
    lemma_count_concat(pressed.1, moved.1, kind_for(t, EventKind::DragEnd));
    lemma_count_concat(pressed.1, moved.1, EventKind::Click);
    lemma_count_concat(pressed.1, moved.1, EventKind::DoubleClick);
}

/// The life of a click.  A press on a node and a release over the same
/// node, with no motion in between, produce no drag event at all and
/// exactly one click: a `Click`, or a `DoubleClick` where it follows an
/// earlier click on the node closely enough.
pub proof fn lemma_click_lifecycle(g: GestureModel, press: SampleModel, release: SampleModel)
    requires
        g.phase is Idle || g.phase is Hover,
        press.input is Press,
        press.hit is Some,
        release.input is Release,
        release.hit == press.hit,
    ensures
        ({
            let events = g.ran(seq![press] + seq![release]).1;
            &&& count(events, kind_for(g.touch, EventKind::DragStart)) == 0
            &&& count(events, kind_for(g.touch, EventKind::Drag)) == 0
            &&& count(events, kind_for(g.touch, EventKind::DragEnd)) == 0
            &&& count(events, EventKind::Click) + count(events, EventKind::DoubleClick) == 1
            &&& g.last_click is None ==> count(events, EventKind::Click) == 1
        }),
{
    let t = g.touch;
    lemma_ran_one(g, press);
    let pressed = g.stepped(press);
    lemma_tally_of_press(g, press);
    lemma_ran_concat(g, seq![press], seq![release]);
    lemma_ran_one(pressed.0, release);
    lemma_tally_of_release(pressed.0, release);
    let last = pressed.0.stepped(release);
    lemma_count_concat(pressed.1, last.1, kind_for(t, EventKind::DragStart));
    lemma_count_concat(pressed.1, last.1, kind_for(t, EventKind::Drag));
    lemma_count_concat(pressed.1, last.1, kind_for(t, EventKind::DragEnd));
    lemma_count_concat(pressed.1, last.1, EventKind::Click);
    lemma_count_concat(pressed.1, last.1, EventKind::DoubleClick);
}

/// A cancelled gesture ends without a click, whatever came before.
pub proof fn lemma_cancel_never_clicks(g: GestureModel, s: SampleModel)
    requires
        s.input is Cancel,
    ensures
        g.stepped(s).0.phase is Idle,
        count(g.stepped(s).1, EventKind::Click) == 0,
        count(g.stepped(s).1, EventKind::DoubleClick) == 0,
{
    let e = g.stepped(s).1;
    reveal_with_fuel(count, 3);
    if e.len() > 0 {
        assert(e.len() == 1);
        assert(e.drop_last().len() == 0);
    }
}

} // verus!
