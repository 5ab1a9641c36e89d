//! The state projection layer: how a history of discrete events becomes
//! continuous state.
//!
//! Every derived signal is a pure projection of the event history that feeds
//! it: a hold latches the last value, the wheel offset is a left-fold of
//! every delta since creation, and the context is the composite of the held
//! and folded parts. Before the first event of a category arrives, the
//! projection holds the category's stated default.

use vstd::prelude::*;
use crate::button::ButtonEvent;
use crate::classify::spec_event_of;
use crate::classify::spec_update_of;
use crate::classify::InputEvent;
use crate::context::Context;
use crate::context::Cursor;
use crate::context::Event;
use crate::context::WindowProperties;
use crate::updates::spec_apply;
use crate::updates::spec_sat_add;
use crate::classify::event_of;
use crate::classify::update_of;

verus! {

/// The context held before any event arrives.
pub open spec fn spec_initial_context() -> Context {
    Context {
        window: WindowProperties { position: (0i32, 0i32), size: (0u32, 0u32), focus: true },
        cursor: Cursor { position: (0i64, 0i64), wheel: (0i64, 0i64) },
    }
}

/// One projection step: the context after one more classified event. Events
/// that carry no context delta leave the context unchanged.
pub open spec fn spec_context_step(c: Context, e: InputEvent) -> Context {
    match spec_update_of(e) {
        Some(u) => spec_apply(u, c),
        None => c,
    }
}

/// The context projected from a full event history: the left-fold of the
/// projection step over the history, starting from the initial context.
pub open spec fn spec_project_context(s: Seq<InputEvent>) -> Context
    decreases s.len(),
{
    if s.len() == 0 {
        spec_initial_context()
    } else {
        spec_context_step(spec_project_context(s.drop_last()), s.last())
    }
}

/// Appending one event to a history advances the projection by exactly one
/// step.
pub proof fn lemma_project_push(s: Seq<InputEvent>, e: InputEvent)
    ensures
        spec_project_context(s.push(e)) == spec_context_step(spec_project_context(s), e),
{
    assert(s.push(e).drop_last() =~= s);
}

/// Project the context from an event history.
pub fn project_context(events: &Vec<InputEvent>) -> (c: Context)
    ensures
        c == spec_project_context(events@),
{
    let mut c = Context::default();
    let mut i: usize = 0;
    while i < events.len()
        invariant
            i <= events.len(),
            c == spec_project_context(events@.subrange(0, i as int)),
        decreases events.len() - i,
    {
        proof {
            assert(events@.subrange(0, i + 1 as int).drop_last() =~= events@.subrange(0, i as int));
        }
        if let Some(u) = update_of(&events[i]) {
            c = u.apply(c);
        }
        i = i + 1;
    }
    proof {
        assert(events@.subrange(0, events@.len() as int) =~= events@);
    }
    c
}

/// The button transitions of a history, in order.
pub open spec fn spec_buttons_of(s: Seq<InputEvent>) -> Seq<ButtonEvent>
    decreases s.len(),
{
    if s.len() == 0 {
        Seq::empty()
    } else {
        match s.last() {
            InputEvent::Button(be) => spec_buttons_of(s.drop_last()).push(be),
            _ => spec_buttons_of(s.drop_last()),
        }
    }
}

/// The button transitions of an event history, in order.
pub fn button_history(events: &Vec<InputEvent>) -> (r: Vec<ButtonEvent>)
    ensures
        r@ == spec_buttons_of(events@),
{
    let mut r: Vec<ButtonEvent> = Vec::new();
    let mut i: usize = 0;
    while i < events.len()
        invariant
            i <= events.len(),
            r@ == spec_buttons_of(events@.subrange(0, i as int)),
        decreases events.len() - i,
    {
        proof {
            assert(events@.subrange(0, i + 1 as int).drop_last() =~= events@.subrange(0, i as int));
        }
        if let InputEvent::Button(be) = &events[i] {
            r.push(*be);
        }
        i = i + 1;
    }
    proof {
        assert(events@.subrange(0, events@.len() as int) =~= events@);
    }
    r
}

/// The text fragments of a history, in order.
pub open spec fn spec_texts_of(s: Seq<InputEvent>) -> Seq<Seq<char>>
    decreases s.len(),
{
    if s.len() == 0 {
        Seq::empty()
    } else {
        match s.last() {
            InputEvent::Text(t) => spec_texts_of(s.drop_last()).push(t@),
            _ => spec_texts_of(s.drop_last()),
        }
    }
}

/// The text fragments of an event history, in order.
pub fn text_history(events: &Vec<InputEvent>) -> (r: Vec<String>)
    ensures
        r@.map_values(|t: String| t@) == spec_texts_of(events@),
{
    let mut r: Vec<String> = Vec::new();
    let mut i: usize = 0;
    while i < events.len()
        invariant
            i <= events.len(),
            r@.map_values(|t: String| t@) == spec_texts_of(events@.subrange(0, i as int)),
        decreases events.len() - i,
    {
        proof {
            assert(events@.subrange(0, i + 1 as int).drop_last() =~= events@.subrange(0, i as int));
        }
        if let InputEvent::Text(t) = &events[i] {
            let ghost prev = r@;
            r.push(t.clone());
            proof {
                assert(r@.map_values(|t: String| t@) =~= prev.map_values(|t: String| t@).push(
                    r@.last()@,
                ));
            }
        }
        i = i + 1;
    }
    proof {
        assert(events@.subrange(0, events@.len() as int) =~= events@);
    }
    r
}

/// The application-level occurrences of a history, in order: presses,
/// releases and text fragments.
pub open spec fn spec_events_of(s: Seq<InputEvent>) -> Seq<Event>
    decreases s.len(),
{
    if s.len() == 0 {
        Seq::empty()
    } else {
        match spec_event_of(s.last()) {
            Some(e) => spec_events_of(s.drop_last()).push(e),
            None => spec_events_of(s.drop_last()),
        }
    }
}

/// The application-level occurrences of an event history, in order.
pub fn event_history(events: &Vec<InputEvent>) -> (r: Vec<Event>)
    ensures
        r@ == spec_events_of(events@),
{
    let mut r: Vec<Event> = Vec::new();
    let mut i: usize = 0;
    while i < events.len()
        invariant
            i <= events.len(),
            r@ == spec_events_of(events@.subrange(0, i as int)),
        decreases events.len() - i,
    {
        proof {
            assert(events@.subrange(0, i + 1 as int).drop_last() =~= events@.subrange(0, i as int));
        }
        if let Some(e) = event_of(&events[i]) {
            r.push(e);
        }
        i = i + 1;
    }
    proof {
        assert(events@.subrange(0, events@.len() as int) =~= events@);
    }
    r
}

/// The wheel deltas of a history, in order.
pub open spec fn spec_wheels_of(s: Seq<InputEvent>) -> Seq<(i64, i64)>
    decreases s.len(),
{
    if s.len() == 0 {
        Seq::empty()
    } else {
        match s.last() {
            InputEvent::Wheel(dx, dy) => spec_wheels_of(s.drop_last()).push((dx, dy)),
            _ => spec_wheels_of(s.drop_last()),
        }
    }
}

/// The exact componentwise sum of a sequence of wheel deltas, taken in
/// order, in the unbounded integer domain.
pub open spec fn spec_wheel_sum(ds: Seq<(i64, i64)>) -> (int, int)
    decreases ds.len(),
{
    if ds.len() == 0 {
        (0int, 0int)
    } else {
        let prev: (int, int) = spec_wheel_sum(ds.drop_last());
        (prev.0 + ds.last().0 as int, prev.1 + ds.last().1 as int)
    }
}

/// Law: wheel accumulation from an empty history yields the default.
pub proof fn lemma_wheel_sum_empty()
    ensures
        spec_wheel_sum(Seq::<(i64, i64)>::empty()) == (0int, 0int),
        spec_project_context(Seq::<InputEvent>::empty()).cursor.wheel == (0i64, 0i64),
{
}

/// Law: wheel accumulation is associative: splitting a sequence of deltas
/// anywhere and summing the parts gives the total of the whole sequence.
pub proof fn lemma_wheel_sum_concat(a: Seq<(i64, i64)>, b: Seq<(i64, i64)>)
    ensures
        spec_wheel_sum(a + b).0 == spec_wheel_sum(a).0 + spec_wheel_sum(b).0,
        spec_wheel_sum(a + b).1 == spec_wheel_sum(a).1 + spec_wheel_sum(b).1,
    decreases b.len(),
{
    if b.len() == 0 {
        assert(a + b =~= a);
    } else {
        lemma_wheel_sum_concat(a, b.drop_last());
        assert((a + b).drop_last() =~= a + b.drop_last());
        assert((a + b).last() == b.last());
    }
}

/// Whether every prefix of a history keeps both accumulated wheel
/// components within the `i64` domain.
pub open spec fn wheel_sums_in_bounds(s: Seq<InputEvent>) -> bool {
    forall|i: int|
        0 <= i <= s.len() ==> {
            let w = spec_wheel_sum(spec_wheels_of(#[trigger] s.subrange(0, i)));
            i64::MIN <= w.0 <= i64::MAX && i64::MIN <= w.1 <= i64::MAX
        }
}

/// Law: wheel accumulation is order-preserving: applying the deltas of a
/// history sequentially yields exactly their in-order sum, as long as no
/// prefix leaves the integer domain (the projection clamps there).
pub proof fn lemma_wheel_accumulation(s: Seq<InputEvent>)
    requires
        wheel_sums_in_bounds(s),
    ensures
        spec_project_context(s).cursor.wheel.0 as int == spec_wheel_sum(spec_wheels_of(s)).0,
        spec_project_context(s).cursor.wheel.1 as int == spec_wheel_sum(spec_wheels_of(s)).1,
    decreases s.len(),
{
    if s.len() == 0 {
    } else {
        assert forall|i: int| 0 <= i <= s.drop_last().len() implies {
            let w = spec_wheel_sum(spec_wheels_of(#[trigger] s.drop_last().subrange(0, i)));
            i64::MIN <= w.0 <= i64::MAX && i64::MIN <= w.1 <= i64::MAX
        } by {
            assert(s.drop_last().subrange(0, i) =~= s.subrange(0, i));
        }
        lemma_wheel_accumulation(s.drop_last());
        assert(s.subrange(0, s.len() as int) =~= s);
        assert(s.subrange(0, s.len() - 1) =~= s.drop_last());
        let prev = spec_project_context(s.drop_last());
        if let InputEvent::Wheel(dx, dy) = s.last() {
            assert(spec_wheels_of(s) == spec_wheels_of(s.drop_last()).push((dx, dy)));
            assert(spec_wheels_of(s).drop_last() =~= spec_wheels_of(s.drop_last()));
            let total: (int, int) = spec_wheel_sum(spec_wheels_of(s));
            assert(total.0 == spec_wheel_sum(spec_wheels_of(s.drop_last())).0 + dx as int);
            assert(i64::MIN <= total.0 <= i64::MAX && i64::MIN <= total.1 <= i64::MAX);
            assert(spec_project_context(s).cursor.wheel.0 as int == spec_sat_add(
                prev.cursor.wheel.0 as int,
                dx as int,
            ));
        } else {
            assert(spec_wheels_of(s) == spec_wheels_of(s.drop_last()));
            assert(spec_project_context(s).cursor.wheel == prev.cursor.wheel);
        }
    }
}

/// The last value of a sequence, or a default when no value has been
/// observed yet: the hold of a discrete stream's history.
pub open spec fn spec_hold<T>(s: Seq<T>, default: T) -> T {
    if s.len() == 0 {
        default
    } else {
        s.last()
    }
}

/// The window positions of a history, in order.
pub open spec fn spec_positions_of(s: Seq<InputEvent>) -> Seq<(i32, i32)>
    decreases s.len(),
{
    if s.len() == 0 {
        Seq::empty()
    } else {
        match s.last() {
            InputEvent::Reposition(x, y) => spec_positions_of(s.drop_last()).push((x, y)),
            _ => spec_positions_of(s.drop_last()),
        }
    }
}

/// The window sizes of a history, in order.
pub open spec fn spec_sizes_of(s: Seq<InputEvent>) -> Seq<(u32, u32)>
    decreases s.len(),
{
    if s.len() == 0 {
        Seq::empty()
    } else {
        match s.last() {
            InputEvent::Resize(w, h) => spec_sizes_of(s.drop_last()).push((w, h)),
            _ => spec_sizes_of(s.drop_last()),
        }
    }
}

/// The pointer positions of a history, in order.
pub open spec fn spec_motions_of(s: Seq<InputEvent>) -> Seq<(i64, i64)>
    decreases s.len(),
{
    if s.len() == 0 {
        Seq::empty()
    } else {
        match s.last() {
            InputEvent::Motion(x, y) => spec_motions_of(s.drop_last()).push((x, y)),
            _ => spec_motions_of(s.drop_last()),
        }
    }
}

/// The focus changes of a history, in order.
pub open spec fn spec_focuses_of(s: Seq<InputEvent>) -> Seq<bool>
    decreases s.len(),
{
    if s.len() == 0 {
        Seq::empty()
    } else {
        match s.last() {
            InputEvent::Focus(f) => spec_focuses_of(s.drop_last()).push(f),
            _ => spec_focuses_of(s.drop_last()),
        }
    }
}

/// The accumulated wheel offset after a sequence of deltas, each step
/// clamped to the integer domain.
pub open spec fn spec_wheel_state(ds: Seq<(i64, i64)>) -> (i64, i64)
    decreases ds.len(),
{
    if ds.len() == 0 {
        (0i64, 0i64)
    } else {
        let prev = spec_wheel_state(ds.drop_last());
        (
            spec_sat_add(prev.0 as int, ds.last().0 as int) as i64,
            spec_sat_add(prev.1 as int, ds.last().1 as int) as i64,
        )
    }
}

/// How appending one event changes each per-category projection: the
/// event's own category gains exactly its payload and every other category
/// is untouched.
pub proof fn lemma_projections_push(s: Seq<InputEvent>, e: InputEvent)
    ensures
        spec_buttons_of(s.push(e)) == (match e {
            InputEvent::Button(be) => spec_buttons_of(s).push(be),
            _ => spec_buttons_of(s),
        }),
        spec_motions_of(s.push(e)) == (match e {
            InputEvent::Motion(x, y) => spec_motions_of(s).push((x, y)),
            _ => spec_motions_of(s),
        }),
        spec_wheels_of(s.push(e)) == (match e {
            InputEvent::Wheel(dx, dy) => spec_wheels_of(s).push((dx, dy)),
            _ => spec_wheels_of(s),
        }),
        spec_texts_of(s.push(e)) == (match e {
            InputEvent::Text(t) => spec_texts_of(s).push(t@),
            _ => spec_texts_of(s),
        }),
        spec_sizes_of(s.push(e)) == (match e {
            InputEvent::Resize(w, h) => spec_sizes_of(s).push((w, h)),
            _ => spec_sizes_of(s),
        }),
        spec_positions_of(s.push(e)) == (match e {
            InputEvent::Reposition(x, y) => spec_positions_of(s).push((x, y)),
            _ => spec_positions_of(s),
        }),
        spec_focuses_of(s.push(e)) == (match e {
            InputEvent::Focus(f) => spec_focuses_of(s).push(f),
            _ => spec_focuses_of(s),
        }),
        spec_events_of(s.push(e)) == (match spec_event_of(e) {
            Some(ev) => spec_events_of(s).push(ev),
            None => spec_events_of(s),
        }),
{
    assert(s.push(e).drop_last() =~= s);
}

/// Law: the composite context agrees with the per-category projections:
/// each held field is the hold of its own category's payloads, and the
/// wheel is the clamped fold of the wheel deltas — so every category's
/// latest event is reflected in the composite.
pub proof fn lemma_composite_coherence(s: Seq<InputEvent>)
    ensures
        spec_project_context(s).window.position == spec_hold(spec_positions_of(s), (0i32, 0i32)),
        spec_project_context(s).window.size == spec_hold(spec_sizes_of(s), (0u32, 0u32)),
        spec_project_context(s).window.focus == spec_hold(spec_focuses_of(s), true),
        spec_project_context(s).cursor.position == spec_hold(spec_motions_of(s), (0i64, 0i64)),
        spec_project_context(s).cursor.wheel == spec_wheel_state(spec_wheels_of(s)),
    decreases s.len(),
{
    if s.len() > 0 {
        lemma_composite_coherence(s.drop_last());
        if let InputEvent::Wheel(dx, dy) = s.last() {
            assert(spec_wheels_of(s).drop_last() =~= spec_wheels_of(s.drop_last()));
        }
    }
}

/// Law: the context is a pure composition of its parts: an event that
/// touches only the window half leaves the cursor half unchanged, an event
/// that touches only the cursor half leaves the window half unchanged, and
/// an event that feeds only a discrete stream changes neither.
pub proof fn lemma_context_composition(s: Seq<InputEvent>, e: InputEvent)
    ensures
        (e matches InputEvent::Focus(_) || e matches InputEvent::Resize(_, _)
            || e matches InputEvent::Reposition(_, _)) ==> spec_project_context(s.push(e)).cursor
            == spec_project_context(s).cursor,
        (e matches InputEvent::Motion(_, _) || e matches InputEvent::Wheel(_, _))
            ==> spec_project_context(s.push(e)).window == spec_project_context(s).window,
        (e matches InputEvent::Button(_) || e matches InputEvent::Text(_))
            ==> spec_project_context(s.push(e)) == spec_project_context(s),
{
    lemma_project_push(s, e);
}

} // verus!
