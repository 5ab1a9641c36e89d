//! Buttons, button transitions and the latched state derived from them.
//!
//! A button stream is a sequence of `ButtonEvent`s. The latched state of one
//! button is the state carried by the most recent event for that button, or
//! `Released` if no event for it has been observed. Two opposing buttons
//! combine into a three-valued `Direction`.

use vstd::prelude::*;

verus! {

/// Identifier of a logical button: a keyboard key or a mouse button,
/// each named by a backend code.
#[derive(Copy, Clone, Debug, PartialEq, Eq, Structural)]
pub enum Button {
    Keyboard(u32),
    Mouse(u32),
}

/// The state of a button.
#[derive(Copy, Clone, Debug, PartialEq, Eq, Structural)]
pub enum ButtonState {
    Pressed,
    Released,
}

/// An event involving a button of some kind. `state` is the state of the
/// button *after* the event.
#[derive(Copy, Clone, Debug, PartialEq, Eq, Structural)]
pub struct ButtonEvent {
    /// The button concerned.
    pub button: Button,

    /// The new state of the button.
    pub state: ButtonState,
}

/// The latched state of `button` after observing the events of `s` in order:
/// the state carried by the most recent event for `button`, or `Released`
/// if none occurred yet.
pub open spec fn spec_track(s: Seq<ButtonEvent>, button: Button) -> ButtonState
    decreases s.len(),
{
    if s.len() == 0 {
        ButtonState::Released
    } else if s.last().button == button {
        s.last().state
    } else {
        spec_track(s.drop_last(), button)
    }
}

impl ButtonState {
    /// Track the state of a button from the history of a stream of button
    /// events: the hold of the sub-stream of events whose button matches.
    pub fn track(inputs: &Vec<ButtonEvent>, button: Button) -> (state: ButtonState)
        ensures
            state == spec_track(inputs@, button),
    {
        let mut state = ButtonState::Released;
        let mut i: usize = 0;
        while i < inputs.len()
            invariant
                i <= inputs.len(),
                state == spec_track(inputs@.subrange(0, i as int), button),
            decreases inputs.len() - i,
        {
            proof {
                assert(inputs@.subrange(0, i + 1 as int).drop_last()
                    =~= inputs@.subrange(0, i as int));
            }
            if inputs[i].button == button {
                state = inputs[i].state;
            }
            i = i + 1;
        }
        proof {
            assert(inputs@.subrange(0, inputs@.len() as int) =~= inputs@);
        }
        state
    }
}

/// A direction indicated by the state of two "opposite" buttons. This could
/// be left-right, forward-back and similar states.
#[derive(Copy, Clone, Debug, PartialEq, Eq, Structural)]
pub enum Direction {
    Positive,
    Negative,
    Still,
}

/// The direction derived from the states of two opposing buttons:
/// `Positive` iff only the positive one is pressed, `Negative` iff only the
/// negative one is pressed, `Still` otherwise.
pub open spec fn spec_direction(plus: ButtonState, minus: ButtonState) -> Direction {
    match (plus, minus) {
        (ButtonState::Pressed, ButtonState::Released) => Direction::Positive,
        (ButtonState::Released, ButtonState::Pressed) => Direction::Negative,
        _ => Direction::Still,
    }
}

impl Direction {
    /// Derive a direction from two button states.
    pub fn from_buttons(plus: ButtonState, minus: ButtonState) -> (d: Direction)
        ensures
            d == spec_direction(plus, minus),
    {
        match (plus, minus) {
            (ButtonState::Pressed, ButtonState::Released) => Direction::Positive,
            (ButtonState::Released, ButtonState::Pressed) => Direction::Negative,
            _ => Direction::Still,
        }
    }

    /// The sign of a direction in a signed numeric domain.
    pub fn sign(&self) -> (s: i64)
        ensures
            *self == Direction::Positive ==> s == 1,
            *self == Direction::Negative ==> s == -1,
            *self == Direction::Still ==> s == 0,
    {
        match *self {
            Direction::Positive => 1,
            Direction::Negative => -1,
            Direction::Still => 0,
        }
    }

    /// Track a direction from the history of a stream of button events for
    /// a pair of opposing buttons.
    pub fn track(inputs: &Vec<ButtonEvent>, pos: Button, neg: Button) -> (d: Direction)
        ensures
            d == spec_direction(spec_track(inputs@, pos), spec_track(inputs@, neg)),
    {
        Direction::from_buttons(
            ButtonState::track(inputs, pos),
            ButtonState::track(inputs, neg),
        )
    }
}

/// Whether any event of `s` concerns `button`.
pub open spec fn has_event_for(s: Seq<ButtonEvent>, button: Button) -> bool {
    exists|i: int| 0 <= i < s.len() && s[i].button == button
}

/// Law: for every sequence of button events, the tracked state of a button
/// is the state carried by the most recent event for that button, or
/// `Released` if no event concerned it.
pub proof fn lemma_track_is_latched(s: Seq<ButtonEvent>, button: Button)
    ensures
        !has_event_for(s, button) ==> spec_track(s, button) == ButtonState::Released,
        has_event_for(s, button) ==> exists|i: int|
            0 <= i < s.len() && s[i].button == button && spec_track(s, button) == s[i].state
                && (forall|j: int| i < j < s.len() ==> s[j].button != button),
    decreases s.len(),
{
    if s.len() > 0 {
        if s.last().button == button {
            let i: int = s.len() - 1;
            assert(0 <= i < s.len() && s[i].button == button && spec_track(s, button) == s[i].state && (forall|j: int| i < j < s.len() ==> s[j].button != button));
        } else {
            lemma_track_is_latched(s.drop_last(), button);
            if has_event_for(s, button) {
                let w: int = choose|i: int| 0 <= i < s.len() && s[i].button == button;
                assert(s.drop_last()[w] == s[w]);
                assert(has_event_for(s.drop_last(), button));
                let i: int = choose|i: int|
                    0 <= i < s.drop_last().len() && s.drop_last()[i].button == button
                        && spec_track(s.drop_last(), button) == s.drop_last()[i].state && (
                    forall|j: int|
                        i < j < s.drop_last().len() ==> s.drop_last()[j].button != button);
                assert(s.drop_last()[i] == s[i]);
                assert forall|j: int| i < j < s.len() implies s[j].button != button by {
                    if j < s.len() - 1 {
                        assert(s.drop_last()[j] == s[j]);
                    } else {
                        assert(s[j] == s.last());
                    }
                }
                assert(0 <= i < s.len() && s[i].button == button && spec_track(s, button) == s[i].state
                    && (forall|j: int| i < j < s.len() ==> s[j].button != button));
            }
        }
    }
}

/// Law: the direction of two opposing buttons is `Still` whenever both are
/// in the same state, and `Positive`/`Negative` exactly in the two cases
/// where one button alone is pressed.
pub proof fn lemma_direction_table(plus: ButtonState, minus: ButtonState)
    ensures
        plus == minus ==> spec_direction(plus, minus) == Direction::Still,
        spec_direction(plus, minus) == Direction::Positive <==> (plus == ButtonState::Pressed
            && minus == ButtonState::Released),
        spec_direction(plus, minus) == Direction::Negative <==> (plus == ButtonState::Released
            && minus == ButtonState::Pressed),
{
}

} // verus!
