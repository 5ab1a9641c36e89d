//! The event classifier: maps one raw backend event to at most one typed
//! internal event.
//!
//! A raw event is classified into exactly one category — button transition,
//! pointer motion, scroll delta, text input, resize, reposition or focus
//! change — or dropped silently when unrecognized. Classification neither
//! duplicates nor reorders events.

use vstd::prelude::*;
use crate::button::Button;
use crate::button::ButtonEvent;
use crate::button::ButtonState;
use crate::context::Event;
use crate::updates::CursorUpdate;
use crate::updates::Update;
use crate::updates::WindowUpdate;

verus! {

/// One event as reported by the polled backend, already decoded to plain
/// values. Pointer and scroll coordinates are in the backend's smallest
/// reported unit; scroll is always a delta.
#[derive(Clone, Debug, PartialEq, Eq)]
pub enum RawEvent {
    /// A logical button was pressed.
    Press(Button),

    /// A logical button was released.
    Release(Button),

    /// The pointer moved to an absolute position.
    MouseCursor(i64, i64),

    /// The wheel scrolled by a delta.
    MouseScroll(i64, i64),

    /// The pointer moved by a relative amount that the backend did not
    /// resolve to a position.
    MouseRelative(i64, i64),

    /// A text fragment was received.
    Text(String),

    /// The window was resized.
    Resize(u32, u32),

    /// The window moved.
    Move(i32, i32),

    /// The window gained or lost focus.
    Focus(bool),

    /// The backend asks to close.
    Close,

    /// Anything the backend reports that none of the categories covers.
    Unknown,
}

/// One classified internal event, in exactly one category.
#[derive(Clone, Debug, PartialEq, Eq)]
pub enum InputEvent {
    /// A button transition.
    Button(ButtonEvent),

    /// An absolute pointer position.
    Motion(i64, i64),

    /// A scroll delta.
    Wheel(i64, i64),

    /// A text fragment.
    Text(String),

    /// A new window size.
    Resize(u32, u32),

    /// A new window position.
    Reposition(i32, i32),

    /// A focus change.
    Focus(bool),
}

impl InputEvent {
    /// An equal copy of this event.
    pub fn duplicate(&self) -> (r: InputEvent)
        ensures
            r == *self,
    {
        match self {
            InputEvent::Button(be) => InputEvent::Button(*be),
            InputEvent::Motion(x, y) => InputEvent::Motion(*x, *y),
            InputEvent::Wheel(dx, dy) => InputEvent::Wheel(*dx, *dy),
            InputEvent::Text(s) => InputEvent::Text(s.clone()),
            InputEvent::Resize(w, h) => InputEvent::Resize(*w, *h),
            InputEvent::Reposition(x, y) => InputEvent::Reposition(*x, *y),
            InputEvent::Focus(f) => InputEvent::Focus(*f),
        }
    }
}

/// The category, if any, that a raw event classifies into. Relative pointer
/// motion is dropped (it is not an absolute position), and so are close
/// requests (handled by the scheduler, not a state change) and unrecognized
/// events.
pub open spec fn spec_classify(e: RawEvent) -> Option<InputEvent> {
    match e {
        RawEvent::Press(b) => Some(
            InputEvent::Button(ButtonEvent { button: b, state: ButtonState::Pressed }),
        ),
        RawEvent::Release(b) => Some(
            InputEvent::Button(ButtonEvent { button: b, state: ButtonState::Released }),
        ),
        RawEvent::MouseCursor(x, y) => Some(InputEvent::Motion(x, y)),
        RawEvent::MouseScroll(dx, dy) => Some(InputEvent::Wheel(dx, dy)),
        RawEvent::MouseRelative(_, _) => None,
        RawEvent::Text(s) => Some(InputEvent::Text(s)),
        RawEvent::Resize(w, h) => Some(InputEvent::Resize(w, h)),
        RawEvent::Move(x, y) => Some(InputEvent::Reposition(x, y)),
        RawEvent::Focus(f) => Some(InputEvent::Focus(f)),
        RawEvent::Close => None,
        RawEvent::Unknown => None,
    }
}

/// Classify one raw backend event into zero or one typed internal event.
pub fn classify(event: &RawEvent) -> (r: Option<InputEvent>)
    ensures
        r == spec_classify(*event),
{
    match event {
        RawEvent::Press(b) => Some(
            InputEvent::Button(ButtonEvent { button: *b, state: ButtonState::Pressed }),
        ),
        RawEvent::Release(b) => Some(
            InputEvent::Button(ButtonEvent { button: *b, state: ButtonState::Released }),
        ),
        RawEvent::MouseCursor(x, y) => Some(InputEvent::Motion(*x, *y)),
        RawEvent::MouseScroll(dx, dy) => Some(InputEvent::Wheel(*dx, *dy)),
        RawEvent::MouseRelative(_, _) => None,
        RawEvent::Text(s) => Some(InputEvent::Text(s.clone())),
        RawEvent::Resize(w, h) => Some(InputEvent::Resize(*w, *h)),
        RawEvent::Move(x, y) => Some(InputEvent::Reposition(*x, *y)),
        RawEvent::Focus(f) => Some(InputEvent::Focus(*f)),
        RawEvent::Close => None,
        RawEvent::Unknown => None,
    }
}

/// The context delta that a classified event describes, if it touches the
/// context: button transitions and text fragments feed their own discrete
/// streams and change no held state.
pub open spec fn spec_update_of(e: InputEvent) -> Option<Update> {
    match e {
        InputEvent::Button(_) => None,
        InputEvent::Motion(x, y) => Some(Update::Cursor(CursorUpdate::MoveTo(x, y))),
        InputEvent::Wheel(dx, dy) => Some(Update::Cursor(CursorUpdate::WheelDelta(dx, dy))),
        InputEvent::Text(_) => None,
        InputEvent::Resize(w, h) => Some(Update::Window(WindowUpdate::Resize(w, h))),
        InputEvent::Reposition(x, y) => Some(Update::Window(WindowUpdate::MoveTo(x, y))),
        InputEvent::Focus(f) => Some(Update::Window(WindowUpdate::Focus(f))),
    }
}

/// Map a classified event to the context delta it describes, if it
/// describes one.
pub fn update_of(e: &InputEvent) -> (r: Option<Update>)
    ensures
        r == spec_update_of(*e),
{
    match e {
        InputEvent::Button(_) => None,
        InputEvent::Motion(x, y) => Some(Update::Cursor(CursorUpdate::MoveTo(*x, *y))),
        InputEvent::Wheel(dx, dy) => Some(Update::Cursor(CursorUpdate::WheelDelta(*dx, *dy))),
        InputEvent::Text(_) => None,
        InputEvent::Resize(w, h) => Some(Update::Window(WindowUpdate::Resize(*w, *h))),
        InputEvent::Reposition(x, y) => Some(Update::Window(WindowUpdate::MoveTo(*x, *y))),
        InputEvent::Focus(f) => Some(Update::Window(WindowUpdate::Focus(*f))),
    }
}

/// The context delta described by a raw backend event, if any.
pub open spec fn spec_state_update(e: RawEvent) -> Option<Update> {
    match spec_classify(e) {
        Some(c) => spec_update_of(c),
        None => None,
    }
}

/// Map a raw backend event to the update it makes to the held window and
/// cursor state, if it makes one.
pub fn state_update(event: &RawEvent) -> (r: Option<Update>)
    ensures
        r == spec_state_update(*event),
{
    match classify(event) {
        Some(InputEvent::Motion(x, y)) => Some(Update::Cursor(CursorUpdate::MoveTo(x, y))),
        Some(InputEvent::Wheel(dx, dy)) => Some(Update::Cursor(CursorUpdate::WheelDelta(dx, dy))),
        Some(InputEvent::Resize(w, h)) => Some(Update::Window(WindowUpdate::Resize(w, h))),
        Some(InputEvent::Reposition(x, y)) => Some(Update::Window(WindowUpdate::MoveTo(x, y))),
        Some(InputEvent::Focus(f)) => Some(Update::Window(WindowUpdate::Focus(f))),
        _ => None,
    }
}

/// The application-level occurrence that a classified event carries, if it
/// carries one: a press, a release, or a text fragment.
pub open spec fn spec_event_of(e: InputEvent) -> Option<Event> {
    match e {
        InputEvent::Button(be) => match be.state {
            ButtonState::Pressed => Some(Event::Press(be.button)),
            ButtonState::Released => Some(Event::Release(be.button)),
        },
        InputEvent::Text(s) => Some(Event::Text(s)),
        _ => None,
    }
}

/// Map a classified event to the application-level occurrence it carries,
/// if any.
pub fn event_of(e: &InputEvent) -> (r: Option<Event>)
    ensures
        r == spec_event_of(*e),
{
    match e {
        InputEvent::Button(be) => match be.state {
            ButtonState::Pressed => Some(Event::Press(be.button)),
            ButtonState::Released => Some(Event::Release(be.button)),
        },
        InputEvent::Text(s) => Some(Event::Text(s.clone())),
        _ => None,
    }
}

} // verus!
