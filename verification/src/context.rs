//! Snapshots of window geometry and pointer state, and their composition.
//!
//! Cursor coordinates and wheel offsets are plain signed integers in the
//! backend's smallest reported unit. A `Context` is a pure composition of a
//! window snapshot and a cursor snapshot; recomputing it never mutates the
//! parts in place.

use vstd::prelude::*;
use crate::button::Button;

verus! {

/// Window geometry and focus snapshot.
#[derive(Copy, Clone, Debug, PartialEq, Eq)]
pub struct WindowProperties {
    /// Position of the window's corner.
    pub position: (i32, i32),

    /// Size of the window in pixels.
    pub size: (u32, u32),

    /// Whether the window is focused.
    pub focus: bool,
}

impl WindowProperties {
    /// Compose a window snapshot from its three constituent values.
    pub fn new(position: (i32, i32), size: (u32, u32), focus: bool) -> (w: WindowProperties)
        ensures
            w == (WindowProperties { position, size, focus }),
    {
        WindowProperties { position, size, focus }
    }
}

impl Default for WindowProperties {
    /// The snapshot held before any window event arrives.
    fn default() -> (w: WindowProperties)
        ensures
            w == (WindowProperties { position: (0i32, 0i32), size: (0u32, 0u32), focus: true }),
    {
        WindowProperties { position: (0, 0), size: (0, 0), focus: true }
    }
}

/// Pointer state snapshot. `wheel` is a running accumulation of scroll
/// deltas, not a latched backend value.
#[derive(Copy, Clone, Debug, PartialEq, Eq)]
pub struct Cursor {
    /// Last reported pointer position.
    pub position: (i64, i64),

    /// Accumulated scroll offset.
    pub wheel: (i64, i64),
}

impl Cursor {
    /// Compose a cursor snapshot from a held position and an accumulated
    /// wheel offset.
    pub fn new(position: (i64, i64), wheel: (i64, i64)) -> (c: Cursor)
        ensures
            c == (Cursor { position, wheel }),
    {
        Cursor { position, wheel }
    }
}

impl Default for Cursor {
    /// The snapshot held before any pointer event arrives.
    fn default() -> (c: Cursor)
        ensures
            c == (Cursor { position: (0i64, 0i64), wheel: (0i64, 0i64) }),
    {
        Cursor { position: (0, 0), wheel: (0, 0) }
    }
}

/// Full input and window snapshot: a pure composition of its parts.
#[derive(Copy, Clone, Debug, PartialEq, Eq)]
pub struct Context {
    /// Window geometry and focus.
    pub window: WindowProperties,

    /// Pointer state.
    pub cursor: Cursor,
}

impl Context {
    /// Compose a context from a window snapshot and a cursor snapshot.
    pub fn new(window: WindowProperties, cursor: Cursor) -> (c: Context)
        ensures
            c == (Context { window, cursor }),
    {
        Context { window, cursor }
    }
}

impl Default for Context {
    /// The composition of the two default snapshots.
    fn default() -> (c: Context)
        ensures
            c.window == (WindowProperties {
                position: (0i32, 0i32),
                size: (0u32, 0u32),
                focus: true,
            }),
            c.cursor == (Cursor { position: (0i64, 0i64), wheel: (0i64, 0i64) }),
    {
        Context { window: WindowProperties::default(), cursor: Cursor::default() }
    }
}

/// A discrete application-level input occurrence, separate from the
/// low-level button stream.
#[derive(Clone, Debug, PartialEq, Eq)]
pub enum Event {
    /// A button was pressed.
    Press(Button),

    /// A button was released.
    Release(Button),

    /// A text fragment was received, possibly spanning several codepoints.
    Text(String),
}

} // verus!
