//! Immutable deltas describing one change to a context, and their pure
//! application.
//!
//! Applying an update is a pure function: it replaces exactly the field the
//! update names and leaves every other field unchanged. Wheel deltas
//! accumulate; the accumulation clamps at the integer domain's bounds so
//! that applying an update is total.

use vstd::prelude::*;
use crate::context::Context;
use crate::context::Cursor;
use crate::context::WindowProperties;

verus! {

/// The sum of `a` and `b`, clamped to the `i64` range.
pub open spec fn spec_sat_add(a: int, b: int) -> int {
    if a + b > i64::MAX {
        i64::MAX as int
    } else if a + b < i64::MIN {
        i64::MIN as int
    } else {
        a + b
    }
}

/// Add two offsets, clamping at the ends of the domain.
pub fn sat_add(a: i64, b: i64) -> (r: i64)
    ensures
        r == spec_sat_add(a as int, b as int),
{
    if b >= 0 {
        if a > i64::MAX - b {
            i64::MAX
        } else {
            a + b
        }
    } else {
        if a < i64::MIN - b {
            i64::MIN
        } else {
            a + b
        }
    }
}

/// A delta to the pointer state.
#[derive(Copy, Clone, Debug, PartialEq, Eq)]
pub enum CursorUpdate {
    /// The pointer moved to an absolute position.
    MoveTo(i64, i64),

    /// The wheel scrolled by a delta.
    WheelDelta(i64, i64),
}

/// The cursor snapshot after applying `u` to `c`: a move latches the new
/// position, a wheel delta accumulates onto the running offset.
pub open spec fn spec_apply_cursor(u: CursorUpdate, c: Cursor) -> Cursor {
    match u {
        CursorUpdate::MoveTo(x, y) => Cursor { position: (x, y), wheel: c.wheel },
        CursorUpdate::WheelDelta(dx, dy) => Cursor {
            position: c.position,
            wheel: (
                spec_sat_add(c.wheel.0 as int, dx as int) as i64,
                spec_sat_add(c.wheel.1 as int, dy as int) as i64,
            ),
        },
    }
}

impl CursorUpdate {
    /// Apply this delta to a cursor snapshot.
    pub fn apply(self, current: Cursor) -> (r: Cursor)
        ensures
            r == spec_apply_cursor(self, current),
    {
        match self {
            CursorUpdate::MoveTo(x, y) => Cursor { position: (x, y), wheel: current.wheel },
            CursorUpdate::WheelDelta(dx, dy) => Cursor {
                position: current.position,
                wheel: (sat_add(current.wheel.0, dx), sat_add(current.wheel.1, dy)),
            },
        }
    }
}

/// A delta to the window state.
#[derive(Copy, Clone, Debug, PartialEq, Eq)]
pub enum WindowUpdate {
    /// The window was resized.
    Resize(u32, u32),

    /// The window moved to an absolute position.
    MoveTo(i32, i32),

    /// The window gained or lost focus.
    Focus(bool),
}

/// The window snapshot after applying `u` to `w`: exactly the named field
/// is replaced.
pub open spec fn spec_apply_window(u: WindowUpdate, w: WindowProperties) -> WindowProperties {
    match u {
        WindowUpdate::Resize(width, height) => WindowProperties {
            position: w.position,
            size: (width, height),
            focus: w.focus,
        },
        WindowUpdate::MoveTo(x, y) => WindowProperties {
            position: (x, y),
            size: w.size,
            focus: w.focus,
        },
        WindowUpdate::Focus(state) => WindowProperties {
            position: w.position,
            size: w.size,
            focus: state,
        },
    }
}

impl WindowUpdate {
    /// Apply this delta to a window snapshot.
    pub fn apply(self, current: WindowProperties) -> (r: WindowProperties)
        ensures
            r == spec_apply_window(self, current),
    {
        match self {
            WindowUpdate::Resize(width, height) => WindowProperties {
                position: current.position,
                size: (width, height),
                focus: current.focus,
            },
            WindowUpdate::MoveTo(x, y) => WindowProperties {
                position: (x, y),
                size: current.size,
                focus: current.focus,
            },
            WindowUpdate::Focus(state) => WindowProperties {
                position: current.position,
                size: current.size,
                focus: state,
            },
        }
    }
}

/// A delta to either half of a context.
#[derive(Copy, Clone, Debug, PartialEq, Eq)]
pub enum Update {
    /// A change to the window state.
    Window(WindowUpdate),

    /// A change to the pointer state.
    Cursor(CursorUpdate),
}

/// The context after applying `u`: a window update touches only the window
/// half, a cursor update only the cursor half.
pub open spec fn spec_apply(u: Update, c: Context) -> Context {
    match u {
        Update::Window(w) => Context { window: spec_apply_window(w, c.window), cursor: c.cursor },
        Update::Cursor(k) => Context { window: c.window, cursor: spec_apply_cursor(k, c.cursor) },
    }
}

impl Update {
    /// Apply this delta to a context.
    pub fn apply(self, current: Context) -> (r: Context)
        ensures
            r == spec_apply(self, current),
    {
        match self {
            Update::Window(update) => Context {
                window: update.apply(current.window),
                cursor: current.cursor,
            },
            Update::Cursor(update) => Context {
                window: current.window,
                cursor: update.apply(current.cursor),
            },
        }
    }
}

} // verus!
