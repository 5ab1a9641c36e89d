//! Reactive window driver core: turns a polled window/input backend into
//! discrete event streams and derived continuous state, and drives a
//! fixed-tick loop with drift correction.
//!
//! Event histories are modelled as sequences; a continuous signal is a
//! projection of the history of the discrete stream that feeds it (a hold,
//! an accumulating fold, or a composite of both).

pub mod borrowing;
pub mod button;
pub mod classify;
pub mod context;
pub mod cycle;
pub mod driver;
pub mod project;
pub mod registry;
pub mod scheduler;
pub mod updates;

pub use borrowing::Borrowing;
pub use borrowing::Unique;
pub use button::Button;
pub use button::ButtonEvent;
pub use button::ButtonState;
pub use button::Direction;
pub use classify::InputEvent;
pub use classify::RawEvent;
pub use context::Context;
pub use context::Cursor;
pub use context::Event;
pub use context::WindowProperties;
pub use cycle::SignalCycle;
pub use cycle::UsageError;
pub use driver::Backend;
pub use driver::WindowDriver;
pub use registry::EventSinks;
pub use scheduler::ConfigError;
pub use scheduler::Scheduler;
pub use scheduler::SchedulerAction;
pub use updates::CursorUpdate;
pub use updates::Update;
pub use updates::WindowUpdate;
