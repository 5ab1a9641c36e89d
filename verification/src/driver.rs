//! The window driver: dispatches raw backend events into the sink registry,
//! exposes the derived signals and streams, and runs the fixed-tick loop.

use vstd::prelude::*;
use crate::button::ButtonEvent;
use crate::classify::spec_classify;
use crate::classify::InputEvent;
use crate::classify::RawEvent;
use crate::context::Context;
use crate::context::Cursor;
use crate::context::Event;
use crate::context::WindowProperties;
use crate::project::button_history;
use crate::project::event_history;
use crate::project::lemma_composite_coherence;
use crate::project::project_context;
use crate::project::spec_buttons_of;
use crate::project::spec_events_of;
use crate::project::spec_focuses_of;
use crate::project::spec_hold;
use crate::project::spec_motions_of;
use crate::project::spec_positions_of;
use crate::project::spec_project_context;
use crate::project::spec_sizes_of;
use crate::project::spec_texts_of;
use crate::project::spec_wheel_state;
use crate::project::spec_wheels_of;
use crate::project::text_history;
use crate::registry::EventSinks;
use crate::scheduler::ConfigError;
use crate::scheduler::Scheduler;
use crate::scheduler::SchedulerAction;

verus! {

/// The capability a polled window backend must grant the driver: the only
/// I/O the loop performs. Every method is free of promises — the loop holds
/// its guarantees whatever a backend does.
pub trait Backend {
    /// Whether the backend asks the loop to stop.
    fn should_close(&mut self) -> bool;

    /// Every backend event available at this instant, in delivery order,
    /// without blocking.
    fn poll_events(&mut self) -> Vec<RawEvent>;

    /// The current time, in nanoseconds on a monotonic-intent clock.
    fn now_ns(&mut self) -> u64;

    /// Suspend for at most the given duration: the single blocking point of
    /// the loop.
    fn wait_ns(&mut self, ns: u64);

    /// Render one frame.
    fn render(&mut self);
}

/// The driver: owns the sink registry and feeds it from a backend once per
/// tick.
pub struct WindowDriver {
    sinks: EventSinks,
}

impl WindowDriver {
    /// Every classified event dispatched so far, in order.
    pub closed spec fn log(&self) -> Seq<InputEvent> {
        self.sinks.log()
    }

    /// The registry's endpoints are consistent with the merged history.
    pub closed spec fn wf(&self) -> bool {
        self.sinks.wf()
    }

    /// A driver that has seen no events.
    pub fn new() -> (d: WindowDriver)
        ensures
            d.wf(),
            d.log() == Seq::<InputEvent>::empty(),
    {
        WindowDriver { sinks: EventSinks::new() }
    }

    /// Classify one raw backend event and deliver it to the registry; an
    /// unrecognized event is dropped silently.
    pub fn dispatch(&mut self, event: &RawEvent)
        requires
            old(self).wf(),
        ensures
            final(self).wf(),
            match spec_classify(*event) {
                Some(e) => final(self).log() == old(self).log().push(e),
                None => final(self).log() == old(self).log(),
            },
    {
        self.sinks.dispatch(event);
    }

    /// The held window position signal: the last reposition, or the origin
    /// before any arrived.
    pub fn position(&self) -> (r: (i32, i32))
        requires
            self.wf(),
        ensures
            r == spec_hold(spec_positions_of(self.log()), (0i32, 0i32)),
    {
        let events = self.sinks.position_events();
        let c = project_context(&events);
        proof {
            lemma_composite_coherence(events@);
        }
        c.window.position
    }

    /// The held window size signal: the last resize, or zero before any
    /// arrived.
    pub fn size(&self) -> (r: (u32, u32))
        requires
            self.wf(),
        ensures
            r == spec_hold(spec_sizes_of(self.log()), (0u32, 0u32)),
    {
        let events = self.sinks.size_events();
        let c = project_context(&events);
        proof {
            lemma_composite_coherence(events@);
        }
        c.window.size
    }

    /// The held focus signal: the last focus change, or focused before any
    /// arrived.
    pub fn focus(&self) -> (r: bool)
        requires
            self.wf(),
        ensures
            r == spec_hold(spec_focuses_of(self.log()), true),
    {
        let events = self.sinks.focus_events();
        let c = project_context(&events);
        proof {
            lemma_composite_coherence(events@);
        }
        c.window.focus
    }

    /// The held pointer-position signal: the last motion, or the origin
    /// before any arrived.
    pub fn cursor(&self) -> (r: (i64, i64))
        requires
            self.wf(),
        ensures
            r == spec_hold(spec_motions_of(self.log()), (0i64, 0i64)),
    {
        let events = self.sinks.motion_events();
        let c = project_context(&events);
        proof {
            lemma_composite_coherence(events@);
        }
        c.cursor.position
    }

    /// The accumulated wheel signal: the running, clamped sum of every
    /// scroll delta since creation — a left-fold of the full history, not a
    /// latch.
    pub fn wheel(&self) -> (r: (i64, i64))
        requires
            self.wf(),
        ensures
            r == spec_wheel_state(spec_wheels_of(self.log())),
    {
        let events = self.sinks.wheel_events();
        let c = project_context(&events);
        proof {
            lemma_composite_coherence(events@);
        }
        c.cursor.wheel
    }

    /// The composite context signal: the pure composition of the window and
    /// cursor signals, equal to the projection of the full merged history.
    pub fn context(&self) -> (r: Context)
        requires
            self.wf(),
        ensures
            r == spec_project_context(self.log()),
    {
        let window = WindowProperties::new(self.position(), self.size(), self.focus());
        let cursor = Cursor::new(self.cursor(), self.wheel());
        proof {
            lemma_composite_coherence(self.log());
        }
        Context::new(window, cursor)
    }

    /// The discrete button stream: every button transition so far, in order.
    pub fn buttons(&self) -> (r: Vec<ButtonEvent>)
        requires
            self.wf(),
        ensures
            r@ == spec_buttons_of(self.log()),
    {
        let events = self.sinks.button_events();
        button_history(&events)
    }

    /// The discrete text stream: every text fragment so far, in order.
    pub fn text(&self) -> (r: Vec<String>)
        requires
            self.wf(),
        ensures
            r@.map_values(|t: String| t@) == spec_texts_of(self.log()),
    {
        let events = self.sinks.text_events();
        text_history(&events)
    }

    /// The application-level event stream: presses, releases and text
    /// fragments, in dispatch order, separate from the low-level button
    /// stream.
    pub fn events(&self) -> (r: Vec<Event>)
        requires
            self.wf(),
        ensures
            r@ == spec_events_of(self.log()),
    {
        let events = self.sinks.all_events();
        event_history(&events)
    }

    /// Run the fixed-tick loop against a backend: once per tick, drain the
    /// events available at poll time in order, dispatch each, and render
    /// once; between ticks, wait out the remaining time. A zero tick length
    /// is rejected before the loop starts. The loop ends when the backend
    /// asks to close (also by a polled close event), when `fuel` loop
    /// iterations have run, or when the clock leaves the domain the
    /// deadline arithmetic needs. The event history only grows, in order:
    /// nothing already dispatched is lost, duplicated or reordered.
    pub fn run_with<B: Backend>(&mut self, backend: &mut B, tick_length: u64, fuel: u64) -> (r:
        Result<(), ConfigError>)
        requires
            old(self).wf(),
        ensures
            final(self).wf(),
            old(self).log().is_prefix_of(final(self).log()),
            r is Err <==> tick_length == 0,
    {
        let start: u64 = backend.now_ns();
        let mut sched = match Scheduler::new(tick_length, start) {
            Ok(s) => s,
            Err(e) => {
                return Err(e);
            },
        };
        let mut remaining: u64 = fuel;
        let mut done = false;
        while !done && remaining > 0
            invariant
                self.wf(),
                sched.wf(),
                sched.tick_length() == tick_length,
                tick_length > 0,
                old(self).log().is_prefix_of(self.log()),
            decreases remaining,
        {
            remaining = remaining - 1;
            if backend.should_close() {
                done = true;
            } else {
                let now: u64 = backend.now_ns();
                if now > u64::MAX - tick_length {
                    done = true;
                } else {
                    match sched.step(now) {
                        SchedulerAction::Tick => {
                            let events = backend.poll_events();
                            let mut i: usize = 0;
                            while i < events.len()
                                invariant
                                    self.wf(),
                                    i <= events.len(),
                                    old(self).log().is_prefix_of(self.log()),
                                decreases events.len() - i,
                            {
                                if let RawEvent::Close = &events[i] {
                                    done = true;
                                }
                                let ghost before = self.log();
                                self.dispatch(&events[i]);
                                proof {
                                    if let Some(e) = spec_classify(events@[i as int]) {
                                        assert(before.is_prefix_of(before.push(e)));
                                    }
                                }
                                i = i + 1;
                            }
                            backend.render();
                        },
                        SchedulerAction::Wait(ns) => {
                            backend.wait_ns(ns);
                        },
                    }
                }
            }
        }
        Ok(())
    }
}

} // verus!
