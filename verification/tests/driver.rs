use carboxyl_window::Backend;
use carboxyl_window::Button;
use carboxyl_window::ButtonState;
use carboxyl_window::Direction;
use carboxyl_window::Event;
use carboxyl_window::RawEvent;
use carboxyl_window::WindowDriver;

const KEY_S: u32 = 115;
const KEY_W: u32 = 119;

#[test]
fn defaults_before_any_event() {
    let driver = WindowDriver::new();
    assert_eq!(driver.position(), (0, 0));
    assert_eq!(driver.size(), (0, 0));
    assert!(driver.focus());
    assert_eq!(driver.cursor(), (0, 0));
    assert_eq!(driver.wheel(), (0, 0));
    assert!(driver.buttons().is_empty());
    assert!(driver.text().is_empty());
    assert!(driver.events().is_empty());
}

#[test]
fn accumulates_wheel_deltas() {
    let mut driver = WindowDriver::new();
    driver.dispatch(&RawEvent::MouseScroll(3, -2));
    driver.dispatch(&RawEvent::MouseScroll(1, 1));
    assert_eq!(driver.wheel(), (4, -1));
    assert_eq!(driver.context().cursor.wheel, (4, -1));
}

#[test]
fn axis_direction_scenario() {
    let w = Button::Keyboard(KEY_W);
    let s = Button::Keyboard(KEY_S);
    let mut driver = WindowDriver::new();

    assert_eq!(Direction::track(&driver.buttons(), w, s), Direction::Still);
    driver.dispatch(&RawEvent::Press(w));
    assert_eq!(Direction::track(&driver.buttons(), w, s), Direction::Positive);
    driver.dispatch(&RawEvent::Press(s));
    assert_eq!(Direction::track(&driver.buttons(), w, s), Direction::Still);
    driver.dispatch(&RawEvent::Release(w));
    assert_eq!(Direction::track(&driver.buttons(), w, s), Direction::Negative);
    driver.dispatch(&RawEvent::Release(s));
    assert_eq!(Direction::track(&driver.buttons(), w, s), Direction::Still);
}

#[test]
fn holds_latest_window_and_pointer_state() {
    let mut driver = WindowDriver::new();
    driver.dispatch(&RawEvent::Move(10, -20));
    driver.dispatch(&RawEvent::Resize(640, 480));
    driver.dispatch(&RawEvent::MouseCursor(5, 6));
    driver.dispatch(&RawEvent::Focus(false));
    driver.dispatch(&RawEvent::Move(30, 40));
    assert_eq!(driver.position(), (30, 40));
    assert_eq!(driver.size(), (640, 480));
    assert_eq!(driver.cursor(), (5, 6));
    assert!(!driver.focus());

    let context = driver.context();
    assert_eq!(context.window.position, (30, 40));
    assert_eq!(context.window.size, (640, 480));
    assert!(!context.window.focus);
    assert_eq!(context.cursor.position, (5, 6));
    assert_eq!(context.cursor.wheel, (0, 0));
}

#[test]
fn focus_change_leaves_cursor_unchanged() {
    let mut driver = WindowDriver::new();
    driver.dispatch(&RawEvent::MouseCursor(5, 6));
    driver.dispatch(&RawEvent::MouseScroll(2, 3));
    let before = driver.context();
    driver.dispatch(&RawEvent::Focus(false));
    let after = driver.context();
    assert_eq!(after.cursor, before.cursor);
    assert!(!after.window.focus);
}

#[test]
fn unrecognized_events_are_dropped_silently() {
    let mut driver = WindowDriver::new();
    driver.dispatch(&RawEvent::MouseCursor(1, 2));
    let before = driver.context();
    driver.dispatch(&RawEvent::Unknown);
    driver.dispatch(&RawEvent::MouseRelative(50, 50));
    driver.dispatch(&RawEvent::Close);
    assert_eq!(driver.context(), before);
    assert!(driver.events().is_empty());
}

#[test]
fn streams_preserve_order() {
    let w = Button::Keyboard(KEY_W);
    let mut driver = WindowDriver::new();
    driver.dispatch(&RawEvent::Press(w));
    driver.dispatch(&RawEvent::Text(String::from("hi")));
    driver.dispatch(&RawEvent::Release(w));

    let buttons = driver.buttons();
    assert_eq!(buttons.len(), 2);
    assert_eq!(buttons[0].state, ButtonState::Pressed);
    assert_eq!(buttons[1].state, ButtonState::Released);

    let text = driver.text();
    assert_eq!(text, vec![String::from("hi")]);

    let events = driver.events();
    assert_eq!(
        events,
        vec![Event::Press(w), Event::Text(String::from("hi")), Event::Release(w)]
    );
}

/// A deterministic backend: time advances only through waiting and a fixed
/// render cost, a scripted batch of events arrives on a chosen tick, and the
/// backend asks to close after a fixed number of renders.
struct ScriptedBackend {
    now: u64,
    renders: u64,
    close_after: u64,
    render_cost: u64,
    wake_late_by: u64,
    script: Vec<(u64, RawEvent)>,
}

impl Backend for ScriptedBackend {
    fn should_close(&mut self) -> bool {
        self.renders >= self.close_after
    }

    fn poll_events(&mut self) -> Vec<RawEvent> {
        let mut due = Vec::new();
        let mut rest = Vec::new();
        for (at, event) in self.script.drain(..) {
            if at <= self.renders {
                due.push(event);
            } else {
                rest.push((at, event));
            }
        }
        self.script = rest;
        due
    }

    fn now_ns(&mut self) -> u64 {
        self.now
    }

    fn wait_ns(&mut self, ns: u64) {
        self.now += ns + self.wake_late_by;
    }

    fn render(&mut self) {
        self.renders += 1;
        self.now += self.render_cost;
    }
}

#[test]
fn ten_quiet_ticks_render_ten_times() {
    let mut backend = ScriptedBackend {
        now: 0,
        renders: 0,
        close_after: 10,
        render_cost: 1,
        wake_late_by: 0,
        script: Vec::new(),
    };
    let mut driver = WindowDriver::new();
    let started = backend.now;
    let outcome = driver.run_with(&mut backend, 100, 1_000_000);
    assert!(outcome.is_ok());
    assert_eq!(backend.renders, 10);
    let elapsed = backend.now - started;
    assert!(elapsed >= 9 * 100);
}

#[test]
fn jittery_wakeups_do_not_slow_the_loop_down_unboundedly() {
    let mut backend = ScriptedBackend {
        now: 0,
        renders: 0,
        close_after: 50,
        render_cost: 3,
        wake_late_by: 7,
        script: Vec::new(),
    };
    let mut driver = WindowDriver::new();
    let outcome = driver.run_with(&mut backend, 100, 1_000_000);
    assert!(outcome.is_ok());
    assert_eq!(backend.renders, 50);
    let elapsed = backend.now;
    assert!(elapsed >= 49 * 100);
    assert!(elapsed <= 50 * (100 + 7 + 3));
}

#[test]
fn run_dispatches_scripted_events_and_stops_on_close() {
    let mut backend = ScriptedBackend {
        now: 0,
        renders: 0,
        close_after: u64::MAX,
        render_cost: 1,
        wake_late_by: 0,
        script: vec![
            (0, RawEvent::Resize(320, 240)),
            (1, RawEvent::MouseScroll(2, 2)),
            (2, RawEvent::Close),
        ],
    };
    let mut driver = WindowDriver::new();
    let outcome = driver.run_with(&mut backend, 100, 1_000_000);
    assert!(outcome.is_ok());
    assert_eq!(driver.size(), (320, 240));
    assert_eq!(driver.wheel(), (2, 2));
    assert_eq!(backend.renders, 3);
}

#[test]
fn zero_tick_length_is_rejected_before_the_loop() {
    let mut backend = ScriptedBackend {
        now: 0,
        renders: 0,
        close_after: 10,
        render_cost: 1,
        wake_late_by: 0,
        script: Vec::new(),
    };
    let mut driver = WindowDriver::new();
    let outcome = driver.run_with(&mut backend, 0, 1_000_000);
    assert!(outcome.is_err());
    assert_eq!(backend.renders, 0);
}
