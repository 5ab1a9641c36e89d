use carboxyl_window::Button;
use carboxyl_window::ButtonState;
use carboxyl_window::CursorUpdate;
use carboxyl_window::InputEvent;
use carboxyl_window::RawEvent;
use carboxyl_window::Update;
use carboxyl_window::WindowUpdate;
use carboxyl_window::classify::classify;
use carboxyl_window::classify::state_update;
use carboxyl_window::updates::sat_add;

#[test]
fn every_category_classifies_to_exactly_one_event() {
    let b = Button::Mouse(1);
    assert!(matches!(
        classify(&RawEvent::Press(b)),
        Some(InputEvent::Button(be)) if be.button == b && be.state == ButtonState::Pressed
    ));
    assert!(matches!(
        classify(&RawEvent::Release(b)),
        Some(InputEvent::Button(be)) if be.button == b && be.state == ButtonState::Released
    ));
    assert_eq!(classify(&RawEvent::MouseCursor(3, 4)), Some(InputEvent::Motion(3, 4)));
    assert_eq!(classify(&RawEvent::MouseScroll(-1, 2)), Some(InputEvent::Wheel(-1, 2)));
    assert_eq!(
        classify(&RawEvent::Text(String::from("abc"))),
        Some(InputEvent::Text(String::from("abc")))
    );
    assert_eq!(classify(&RawEvent::Resize(640, 480)), Some(InputEvent::Resize(640, 480)));
    assert_eq!(classify(&RawEvent::Move(-5, 9)), Some(InputEvent::Reposition(-5, 9)));
    assert_eq!(classify(&RawEvent::Focus(false)), Some(InputEvent::Focus(false)));
}

#[test]
fn unrecognized_and_relative_events_classify_to_nothing() {
    assert_eq!(classify(&RawEvent::Unknown), None);
    assert_eq!(classify(&RawEvent::MouseRelative(1, 1)), None);
    assert_eq!(classify(&RawEvent::Close), None);
}

#[test]
fn state_update_covers_window_and_cursor_categories() {
    assert_eq!(
        state_update(&RawEvent::Resize(320, 240)),
        Some(Update::Window(WindowUpdate::Resize(320, 240)))
    );
    assert_eq!(
        state_update(&RawEvent::Move(8, -9)),
        Some(Update::Window(WindowUpdate::MoveTo(8, -9)))
    );
    assert_eq!(
        state_update(&RawEvent::Focus(true)),
        Some(Update::Window(WindowUpdate::Focus(true)))
    );
    assert_eq!(
        state_update(&RawEvent::MouseCursor(1, 2)),
        Some(Update::Cursor(CursorUpdate::MoveTo(1, 2)))
    );
    assert_eq!(
        state_update(&RawEvent::MouseScroll(3, 4)),
        Some(Update::Cursor(CursorUpdate::WheelDelta(3, 4)))
    );
    assert_eq!(state_update(&RawEvent::Press(Button::Mouse(0))), None);
    assert_eq!(state_update(&RawEvent::Text(String::from("x"))), None);
}

#[test]
fn saturating_addition_clamps_at_both_ends() {
    assert_eq!(sat_add(1, 2), 3);
    assert_eq!(sat_add(-1, -2), -3);
    assert_eq!(sat_add(i64::MAX, 1), i64::MAX);
    assert_eq!(sat_add(i64::MIN, -1), i64::MIN);
    assert_eq!(sat_add(i64::MAX, i64::MIN), -1);
}
