use carboxyl_window::Button;
use carboxyl_window::ButtonEvent;
use carboxyl_window::ButtonState;
use carboxyl_window::Direction;

const KEY_A: u32 = 97;
const KEY_S: u32 = 115;
const KEY_W: u32 = 119;

#[test]
fn test_track_button_glutin() {
    let a = Button::Keyboard(KEY_A);
    let mut events: Vec<ButtonEvent> = Vec::new();
    assert_eq!(ButtonState::track(&events, a), ButtonState::Released);
    events.push(ButtonEvent { button: a, state: ButtonState::Pressed });
    assert_eq!(ButtonState::track(&events, a), ButtonState::Pressed);
    events.push(ButtonEvent { button: a, state: ButtonState::Released });
    assert_eq!(ButtonState::track(&events, a), ButtonState::Released);
}

#[test]
fn axis_buttons_glutin() {
    let w = Button::Keyboard(KEY_W);
    let s = Button::Keyboard(KEY_S);
    let mut events: Vec<ButtonEvent> = Vec::new();

    assert_eq!(Direction::track(&events, w, s), Direction::Still);

    events.push(ButtonEvent { button: w, state: ButtonState::Pressed });
    assert_eq!(Direction::track(&events, w, s), Direction::Positive);

    events.push(ButtonEvent { button: s, state: ButtonState::Pressed });
    assert_eq!(Direction::track(&events, w, s), Direction::Still);

    events.push(ButtonEvent { button: w, state: ButtonState::Released });
    assert_eq!(Direction::track(&events, w, s), Direction::Negative);

    events.push(ButtonEvent { button: s, state: ButtonState::Released });
    assert_eq!(Direction::track(&events, w, s), Direction::Still);
}

#[test]
fn track_ignores_other_buttons() {
    let a = Button::Keyboard(KEY_A);
    let w = Button::Keyboard(KEY_W);
    let mouse = Button::Mouse(0);
    let events = vec![
        ButtonEvent { button: w, state: ButtonState::Pressed },
        ButtonEvent { button: mouse, state: ButtonState::Pressed },
    ];
    assert_eq!(ButtonState::track(&events, a), ButtonState::Released);
    assert_eq!(ButtonState::track(&events, w), ButtonState::Pressed);
    assert_eq!(ButtonState::track(&events, mouse), ButtonState::Pressed);
}

#[test]
fn direction_table_and_sign() {
    let table = [
        (ButtonState::Pressed, ButtonState::Released, Direction::Positive, 1i64),
        (ButtonState::Released, ButtonState::Pressed, Direction::Negative, -1i64),
        (ButtonState::Pressed, ButtonState::Pressed, Direction::Still, 0i64),
        (ButtonState::Released, ButtonState::Released, Direction::Still, 0i64),
    ];
    for (plus, minus, direction, sign) in table {
        let d = Direction::from_buttons(plus, minus);
        assert_eq!(d, direction);
        assert_eq!(d.sign(), sign);
    }
}
