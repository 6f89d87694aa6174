//! The event ingress: decoded events land in the source cells, one update
//! per field, and downstream joins pick them up.

use signals::ged::{
    record_keyboard_event, record_mouse_event, InputSignals, KeyboardEvent, KeyboardSignals,
    MouseEvent, MouseSignals,
};
use signals::join::{join2, join_step2, JoinMode};
use signals::value::Value;

fn num(x: i64) -> Value {
    Value::Int(x)
}

fn text(s: &str) -> Value {
    Value::Text(String::from(s))
}

#[test]
fn default_sources_are_fresh() {
    let inputs = InputSignals::default();
    assert!(inputs.mouse.x.current.same_as(&num(0)));
    assert!(inputs.mouse.y.current.same_as(&num(0)));
    assert!(inputs.mouse.button.current.same_as(&num(0)));
    assert!(inputs.mouse.name.current.same_as(&text("")));
    assert!(inputs.keyboard.key.current.same_as(&text("")));
    assert!(!inputs.mouse.x.dirty);
    assert!(!inputs.keyboard.key.dirty);
}

#[test]
fn mouse_event_updates_each_field_cell() {
    let mut mouse = MouseSignals::default();
    let event = MouseEvent { x: 12, y: -7, button: 1, name: String::from("mousemove") };
    record_mouse_event(&mut mouse, &event);
    assert!(mouse.x.current.same_as(&num(12)));
    assert!(mouse.y.current.same_as(&num(-7)));
    assert!(mouse.name.current.same_as(&text("mousemove")));
    assert!(mouse.x.dirty && mouse.y.dirty && mouse.name.dirty);
    assert!(!mouse.button.dirty);
    assert!(mouse.button.current.same_as(&num(0)));
}

#[test]
fn keyboard_event_updates_the_key_cell() {
    let mut keyboard = KeyboardSignals::default();
    let event = KeyboardEvent { key: String::from("Escape") };
    record_keyboard_event(&mut keyboard, &event);
    assert!(keyboard.key.current.same_as(&text("Escape")));
    assert!(keyboard.key.dirty);
}

#[test]
fn joined_coordinates_follow_the_events() {
    let mut mouse = MouseSignals::default();
    mouse.x.strict();
    mouse.y.strict();
    let mut out = join2(&mouse.x, &mouse.y);

    let event = MouseEvent { x: 3, y: 4, button: 0, name: String::from("mousemove") };
    record_mouse_event(&mut mouse, &event);
    assert!(join_step2(&mut mouse.x, &mut mouse.y, &mut out, JoinMode::All));
    match &out.current {
        Value::Tup(vs) => {
            assert!(vs[0].same_as(&num(3)));
            assert!(vs[1].same_as(&num(4)));
        }
        _ => panic!("expected a coordinate pair"),
    }

    let same = MouseEvent { x: 3, y: 4, button: 0, name: String::from("mousemove") };
    record_mouse_event(&mut mouse, &same);
    assert!(!join_step2(&mut mouse.x, &mut mouse.y, &mut out, JoinMode::All));
}
