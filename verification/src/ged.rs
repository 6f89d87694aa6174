//! Source cells for decoded input events, and the ingress that feeds them.
//!
//! An external handler decodes a pointer or key event and writes its fields
//! into the matching source cells.  Each field is its own update under its
//! own critical section: fields that arrived together are not delivered
//! atomically to the engine, so a downstream join may momentarily observe
//! values from two different events.  That is an accepted boundary condition
//! of the ingress, not something the engine hides.

use vstd::prelude::*;

use crate::signal::{update_spec, Signal};
use crate::value::Value;

verus! {

/// A decoded pointer event.
pub struct MouseEvent {
    pub x: i32,
    pub y: i32,
    pub button: i32,
    pub name: String,
}

/// A decoded key event.
pub struct KeyboardEvent {
    pub key: String,
}

/// The source cells fed by pointer events.
pub struct MouseSignals {
    pub x: Signal,
    pub y: Signal,
    pub button: Signal,
    pub name: Signal,
}

/// The source cells fed by key events.
pub struct KeyboardSignals {
    pub key: Signal,
}

/// All source cells of the engine.
pub struct InputSignals {
    pub mouse: MouseSignals,
    pub keyboard: KeyboardSignals,
}

/// A fresh cell holding exactly `v`.
pub open spec fn fresh_cell(c: Signal, v: Value) -> bool {
    &&& c.current == v
    &&& c.previous == None::<Value>
    &&& !c.dirty
    &&& c.effects@.len() == 0
}

/// A fresh cell holding empty text.
pub open spec fn fresh_text_cell(c: Signal) -> bool {
    &&& (c.current matches Value::Text(s) && s@.len() == 0)
    &&& c.previous == None::<Value>
    &&& !c.dirty
    &&& c.effects@.len() == 0
}

impl Default for MouseSignals {
    /// Four fresh cells: zero coordinates and button, empty name.
    fn default() -> (s: MouseSignals)
        ensures
            fresh_cell(s.x, Value::Int(0)),
            fresh_cell(s.y, Value::Int(0)),
            fresh_cell(s.button, Value::Int(0)),
            fresh_text_cell(s.name),
    {
        MouseSignals {
            x: Signal::new(Value::Int(0)),
            y: Signal::new(Value::Int(0)),
            button: Signal::new(Value::Int(0)),
            name: Signal::new(Value::Text(String::new())),
        }
    }
}

impl Default for KeyboardSignals {
    /// One fresh cell holding an empty key name.
    fn default() -> (s: KeyboardSignals)
        ensures
            fresh_text_cell(s.key),
    {
        KeyboardSignals { key: Signal::new(Value::Text(String::new())) }
    }
}

impl Default for InputSignals {
    /// Every source cell fresh.
    fn default() -> (s: InputSignals)
        ensures
            fresh_cell(s.mouse.x, Value::Int(0)),
            fresh_cell(s.mouse.y, Value::Int(0)),
            fresh_cell(s.mouse.button, Value::Int(0)),
            fresh_text_cell(s.mouse.name),
            fresh_text_cell(s.keyboard.key),
    {
        InputSignals { mouse: MouseSignals::default(), keyboard: KeyboardSignals::default() }
    }
}

/// Feeds one decoded pointer event into the source cells: the x, y and name
/// cells each take their own update, one after the other.  The button cell is
/// left alone; no consumer of the engine reads it on a move event.
pub fn record_mouse_event(m: &mut MouseSignals, e: &MouseEvent)
    ensures
        final(m).x == update_spec(old(m).x, Value::Int(e.x as i64)),
        final(m).y == update_spec(old(m).y, Value::Int(e.y as i64)),
        final(m).name == update_spec(old(m).name, Value::Text(e.name)),
        final(m).button == old(m).button,
{
    m.x.update(Value::Int(e.x as i64));
    m.y.update(Value::Int(e.y as i64));
    m.name.update(Value::Text(e.name.clone()));
}

/// Feeds one decoded key event into its source cell.
pub fn record_keyboard_event(k: &mut KeyboardSignals, e: &KeyboardEvent)
    ensures
        final(k).key == update_spec(old(k).key, Value::Text(e.key)),
{
    k.key.update(Value::Text(e.key.clone()));
}

} // verus!
