//! The join family: N-way recombination of upstream cells.
//!
//! A join owns references to several upstream cells and emits the tuple of
//! their current values into a downstream cell.  The two policies differ in
//! when they fire: a plain join recombines only on a tick where every operand
//! has an unconsumed change (strict synchrony — the emitted tuple is a single
//! joint observation taken inside one critical section over all operands),
//! while `join_any` recombines whenever at least one operand changed, reusing
//! the latest value of the others even if stale.  Either way, every dirty
//! flag the policy examined is cleared in the same critical section that
//! produces the output.
//!
//! The arities are written out one by one; a runtime picks the one matching
//! its operand count.

use vstd::prelude::*;

use crate::signal::{cleared, is_tuple_of, tuple_updated, Signal};
use crate::value::{vals_eq, Value};

verus! {

/// When a join recombines: on a tick where all operands changed, or where
/// any did.
#[derive(Clone, Copy)]
pub enum JoinMode {
    /// Conjunction of the operand dirty flags: fire only when every operand
    /// holds an unconsumed change in the same tick.
    All,
    /// Disjunction of the operand dirty flags: fire whenever at least one
    /// operand holds an unconsumed change.
    Any,
}

/// Consumes the pending change of one join operand: hands back a copy of its
/// current value and clears its dirty flag.
fn consume(c: &mut Signal) -> (v: Value)
    ensures
        vals_eq(v, old(c).current),
        *final(c) == cleared(*old(c)),
{
    let v = c.current.dup();
    c.dirty = false;
    v
}

/// Builds the downstream cell of a 1-way join, seeded with the tuple of
/// the operands' current values.
pub fn join1(s1: &Signal) -> (d: Signal)
    ensures
        is_tuple_of(d.current, seq![s1.current]),
        d.previous == None::<Value>,
        !d.dirty,
        d.effects@.len() == 0,
{
    let mut items: Vec<Value> = Vec::new();
    items.push(s1.current.dup());
    Signal::new(Value::Tup(items))
}

/// One poll tick of a 1-way join task, under one critical section over all
/// the cells involved: when the policy fires, emits the joint tuple of the
/// operands' current values downstream and clears every examined dirty flag.
pub fn join_step1(s1: &mut Signal, dst: &mut Signal, mode: JoinMode) -> (fired: bool)
    ensures
        fired == (match mode {
            JoinMode::All => old(s1).dirty,
            JoinMode::Any => old(s1).dirty,
        }),
        !fired ==> *final(s1) == *old(s1) && *final(dst) == *old(dst),
        fired ==> *final(s1) == cleared(*old(s1)) && tuple_updated(
            *old(dst),
            *final(dst),
            seq![old(s1).current],
        ),
{
    let fired = match mode {
        JoinMode::All => s1.dirty,
        JoinMode::Any => s1.dirty,
    };
    if fired {
        let mut items: Vec<Value> = Vec::new();
        items.push(consume(s1));
        dst.update(Value::Tup(items));
    }
    fired
}

/// Builds the downstream cell of a 2-way join, seeded with the tuple of
/// the operands' current values.
pub fn join2(s1: &Signal, s2: &Signal) -> (d: Signal)
    ensures
        is_tuple_of(d.current, seq![s1.current, s2.current]),
        d.previous == None::<Value>,
        !d.dirty,
        d.effects@.len() == 0,
{
    let mut items: Vec<Value> = Vec::new();
    items.push(s1.current.dup());
    items.push(s2.current.dup());
    Signal::new(Value::Tup(items))
}

/// One poll tick of a 2-way join task, under one critical section over all
/// the cells involved: when the policy fires, emits the joint tuple of the
/// operands' current values downstream and clears every examined dirty flag.
pub fn join_step2(s1: &mut Signal, s2: &mut Signal, dst: &mut Signal, mode: JoinMode) -> (fired: bool)
    ensures
        fired == (match mode {
            JoinMode::All => old(s1).dirty && old(s2).dirty,
            JoinMode::Any => old(s1).dirty || old(s2).dirty,
        }),
        !fired ==> *final(s1) == *old(s1) && *final(s2) == *old(s2) && *final(dst) == *old(dst),
        fired ==> *final(s1) == cleared(*old(s1)) && *final(s2) == cleared(*old(s2)) && tuple_updated(
            *old(dst),
            *final(dst),
            seq![old(s1).current, old(s2).current],
        ),
{
    let fired = match mode {
        JoinMode::All => s1.dirty && s2.dirty,
        JoinMode::Any => s1.dirty || s2.dirty,
    };
    if fired {
        let mut items: Vec<Value> = Vec::new();
        items.push(consume(s1));
        items.push(consume(s2));
        dst.update(Value::Tup(items));
    }
    fired
}

/// Builds the downstream cell of a 3-way join, seeded with the tuple of
/// the operands' current values.
pub fn join3(s1: &Signal, s2: &Signal, s3: &Signal) -> (d: Signal)
    ensures
        is_tuple_of(d.current, seq![s1.current, s2.current, s3.current]),
        d.previous == None::<Value>,
        !d.dirty,
        d.effects@.len() == 0,
{
    let mut items: Vec<Value> = Vec::new();
    items.push(s1.current.dup());
    items.push(s2.current.dup());
    items.push(s3.current.dup());
    Signal::new(Value::Tup(items))
}

/// One poll tick of a 3-way join task, under one critical section over all
/// the cells involved: when the policy fires, emits the joint tuple of the
/// operands' current values downstream and clears every examined dirty flag.
pub fn join_step3(s1: &mut Signal, s2: &mut Signal, s3: &mut Signal, dst: &mut Signal, mode: JoinMode) -> (fired: bool)
    ensures
        fired == (match mode {
            JoinMode::All => old(s1).dirty && old(s2).dirty && old(s3).dirty,
            JoinMode::Any => old(s1).dirty || old(s2).dirty || old(s3).dirty,
        }),
        !fired ==> *final(s1) == *old(s1) && *final(s2) == *old(s2) && *final(s3) == *old(s3) && *final(dst) == *old(dst),
        fired ==> *final(s1) == cleared(*old(s1)) && *final(s2) == cleared(*old(s2)) && *final(s3) == cleared(*old(s3)) && tuple_updated(
            *old(dst),
            *final(dst),
            seq![old(s1).current, old(s2).current, old(s3).current],
        ),
{
    let fired = match mode {
        JoinMode::All => s1.dirty && s2.dirty && s3.dirty,
        JoinMode::Any => s1.dirty || s2.dirty || s3.dirty,
    };
    if fired {
        let mut items: Vec<Value> = Vec::new();
        items.push(consume(s1));
        items.push(consume(s2));
        items.push(consume(s3));
        dst.update(Value::Tup(items));
    }
    fired
}

/// Builds the downstream cell of a 4-way join, seeded with the tuple of
/// the operands' current values.
pub fn join4(s1: &Signal, s2: &Signal, s3: &Signal, s4: &Signal) -> (d: Signal)
    ensures
        is_tuple_of(d.current, seq![s1.current, s2.current, s3.current, s4.current]),
        d.previous == None::<Value>,
        !d.dirty,
        d.effects@.len() == 0,
{
    let mut items: Vec<Value> = Vec::new();
    items.push(s1.current.dup());
    items.push(s2.current.dup());
    items.push(s3.current.dup());
    items.push(s4.current.dup());
    Signal::new(Value::Tup(items))
}

/// One poll tick of a 4-way join task, under one critical section over all
/// the cells involved: when the policy fires, emits the joint tuple of the
/// operands' current values downstream and clears every examined dirty flag.
pub fn join_step4(s1: &mut Signal, s2: &mut Signal, s3: &mut Signal, s4: &mut Signal, dst: &mut Signal, mode: JoinMode) -> (fired: bool)
    ensures
        fired == (match mode {
            JoinMode::All => old(s1).dirty && old(s2).dirty && old(s3).dirty && old(s4).dirty,
            JoinMode::Any => old(s1).dirty || old(s2).dirty || old(s3).dirty || old(s4).dirty,
        }),
        !fired ==> *final(s1) == *old(s1) && *final(s2) == *old(s2) && *final(s3) == *old(s3) && *final(s4) == *old(s4) && *final(dst) == *old(dst),
        fired ==> *final(s1) == cleared(*old(s1)) && *final(s2) == cleared(*old(s2)) && *final(s3) == cleared(*old(s3)) && *final(s4) == cleared(*old(s4)) && tuple_updated(
            *old(dst),
            *final(dst),
            seq![old(s1).current, old(s2).current, old(s3).current, old(s4).current],
        ),
{
    let fired = match mode {
        JoinMode::All => s1.dirty && s2.dirty && s3.dirty && s4.dirty,
        JoinMode::Any => s1.dirty || s2.dirty || s3.dirty || s4.dirty,
    };
    if fired {
        let mut items: Vec<Value> = Vec::new();
        items.push(consume(s1));
        items.push(consume(s2));
        items.push(consume(s3));
        items.push(consume(s4));
        dst.update(Value::Tup(items));
    }
    fired
}

/// Builds the downstream cell of a 5-way join, seeded with the tuple of
/// the operands' current values.
pub fn join5(s1: &Signal, s2: &Signal, s3: &Signal, s4: &Signal, s5: &Signal) -> (d: Signal)
    ensures
        is_tuple_of(d.current, seq![s1.current, s2.current, s3.current, s4.current, s5.current]),
        d.previous == None::<Value>,
        !d.dirty,
        d.effects@.len() == 0,
{
    let mut items: Vec<Value> = Vec::new();
    items.push(s1.current.dup());
    items.push(s2.current.dup());
    items.push(s3.current.dup());
    items.push(s4.current.dup());
    items.push(s5.current.dup());
    Signal::new(Value::Tup(items))
}

/// One poll tick of a 5-way join task, under one critical section over all
/// the cells involved: when the policy fires, emits the joint tuple of the
/// operands' current values downstream and clears every examined dirty flag.
pub fn join_step5(s1: &mut Signal, s2: &mut Signal, s3: &mut Signal, s4: &mut Signal, s5: &mut Signal, dst: &mut Signal, mode: JoinMode) -> (fired: bool)
    ensures
        fired == (match mode {
            JoinMode::All => old(s1).dirty && old(s2).dirty && old(s3).dirty && old(s4).dirty && old(s5).dirty,
            JoinMode::Any => old(s1).dirty || old(s2).dirty || old(s3).dirty || old(s4).dirty || old(s5).dirty,
        }),
        !fired ==> *final(s1) == *old(s1) && *final(s2) == *old(s2) && *final(s3) == *old(s3) && *final(s4) == *old(s4) && *final(s5) == *old(s5) && *final(dst) == *old(dst),
        fired ==> *final(s1) == cleared(*old(s1)) && *final(s2) == cleared(*old(s2)) && *final(s3) == cleared(*old(s3)) && *final(s4) == cleared(*old(s4)) && *final(s5) == cleared(*old(s5)) && tuple_updated(
            *old(dst),
            *final(dst),
            seq![old(s1).current, old(s2).current, old(s3).current, old(s4).current, old(s5).current],
        ),
{
    let fired = match mode {
        JoinMode::All => s1.dirty && s2.dirty && s3.dirty && s4.dirty && s5.dirty,
        JoinMode::Any => s1.dirty || s2.dirty || s3.dirty || s4.dirty || s5.dirty,
    };
    if fired {
        let mut items: Vec<Value> = Vec::new();
        items.push(consume(s1));
        items.push(consume(s2));
        items.push(consume(s3));
        items.push(consume(s4));
        items.push(consume(s5));
        dst.update(Value::Tup(items));
    }
    fired
}

/// Builds the downstream cell of a 6-way join, seeded with the tuple of
/// the operands' current values.
pub fn join6(s1: &Signal, s2: &Signal, s3: &Signal, s4: &Signal, s5: &Signal, s6: &Signal) -> (d: Signal)
    ensures
        is_tuple_of(d.current, seq![s1.current, s2.current, s3.current, s4.current, s5.current, s6.current]),
        d.previous == None::<Value>,
        !d.dirty,
        d.effects@.len() == 0,
{
    let mut items: Vec<Value> = Vec::new();
    items.push(s1.current.dup());
    items.push(s2.current.dup());
    items.push(s3.current.dup());
    items.push(s4.current.dup());
    items.push(s5.current.dup());
    items.push(s6.current.dup());
    Signal::new(Value::Tup(items))
}

/// One poll tick of a 6-way join task, under one critical section over all
/// the cells involved: when the policy fires, emits the joint tuple of the
/// operands' current values downstream and clears every examined dirty flag.
pub fn join_step6(s1: &mut Signal, s2: &mut Signal, s3: &mut Signal, s4: &mut Signal, s5: &mut Signal, s6: &mut Signal, dst: &mut Signal, mode: JoinMode) -> (fired: bool)
    ensures
        fired == (match mode {
            JoinMode::All => old(s1).dirty && old(s2).dirty && old(s3).dirty && old(s4).dirty && old(s5).dirty && old(s6).dirty,
            JoinMode::Any => old(s1).dirty || old(s2).dirty || old(s3).dirty || old(s4).dirty || old(s5).dirty || old(s6).dirty,
        }),
        !fired ==> *final(s1) == *old(s1) && *final(s2) == *old(s2) && *final(s3) == *old(s3) && *final(s4) == *old(s4) && *final(s5) == *old(s5) && *final(s6) == *old(s6) && *final(dst) == *old(dst),
        fired ==> *final(s1) == cleared(*old(s1)) && *final(s2) == cleared(*old(s2)) && *final(s3) == cleared(*old(s3)) && *final(s4) == cleared(*old(s4)) && *final(s5) == cleared(*old(s5)) && *final(s6) == cleared(*old(s6)) && tuple_updated(
            *old(dst),
            *final(dst),
            seq![old(s1).current, old(s2).current, old(s3).current, old(s4).current, old(s5).current, old(s6).current],
        ),
{
    let fired = match mode {
        JoinMode::All => s1.dirty && s2.dirty && s3.dirty && s4.dirty && s5.dirty && s6.dirty,
        JoinMode::Any => s1.dirty || s2.dirty || s3.dirty || s4.dirty || s5.dirty || s6.dirty,
    };
    if fired {
        let mut items: Vec<Value> = Vec::new();
        items.push(consume(s1));
        items.push(consume(s2));
        items.push(consume(s3));
        items.push(consume(s4));
        items.push(consume(s5));
        items.push(consume(s6));
        dst.update(Value::Tup(items));
    }
    fired
}

/// Builds the downstream cell of a 7-way join, seeded with the tuple of
/// the operands' current values.
pub fn join7(s1: &Signal, s2: &Signal, s3: &Signal, s4: &Signal, s5: &Signal, s6: &Signal, s7: &Signal) -> (d: Signal)
    ensures
        is_tuple_of(d.current, seq![s1.current, s2.current, s3.current, s4.current, s5.current, s6.current, s7.current]),
        d.previous == None::<Value>,
        !d.dirty,
        d.effects@.len() == 0,
{
    let mut items: Vec<Value> = Vec::new();
    items.push(s1.current.dup());
    items.push(s2.current.dup());
    items.push(s3.current.dup());
    items.push(s4.current.dup());
    items.push(s5.current.dup());
    items.push(s6.current.dup());
    items.push(s7.current.dup());
    Signal::new(Value::Tup(items))
}

/// One poll tick of a 7-way join task, under one critical section over all
/// the cells involved: when the policy fires, emits the joint tuple of the
/// operands' current values downstream and clears every examined dirty flag.
pub fn join_step7(s1: &mut Signal, s2: &mut Signal, s3: &mut Signal, s4: &mut Signal, s5: &mut Signal, s6: &mut Signal, s7: &mut Signal, dst: &mut Signal, mode: JoinMode) -> (fired: bool)
    ensures
        fired == (match mode {
            JoinMode::All => old(s1).dirty && old(s2).dirty && old(s3).dirty && old(s4).dirty && old(s5).dirty && old(s6).dirty && old(s7).dirty,
            JoinMode::Any => old(s1).dirty || old(s2).dirty || old(s3).dirty || old(s4).dirty || old(s5).dirty || old(s6).dirty || old(s7).dirty,
        }),
        !fired ==> *final(s1) == *old(s1) && *final(s2) == *old(s2) && *final(s3) == *old(s3) && *final(s4) == *old(s4) && *final(s5) == *old(s5) && *final(s6) == *old(s6) && *final(s7) == *old(s7) && *final(dst) == *old(dst),
        fired ==> *final(s1) == cleared(*old(s1)) && *final(s2) == cleared(*old(s2)) && *final(s3) == cleared(*old(s3)) && *final(s4) == cleared(*old(s4)) && *final(s5) == cleared(*old(s5)) && *final(s6) == cleared(*old(s6)) && *final(s7) == cleared(*old(s7)) && tuple_updated(
            *old(dst),
            *final(dst),
            seq![old(s1).current, old(s2).current, old(s3).current, old(s4).current, old(s5).current, old(s6).current, old(s7).current],
        ),
{
    let fired = match mode {
        JoinMode::All => s1.dirty && s2.dirty && s3.dirty && s4.dirty && s5.dirty && s6.dirty && s7.dirty,
        JoinMode::Any => s1.dirty || s2.dirty || s3.dirty || s4.dirty || s5.dirty || s6.dirty || s7.dirty,
    };
    if fired {
        let mut items: Vec<Value> = Vec::new();
        items.push(consume(s1));
        items.push(consume(s2));
        items.push(consume(s3));
        items.push(consume(s4));
        items.push(consume(s5));
        items.push(consume(s6));
        items.push(consume(s7));
        dst.update(Value::Tup(items));
    }
    fired
}

/// Builds the downstream cell of a 8-way join, seeded with the tuple of
/// the operands' current values.
pub fn join8(s1: &Signal, s2: &Signal, s3: &Signal, s4: &Signal, s5: &Signal, s6: &Signal, s7: &Signal, s8: &Signal) -> (d: Signal)
    ensures
        is_tuple_of(d.current, seq![s1.current, s2.current, s3.current, s4.current, s5.current, s6.current, s7.current, s8.current]),
        d.previous == None::<Value>,
        !d.dirty,
        d.effects@.len() == 0,
{
    let mut items: Vec<Value> = Vec::new();
    items.push(s1.current.dup());
    items.push(s2.current.dup());
    items.push(s3.current.dup());
    items.push(s4.current.dup());
    items.push(s5.current.dup());
    items.push(s6.current.dup());
    items.push(s7.current.dup());
    items.push(s8.current.dup());
    Signal::new(Value::Tup(items))
}

/// One poll tick of a 8-way join task, under one critical section over all
/// the cells involved: when the policy fires, emits the joint tuple of the
/// operands' current values downstream and clears every examined dirty flag.
pub fn join_step8(s1: &mut Signal, s2: &mut Signal, s3: &mut Signal, s4: &mut Signal, s5: &mut Signal, s6: &mut Signal, s7: &mut Signal, s8: &mut Signal, dst: &mut Signal, mode: JoinMode) -> (fired: bool)
    ensures
        fired == (match mode {
            JoinMode::All => old(s1).dirty && old(s2).dirty && old(s3).dirty && old(s4).dirty && old(s5).dirty && old(s6).dirty && old(s7).dirty && old(s8).dirty,
            JoinMode::Any => old(s1).dirty || old(s2).dirty || old(s3).dirty || old(s4).dirty || old(s5).dirty || old(s6).dirty || old(s7).dirty || old(s8).dirty,
        }),
        !fired ==> *final(s1) == *old(s1) && *final(s2) == *old(s2) && *final(s3) == *old(s3) && *final(s4) == *old(s4) && *final(s5) == *old(s5) && *final(s6) == *old(s6) && *final(s7) == *old(s7) && *final(s8) == *old(s8) && *final(dst) == *old(dst),
        fired ==> *final(s1) == cleared(*old(s1)) && *final(s2) == cleared(*old(s2)) && *final(s3) == cleared(*old(s3)) && *final(s4) == cleared(*old(s4)) && *final(s5) == cleared(*old(s5)) && *final(s6) == cleared(*old(s6)) && *final(s7) == cleared(*old(s7)) && *final(s8) == cleared(*old(s8)) && tuple_updated(
            *old(dst),
            *final(dst),
            seq![old(s1).current, old(s2).current, old(s3).current, old(s4).current, old(s5).current, old(s6).current, old(s7).current, old(s8).current],
        ),
{
    let fired = match mode {
        JoinMode::All => s1.dirty && s2.dirty && s3.dirty && s4.dirty && s5.dirty && s6.dirty && s7.dirty && s8.dirty,
        JoinMode::Any => s1.dirty || s2.dirty || s3.dirty || s4.dirty || s5.dirty || s6.dirty || s7.dirty || s8.dirty,
    };
    if fired {
        let mut items: Vec<Value> = Vec::new();
        items.push(consume(s1));
        items.push(consume(s2));
        items.push(consume(s3));
        items.push(consume(s4));
        items.push(consume(s5));
        items.push(consume(s6));
        items.push(consume(s7));
        items.push(consume(s8));
        dst.update(Value::Tup(items));
    }
    fired
}

} // verus!
