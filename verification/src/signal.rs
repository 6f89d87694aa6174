//! The primitive reactive storage cell and the single-cell propagation steps.
//!
//! A [`Signal`] holds its latest accepted value, the value that update
//! replaced, a dirty flag that marks an unconsumed change, and an ordered
//! guard chain.  Every function here is one critical section: a runtime that
//! shares cells between tasks wraps each cell in a lock and calls these
//! operations with the lock held.

use vstd::prelude::*;

use crate::guard::{chain_accepts, eval_chain, lemma_chain_congruence, Guard};
use crate::transform::{apply_spec, lemma_apply_congruence, Transform};
use crate::value::{lemma_vals_eq_refl, lemma_vals_eq_trans, opt_vals_eq, vals_eq, Value};

verus! {

/// The primitive storage unit of the engine.
pub struct Signal {
    /// The latest accepted value.
    pub current: Value,
    /// The value that `current` replaced; `None` only before the first update.
    pub previous: Option<Value>,
    /// True while an update has not yet been observed and cleared by a
    /// consumer.  This flag is the sole synchronization signal between the
    /// writer and the readers of the cell.
    pub dirty: bool,
    /// The ordered guard chain evaluated on each update.
    pub effects: Vec<Guard>,
}

/// The state a cell reaches when an update writes `v` into `c`: the old value
/// moves into `previous`, and the cell becomes dirty when it already was — a
/// pending change is never dropped by a later rejected write — or when the
/// whole guard chain accepts the new pair.
pub open spec fn update_spec(c: Signal, v: Value) -> Signal {
    Signal {
        current: v,
        previous: Some(c.current),
        dirty: c.dirty || chain_accepts(c.effects@, v, Some(c.current)),
        effects: c.effects,
    }
}

/// The same cell with its pending change consumed.
pub open spec fn cleared(c: Signal) -> Signal {
    Signal { dirty: false, ..c }
}

/// Two cells that agree up to the denotation of the values they hold.
pub open spec fn sim(c1: Signal, c2: Signal) -> bool {
    &&& vals_eq(c1.current, c2.current)
    &&& opt_vals_eq(c1.previous, c2.previous)
    &&& c1.dirty == c2.dirty
    &&& c1.effects == c2.effects
}

/// `v` is the tuple of `items`, componentwise up to denotation.
pub open spec fn is_tuple_of(v: Value, items: Seq<Value>) -> bool {
    match v {
        Value::Tup(vs) => vs@.len() == items.len() && (forall|i: int|
            0 <= i < items.len() ==> vals_eq(vs@[i], items[i])),
        _ => false,
    }
}

/// Before/after relation for a cell that took one update carrying the tuple
/// of `items`.
pub open spec fn tuple_updated(before: Signal, after: Signal, items: Seq<Value>) -> bool {
    &&& is_tuple_of(after.current, items)
    &&& after.previous == Some(before.current)
    &&& after.dirty == (before.dirty || chain_accepts(
        before.effects@,
        after.current,
        Some(before.current),
    ))
    &&& after.effects == before.effects
}

/// Which transform a function-valued cell currently carries; a cell that does
/// not hold a transform acts as the identity.
pub open spec fn fun_of(v: Value) -> Transform {
    match v {
        Value::Func(t) => *t,
        _ => Transform::Identity,
    }
}

impl Signal {
    /// A fresh cell: no history, no pending change, empty guard chain.
    pub fn new(value: Value) -> (s: Signal)
        ensures
            s.current == value,
            s.previous == None::<Value>,
            !s.dirty,
            s.effects@.len() == 0,
    {
        Signal { current: value, previous: None, dirty: false, effects: Vec::new() }
    }

    /// Appends a guard to the chain.  Guards are append-only and run in
    /// insertion order.
    pub fn effect(&mut self, g: Guard)
        ensures
            final(self).current == old(self).current,
            final(self).previous == old(self).previous,
            final(self).dirty == old(self).dirty,
            final(self).effects@ == old(self).effects@.push(g),
    {
        self.effects.push(g);
    }

    /// Appends the change-detection guard: propagate only when the new value
    /// differs from the one it replaced.
    pub fn strict(&mut self)
        ensures
            final(self).current == old(self).current,
            final(self).previous == old(self).previous,
            final(self).dirty == old(self).dirty,
            final(self).effects@ == old(self).effects@.push(Guard::Strict),
    {
        self.effect(Guard::Strict);
    }

    /// Appends the unconditional suppression guard: the cell becomes a
    /// write-only sink.
    pub fn ignore(&mut self)
        ensures
            final(self).current == old(self).current,
            final(self).previous == old(self).previous,
            final(self).dirty == old(self).dirty,
            final(self).effects@ == old(self).effects@.push(Guard::Ignore),
    {
        self.effect(Guard::Ignore);
    }

    /// Writes a new value under one critical section: records the replaced
    /// value, runs the whole guard chain — every guard executes, with no
    /// short-circuiting — and ORs the verdict into a still-pending dirty
    /// flag.  Returns whether a change was already pending, so a caller can
    /// detect an unconsumed earlier update.
    pub fn update(&mut self, value: Value) -> (was_dirty: bool)
        ensures
            *final(self) == update_spec(*old(self), value),
            was_dirty == old(self).dirty,
    {
        let was = self.dirty;
        let mut v = value;
        core::mem::swap(&mut self.current, &mut v);
        self.previous = Some(v);
        let accepted = eval_chain(&self.effects, &self.current, &self.previous);
        self.dirty = was || accepted;
        was
    }

    /// Consumes a pending change, all in one critical section: when the cell
    /// is dirty, hands out the current pair and clears the flag; otherwise
    /// leaves the cell untouched and reports nothing.  This is the only
    /// sanctioned way to observe a change, and it never delivers the same
    /// change twice.
    pub fn read_and_clear(&mut self) -> (r: Option<(Value, Option<Value>)>)
        ensures
            *final(self) == cleared(*old(self)),
            old(self).dirty ==> (r matches Some(p) && vals_eq(p.0, old(self).current)
                && opt_vals_eq(p.1, old(self).previous)),
            !old(self).dirty ==> r == None::<(Value, Option<Value>)> && *final(self) == *old(self),
    {
        if self.dirty {
            self.dirty = false;
            let cur = self.current.dup();
            let prev = match &self.previous {
                Some(p) => Some(p.dup()),
                None => None,
            };
            Some((cur, prev))
        } else {
            None
        }
    }

    /// Builds the downstream cell of a map combinator, seeded with the
    /// transform applied to the upstream's current value.
    pub fn map(&self, f: &Transform) -> (d: Signal)
        ensures
            vals_eq(d.current, apply_spec(*f, self.current)),
            d.previous == None::<Value>,
            !d.dirty,
            d.effects@.len() == 0,
    {
        let v = self.current.dup();
        let ghost v0 = v;
        let w = f.apply_to(v);
        proof {
            lemma_apply_congruence(*f, v0, self.current);
            lemma_vals_eq_trans(w, apply_spec(*f, v0), apply_spec(*f, self.current));
        }
        Signal::new(w)
    }

    /// Builds the downstream cell of an apply combinator: the receiver is the
    /// function-valued upstream, applied to the argument cell's current
    /// value.
    pub fn apply(&self, arg: &Signal) -> (d: Signal)
        ensures
            vals_eq(d.current, apply_spec(fun_of(self.current), arg.current)),
            d.previous == None::<Value>,
            !d.dirty,
            d.effects@.len() == 0,
    {
        let t = match &self.current {
            Value::Func(b) => b.dup(),
            _ => Transform::Identity,
        };
        let v = arg.current.dup();
        let ghost v0 = v;
        let w = t.apply_to(v);
        proof {
            lemma_apply_congruence(t, v0, arg.current);
            lemma_vals_eq_trans(w, apply_spec(t, v0), apply_spec(t, arg.current));
        }
        Signal::new(w)
    }
}

/// One poll tick of a map task: when the upstream has a pending change, the
/// step consumes it, recomputes through the transform and writes downstream —
/// all inside one joint critical section over both cells.
///
/// A rejection by the downstream guard chain suppresses only that one
/// delivery (the downstream cell simply does not turn dirty); it never ends
/// the task, whose lifetime belongs to the runtime driving these steps.
pub fn map_step(src: &mut Signal, dst: &mut Signal, f: &Transform) -> (fired: bool)
    ensures
        fired == old(src).dirty,
        !fired ==> *final(src) == *old(src) && *final(dst) == *old(dst),
        fired ==> *final(src) == cleared(*old(src)) && sim(
            *final(dst),
            update_spec(*old(dst), apply_spec(*f, old(src).current)),
        ),
{
    if src.dirty {
        src.dirty = false;
        let v = src.current.dup();
        let ghost v0 = v;
        let w = f.apply_to(v);
        let ghost w0 = w;
        dst.update(w);
        proof {
            lemma_apply_congruence(*f, v0, src.current);
            lemma_vals_eq_trans(w0, apply_spec(*f, v0), apply_spec(*f, src.current));
            lemma_vals_eq_refl(old(dst).current);
            lemma_chain_congruence(
                old(dst).effects@,
                w0,
                apply_spec(*f, src.current),
                Some(old(dst).current),
                Some(old(dst).current),
            );
        }
        true
    } else {
        false
    }
}

/// One poll tick of a bind task: the same forwarding step as a map tick, but
/// aimed at a caller-supplied target cell, so several binds may fan into one
/// cell; the target's own guard chain decides what it accepts.
pub fn bind_step(src: &mut Signal, dst: &mut Signal, f: &Transform) -> (fired: bool)
    ensures
        fired == old(src).dirty,
        !fired ==> *final(src) == *old(src) && *final(dst) == *old(dst),
        fired ==> *final(src) == cleared(*old(src)) && sim(
            *final(dst),
            update_spec(*old(dst), apply_spec(*f, old(src).current)),
        ),
{
    map_step(src, dst, f)
}

/// One poll tick of an apply task: recomputes when either the function cell
/// or the argument cell has a pending change — either operand changing is
/// enough — and consumes both pending changes in the same critical section.
pub fn apply_step(func: &mut Signal, arg: &mut Signal, dst: &mut Signal) -> (fired: bool)
    ensures
        fired == (old(func).dirty || old(arg).dirty),
        !fired ==> *final(func) == *old(func) && *final(arg) == *old(arg) && *final(dst) == *old(
            dst,
        ),
        fired ==> *final(func) == cleared(*old(func)) && *final(arg) == cleared(*old(arg)) && sim(
            *final(dst),
            update_spec(*old(dst), apply_spec(fun_of(old(func).current), old(arg).current)),
        ),
{
    if func.dirty || arg.dirty {
        let t = match &func.current {
            Value::Func(b) => b.dup(),
            _ => Transform::Identity,
        };
        let v = arg.current.dup();
        let ghost v0 = v;
        let w = t.apply_to(v);
        let ghost w0 = w;
        func.dirty = false;
        arg.dirty = false;
        dst.update(w);
        proof {
            lemma_apply_congruence(t, v0, old(arg).current);
            lemma_vals_eq_trans(w0, apply_spec(t, v0), apply_spec(t, old(arg).current));
            lemma_vals_eq_refl(old(dst).current);
            lemma_chain_congruence(
                old(dst).effects@,
                w0,
                apply_spec(t, old(arg).current),
                Some(old(dst).current),
                Some(old(dst).current),
            );
        }
        true
    } else {
        false
    }
}

} // verus!
