//! The guard/effect chain run on every candidate update.
//!
//! A cell carries an ordered list of guards.  On each update every guard is
//! evaluated over the new value and the value it replaced, and the update
//! counts as a change to deliver only when all of them accept.  A guard that
//! returns false suppresses delivery of that one write and nothing else.

use vstd::prelude::*;

use crate::value::{lemma_vals_eq_sym, lemma_vals_eq_trans, opt_vals_eq, vals_eq, Value};

verus! {

/// One predicate in a cell's guard chain.
pub enum Guard {
    /// Accepts only a real change: the new value differs from the value it
    /// replaced, or nothing was replaced yet.
    Strict,
    /// Never accepts; turns the cell into a write-only sink.
    Ignore,
    /// Accepts a tuple whose component at the given position equals the given
    /// value; rejects everything else.
    FieldIs(usize, Value),
}

/// Whether one guard accepts the new value `current` that replaced `previous`.
pub open spec fn guard_accepts(g: Guard, current: Value, previous: Option<Value>) -> bool {
    match g {
        Guard::Strict => match previous {
            None => true,
            Some(p) => !vals_eq(current, p),
        },
        Guard::Ignore => false,
        Guard::FieldIs(i, w) => match current {
            Value::Tup(vs) => i < vs@.len() && vals_eq(vs@[i as int], w),
            _ => false,
        },
    }
}

/// Whether a whole guard chain accepts: the conjunction over all its guards.
pub open spec fn chain_accepts(gs: Seq<Guard>, current: Value, previous: Option<Value>) -> bool {
    forall|i: int| 0 <= i < gs.len() ==> guard_accepts(gs[i], current, previous)
}

impl Guard {
    /// Evaluates the guard on a candidate update.
    pub fn eval(&self, current: &Value, previous: &Option<Value>) -> (r: bool)
        ensures
            r == guard_accepts(*self, *current, *previous),
    {
        match self {
            Guard::Strict => match previous {
                None => true,
                Some(p) => !current.same_as(p),
            },
            Guard::Ignore => false,
            Guard::FieldIs(i, w) => match current {
                Value::Tup(vs) => *i < vs.len() && vs[*i].same_as(w),
                _ => false,
            },
        }
    }
}

/// Evaluates a whole chain in order.  Every guard runs; the result is the
/// conjunction of all of them.
pub fn eval_chain(gs: &Vec<Guard>, current: &Value, previous: &Option<Value>) -> (r: bool)
    ensures
        r == chain_accepts(gs@, *current, *previous),
{
    let mut ok = true;
    let mut i: usize = 0;
    while i < gs.len()
        invariant
            i <= gs@.len(),
            ok == (forall|j: int| 0 <= j < i as int ==> guard_accepts(gs@[j], *current, *previous)),
        decreases gs@.len() - i,
    {
        let e = gs[i].eval(current, previous);
        ok = ok && e;
        i = i + 1;
    }
    ok
}

/// A guard's verdict depends only on the denotation of the values it reads.
pub proof fn lemma_guard_congruence(
    g: Guard,
    c1: Value,
    c2: Value,
    p1: Option<Value>,
    p2: Option<Value>,
)
    requires
        vals_eq(c1, c2),
        opt_vals_eq(p1, p2),
    ensures
        guard_accepts(g, c1, p1) == guard_accepts(g, c2, p2),
{
    match g {
        Guard::Strict => match (p1, p2) {
            (Some(q1), Some(q2)) => {
                if vals_eq(c1, q1) {
                    lemma_vals_eq_sym(c1, c2);
                    lemma_vals_eq_trans(c2, c1, q1);
                    lemma_vals_eq_trans(c2, q1, q2);
                }
                if vals_eq(c2, q2) {
                    lemma_vals_eq_trans(c1, c2, q2);
                    lemma_vals_eq_sym(q1, q2);
                    lemma_vals_eq_trans(c1, q2, q1);
                }
            },
            _ => {},
        },
        Guard::Ignore => {},
        Guard::FieldIs(i, w) => match (c1, c2) {
            (Value::Tup(xs), Value::Tup(ys)) => {
                if i < xs@.len() {
                    if vals_eq(xs@[i as int], w) {
                        lemma_vals_eq_sym(xs@[i as int], ys@[i as int]);
                        lemma_vals_eq_trans(ys@[i as int], xs@[i as int], w);
                    }
                    if vals_eq(ys@[i as int], w) {
                        lemma_vals_eq_trans(xs@[i as int], ys@[i as int], w);
                    }
                }
            },
            _ => {},
        },
    }
}

/// A chain's verdict depends only on the denotation of the values it reads.
pub proof fn lemma_chain_congruence(
    gs: Seq<Guard>,
    c1: Value,
    c2: Value,
    p1: Option<Value>,
    p2: Option<Value>,
)
    requires
        vals_eq(c1, c2),
        opt_vals_eq(p1, p2),
    ensures
        chain_accepts(gs, c1, p1) == chain_accepts(gs, c2, p2),
{
    assert forall|i: int| 0 <= i < gs.len() implies guard_accepts(gs[i], c1, p1) == guard_accepts(
        gs[i],
        c2,
        p2,
    ) by {
        lemma_guard_congruence(gs[i], c1, c2, p1, p2);
    }
}

} // verus!
