//! The values that signal cells carry.
//!
//! Cells are heterogeneous: a cell may hold an integer, a piece of text, a
//! boolean, a transform (so that `apply` can rebind the function it runs
//! dynamically), or a tuple of values (the output of a join).  Equality of
//! values is the denotational relation [`vals_eq`]: text is compared by its
//! characters and tuples componentwise, so a copied value counts as equal to
//! its original.

use vstd::prelude::*;

use crate::transform::Transform;

verus! {

/// A value stored in a signal cell.
pub enum Value {
    /// A signed integer.
    Int(i64),
    /// A boolean.
    Flag(bool),
    /// A piece of text.
    Text(String),
    /// A transform carried as data, for function-valued cells.
    Func(Box<Transform>),
    /// A tuple of values, as emitted by the join family.
    Tup(Vec<Value>),
}

/// Denotational equality on values: integers, booleans and transforms by
/// structure, text by its characters, tuples componentwise.
pub open spec fn vals_eq(a: Value, b: Value) -> bool
    decreases a,
{
    match (a, b) {
        (Value::Int(x), Value::Int(y)) => x == y,
        (Value::Flag(x), Value::Flag(y)) => x == y,
        (Value::Text(s), Value::Text(t)) => s@ == t@,
        (Value::Func(f), Value::Func(g)) => f == g,
        (Value::Tup(xs), Value::Tup(ys)) => xs@.len() == ys@.len() && (forall|i: int|
            0 <= i < xs@.len() ==> vals_eq(xs@[i], ys@[i])),
        _ => false,
    }
}

/// Denotational equality lifted to optional values.
pub open spec fn opt_vals_eq(a: Option<Value>, b: Option<Value>) -> bool {
    match (a, b) {
        (None, None) => true,
        (Some(x), Some(y)) => vals_eq(x, y),
        _ => false,
    }
}

impl Value {
    /// Copies a value; the copy is denotationally equal to the original.
    pub fn dup(&self) -> (r: Value)
        ensures
            vals_eq(r, *self),
        decreases *self,
    {
        match self {
            Value::Int(x) => Value::Int(*x),
            Value::Flag(b) => Value::Flag(*b),
            Value::Text(s) => Value::Text(s.clone()),
            Value::Func(f) => Value::Func(Box::new(f.dup())),
            Value::Tup(xs) => {
                let mut w: Vec<Value> = Vec::new();
                let mut i: usize = 0;
                while i < xs.len()
                    invariant
                        *self == Value::Tup(*xs),
                        i <= xs@.len(),
                        w@.len() == i as int,
                        forall|j: int| 0 <= j < i as int ==> vals_eq(w@[j], xs@[j]),
                    decreases xs@.len() - i,
                {
                    proof {
                        assert(decreases_to!(*self => self->Tup_0));
                        assert(decreases_to!(self->Tup_0 => self->Tup_0@));
                        assert(decreases_to!(self->Tup_0@ => self->Tup_0@[i as int]));
                        assert(decreases_to!(*self => xs@[i as int]));
                    }
                    let e = xs[i].dup();
                    w.push(e);
                    i = i + 1;
                }
                Value::Tup(w)
            },
        }
    }

    /// Decides denotational equality.
    pub fn same_as(&self, other: &Value) -> (r: bool)
        ensures
            r == vals_eq(*self, *other),
        decreases *self,
    {
        match (self, other) {
            (Value::Int(x), Value::Int(y)) => *x == *y,
            (Value::Flag(x), Value::Flag(y)) => *x == *y,
            (Value::Text(s), Value::Text(t)) => *s == *t,
            (Value::Func(f), Value::Func(g)) => f.same_as(g),
            (Value::Tup(xs), Value::Tup(ys)) => {
                if xs.len() != ys.len() {
                    false
                } else {
                    let mut ok = true;
                    let mut i: usize = 0;
                    while i < xs.len()
                        invariant
                            *self == Value::Tup(*xs),
                            xs@.len() == ys@.len(),
                            i <= xs@.len(),
                            ok == (forall|j: int| 0 <= j < i as int ==> vals_eq(xs@[j], ys@[j])),
                        decreases xs@.len() - i,
                    {
                        proof {
                            assert(decreases_to!(*self => self->Tup_0));
                            assert(decreases_to!(self->Tup_0 => self->Tup_0@));
                            assert(decreases_to!(self->Tup_0@ => self->Tup_0@[i as int]));
                        }
                        let e = xs[i].same_as(&ys[i]);
                        ok = ok && e;
                        i = i + 1;
                    }
                    ok
                }
            },
            _ => false,
        }
    }
}

/// Denotational equality is reflexive.
pub proof fn lemma_vals_eq_refl(a: Value)
    ensures
        vals_eq(a, a),
    decreases a,
{
    match a {
        Value::Tup(xs) => {
            assert forall|i: int| 0 <= i < xs@.len() implies vals_eq(xs@[i], xs@[i]) by {
                lemma_vals_eq_refl(xs@[i]);
            }
        },
        _ => {},
    }
}

/// Denotational equality is symmetric.
pub proof fn lemma_vals_eq_sym(a: Value, b: Value)
    ensures
        vals_eq(a, b) == vals_eq(b, a),
    decreases a,
{
    match (a, b) {
        (Value::Tup(xs), Value::Tup(ys)) => {
            assert forall|i: int| 0 <= i < xs@.len() implies vals_eq(xs@[i], ys@[i]) == vals_eq(
                ys@[i],
                xs@[i],
            ) by {
                lemma_vals_eq_sym(xs@[i], ys@[i]);
            }
        },
        _ => {},
    }
}

/// Denotational equality is transitive.
pub proof fn lemma_vals_eq_trans(a: Value, b: Value, c: Value)
    requires
        vals_eq(a, b),
        vals_eq(b, c),
    ensures
        vals_eq(a, c),
    decreases a,
{
    match (a, b) {
        (Value::Tup(xs), Value::Tup(ys)) => {
            match c {
                Value::Tup(zs) => {
                    assert forall|i: int| 0 <= i < xs@.len() implies vals_eq(xs@[i], zs@[i]) by {
                        lemma_vals_eq_trans(xs@[i], ys@[i], zs@[i]);
                    }
                },
                _ => {},
            }
        },
        _ => {},
    }
}

} // verus!
