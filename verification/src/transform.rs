//! First-order transforms applied by propagation steps.
//!
//! A transform is a pure function on cell values, represented as data so that
//! a transform can itself be stored in a cell (`apply` reads the function to
//! run from an upstream cell) and so that composition is a value-level
//! operation.

use vstd::prelude::*;

use crate::value::{lemma_vals_eq_refl, lemma_vals_eq_trans, vals_eq, Value};

verus! {

/// A pure, total function on cell values.
///
/// Every transform leaves a value it does not understand unchanged, so
/// applying a transform never fails.
pub enum Transform {
    /// Leaves every value unchanged.
    Identity,
    /// Multiplies an integer value by the given factor, wrapping on overflow;
    /// leaves non-integer values unchanged.
    Scale(i64),
    /// Adds the given amount to an integer value, wrapping on overflow;
    /// leaves non-integer values unchanged.
    Offset(i64),
    /// Picks the component at the given position out of a tuple value;
    /// leaves the value unchanged if it is not a tuple that long.
    Project(usize),
    /// Applies the first transform, then the second to its result.
    Compose(Box<Transform>, Box<Transform>),
}

impl Transform {
    /// Structural copy: the result is equal to the original.
    pub fn dup(&self) -> (r: Transform)
        ensures
            r == *self,
        decreases *self,
    {
        match self {
            Transform::Identity => Transform::Identity,
            Transform::Scale(k) => Transform::Scale(*k),
            Transform::Offset(k) => Transform::Offset(*k),
            Transform::Project(i) => Transform::Project(*i),
            Transform::Compose(f, g) => Transform::Compose(Box::new(f.dup()), Box::new(g.dup())),
        }
    }

    /// Structural equality test.
    pub fn same_as(&self, other: &Transform) -> (r: bool)
        ensures
            r == (*self == *other),
        decreases *self,
    {
        match (self, other) {
            (Transform::Identity, Transform::Identity) => true,
            (Transform::Scale(a), Transform::Scale(b)) => *a == *b,
            (Transform::Offset(a), Transform::Offset(b)) => *a == *b,
            (Transform::Project(a), Transform::Project(b)) => *a == *b,
            (Transform::Compose(f1, g1), Transform::Compose(f2, g2)) => {
                let fs = f1.same_as(f2);
                let gs = g1.same_as(g2);
                fs && gs
            },
            _ => false,
        }
    }
}

/// What a transform computes, as a mathematical function on values.
pub open spec fn apply_spec(t: Transform, v: Value) -> Value
    decreases t,
{
    match t {
        Transform::Identity => v,
        Transform::Scale(k) => match v {
            Value::Int(x) => Value::Int(vstd::wrapping::i64_specs::wrapping_mul(x, k)),
            _ => v,
        },
        Transform::Offset(k) => match v {
            Value::Int(x) => Value::Int(vstd::wrapping::i64_specs::wrapping_add(x, k)),
            _ => v,
        },
        Transform::Project(i) => match v {
            Value::Tup(vs) => if i < vs@.len() {
                vs@[i as int]
            } else {
                Value::Tup(vs)
            },
            _ => v,
        },
        Transform::Compose(f, g) => apply_spec(*g, apply_spec(*f, v)),
    }
}

/// Applying a transform respects denotational equality of values.
pub proof fn lemma_apply_congruence(t: Transform, a: Value, b: Value)
    requires
        vals_eq(a, b),
    ensures
        vals_eq(apply_spec(t, a), apply_spec(t, b)),
    decreases t,
{
    match t {
        Transform::Identity => {},
        Transform::Scale(k) => {
            if !(a is Int) {
                assert(apply_spec(t, a) == a);
            }
        },
        Transform::Offset(k) => {
            if !(a is Int) {
                assert(apply_spec(t, a) == a);
            }
        },
        Transform::Project(i) => {},
        Transform::Compose(f, g) => {
            lemma_apply_congruence(*f, a, b);
            lemma_apply_congruence(*g, apply_spec(*f, a), apply_spec(*f, b));
        },
    }
}

impl Transform {
    /// Runs the transform on a value.
    pub fn apply_to(&self, v: Value) -> (r: Value)
        ensures
            vals_eq(r, apply_spec(*self, v)),
        decreases *self,
    {
        match self {
            Transform::Identity => {
                proof {
                    lemma_vals_eq_refl(v);
                }
                v
            },
            Transform::Scale(k) => match v {
                Value::Int(x) => Value::Int(x.wrapping_mul(*k)),
                other => {
                    proof {
                        lemma_vals_eq_refl(other);
                    }
                    other
                },
            },
            Transform::Offset(k) => match v {
                Value::Int(x) => Value::Int(x.wrapping_add(*k)),
                other => {
                    proof {
                        lemma_vals_eq_refl(other);
                    }
                    other
                },
            },
            Transform::Project(i) => match v {
                Value::Tup(vs) => if *i < vs.len() {
                    vs[*i].dup()
                } else {
                    proof {
                        lemma_vals_eq_refl(Value::Tup(vs));
                    }
                    Value::Tup(vs)
                },
                other => {
                    proof {
                        lemma_vals_eq_refl(other);
                    }
                    other
                },
            },
            Transform::Compose(f, g) => {
                let m = f.apply_to(v);
                let ghost m0 = m;
                let r = g.apply_to(m);
                proof {
                    lemma_apply_congruence(**g, m0, apply_spec(**f, v));
                    lemma_vals_eq_trans(r, apply_spec(**g, m0), apply_spec(**g, apply_spec(**f, v)));
                }
                r
            },
        }
    }
}

} // verus!
