//! Engine-wide laws, stated over the same spec functions the operation
//! contracts use.

use vstd::prelude::*;

use crate::guard::{chain_accepts, guard_accepts, Guard};
use crate::signal::{cleared, tuple_updated, update_spec, Signal};
use crate::transform::{apply_spec, Transform};
use crate::value::{lemma_vals_eq_sym, vals_eq, Value};

verus! {

/// The cell a run of updates leaves behind, newest value last.
pub open spec fn updates_spec(c: Signal, vs: Seq<Value>) -> Signal
    decreases vs.len(),
{
    if vs.len() == 0 {
        c
    } else {
        update_spec(updates_spec(c, vs.drop_last()), vs.last())
    }
}

/// With only the strict guard attached and no change pending, updating with
/// `v1` and then with a different `v2` leaves exactly one delivered change:
/// consuming the cell finds the pair `(v2, previous v1)` once, and after the
/// consumption nothing is pending any more.
pub proof fn lemma_strict_single_delivery(c: Signal, v1: Value, v2: Value)
    requires
        c.effects@ =~= seq![Guard::Strict],
        !c.dirty,
        !vals_eq(v1, v2),
    ensures
        ({
            let after = update_spec(update_spec(c, v1), v2);
            &&& after.dirty
            &&& after.current == v2
            &&& after.previous == Some(v1)
            &&& !cleared(after).dirty
        }),
{
    let c1 = update_spec(c, v1);
    lemma_vals_eq_sym(v1, v2);
    assert(guard_accepts(Guard::Strict, v2, Some(v1)));
    assert(chain_accepts(c1.effects@, v2, Some(v1))) by {
        assert(forall|i: int| 0 <= i < c1.effects@.len() ==> c1.effects@[i] == Guard::Strict);
    }
}

/// Over any run of updates with no intervening reads, the recorded previous
/// value is the value the newest write replaced — the last write before it —
/// never a value from further back.
pub proof fn lemma_previous_is_last_write(c: Signal, vs: Seq<Value>)
    requires
        vs.len() >= 1,
    ensures
        updates_spec(c, vs).current == vs.last(),
        updates_spec(c, vs).previous == Some(
            if vs.len() >= 2 {
                vs[vs.len() - 2]
            } else {
                c.current
            },
        ),
    decreases vs.len(),
{
    if vs.len() >= 2 {
        lemma_previous_is_last_write(c, vs.drop_last());
        assert(vs.drop_last().last() == vs[vs.len() - 2]);
        assert(updates_spec(c, vs).previous == Some(updates_spec(c, vs.drop_last()).current));
    } else {
        assert(updates_spec(c, vs.drop_last()) == c);
    }
}

/// A pending change is never silently dropped: whatever a later update
/// carries and however its guard chain votes, the cell stays dirty until a
/// consumer clears it.
pub proof fn lemma_pending_change_kept(c: Signal, v: Value)
    requires
        c.dirty,
    ensures
        update_spec(c, v).dirty,
{
}

/// A firing join step emits one joint snapshot: every component of the
/// emitted tuple is the matching operand's value in the one pre-step state —
/// the tuple never mixes values read from two different instants.  Stated
/// here for two operands; `tuple_updated` is exactly the relation the join
/// steps ensure between the downstream cell and the operands' pre-step
/// values.
pub proof fn lemma_join_emits_joint_snapshot(a: Signal, b: Signal, d: Signal, d2: Signal)
    requires
        tuple_updated(d, d2, seq![a.current, b.current]),
    ensures
        d2.current matches Value::Tup(vs) && vs@.len() == 2 && vals_eq(vs@[0], a.current)
            && vals_eq(vs@[1], b.current),
{
    assert(vals_eq(d2.current->Tup_0@[0], seq![a.current, b.current][0]));
    assert(vals_eq(d2.current->Tup_0@[1], seq![a.current, b.current][1]));
}

/// When only one of two operands changed, an any-mode join still fires, and
/// the unchanged operand contributes the value it last stored — not a
/// default and not a fresher one.
pub proof fn lemma_join_any_uses_latest(a: Signal, b: Signal, d: Signal, d2: Signal)
    requires
        a.dirty,
        !b.dirty,
        tuple_updated(d, d2, seq![a.current, b.current]),
    ensures
        a.dirty || b.dirty,
        d2.current matches Value::Tup(vs) && vs@.len() == 2 && vals_eq(vs@[1], b.current),
{
    assert(vals_eq(d2.current->Tup_0@[1], seq![a.current, b.current][1]));
}

/// Map fusion: forwarding a change through `f` into a guard-free
/// intermediate cell and then through `g` writes the downstream cell exactly
/// what one step through the composition of the two writes — the composed
/// pipeline and the fused pipeline are indistinguishable downstream.
pub proof fn lemma_map_fusion(u: Signal, m: Signal, d: Signal, f: Box<Transform>, g: Box<
    Transform,
>)
    requires
        u.dirty,
        m.effects@.len() == 0,
    ensures
        ({
            let m1 = update_spec(m, apply_spec(*f, u.current));
            &&& m1.dirty
            &&& update_spec(d, apply_spec(*g, m1.current)) == update_spec(
                d,
                apply_spec(Transform::Compose(f, g), u.current),
            )
        }),
{
    let w1 = apply_spec(*f, u.current);
    assert(chain_accepts(m.effects@, w1, Some(m.current)));
}

} // verus!
