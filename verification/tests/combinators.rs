//! Behaviour of the propagation steps: map, apply, bind and the join family.

use signals::guard::Guard;
use signals::join::{join2, join3, join8, join_step2, join_step3, join_step8, JoinMode};
use signals::signal::{apply_step, bind_step, map_step, Signal};
use signals::transform::Transform;
use signals::value::Value;

fn num(x: i64) -> Value {
    Value::Int(x)
}

fn text(s: &str) -> Value {
    Value::Text(String::from(s))
}

fn func(t: Transform) -> Value {
    Value::Func(Box::new(t))
}

fn pair_of(v: &Value) -> (Value, Value) {
    match v {
        Value::Tup(vs) => {
            assert_eq!(vs.len(), 2);
            (vs[0].dup(), vs[1].dup())
        }
        _ => panic!("expected a pair"),
    }
}

#[test]
fn map_seeds_downstream_from_upstream() {
    let a = Signal::new(num(3));
    let b = a.map(&Transform::Scale(2));
    assert!(b.current.same_as(&num(6)));
    assert!(b.previous.is_none());
    assert!(!b.dirty);
}

#[test]
fn map_step_fires_only_on_a_pending_change() {
    let mut a = Signal::new(num(3));
    let f = Transform::Scale(2);
    let mut b = a.map(&f);
    assert!(!map_step(&mut a, &mut b, &f));
    a.update(num(5));
    assert!(map_step(&mut a, &mut b, &f));
    assert!(!a.dirty);
    assert!(b.current.same_as(&num(10)));
    assert!(b.previous.as_ref().unwrap().same_as(&num(6)));
}

#[test]
fn strict_source_feeds_map_without_double_emission() {
    let mut a = Signal::new(num(3));
    a.strict();
    let f = Transform::Scale(2);
    let mut b = a.map(&f);
    assert!(b.current.same_as(&num(6)));
    assert!(b.previous.is_none());

    a.update(num(3));
    assert!(!map_step(&mut a, &mut b, &f));
    assert!(b.current.same_as(&num(6)));
    assert!(b.previous.is_none());

    a.update(num(5));
    assert!(map_step(&mut a, &mut b, &f));
    assert!(b.current.same_as(&num(10)));
    assert!(b.previous.as_ref().unwrap().same_as(&num(6)));
}

#[test]
fn scale_wraps_on_overflow() {
    let mut a = Signal::new(num(0));
    let f = Transform::Scale(2);
    let mut b = a.map(&f);
    a.update(num(i64::MAX));
    map_step(&mut a, &mut b, &f);
    assert!(b.current.same_as(&num(-2)));
}

#[test]
fn offset_and_projection_compute_exactly() {
    let mut a = Signal::new(num(0));
    let f = Transform::Offset(40);
    let mut b = a.map(&f);
    a.update(num(2));
    map_step(&mut a, &mut b, &f);
    assert!(b.current.same_as(&num(42)));

    let mut t = Signal::new(Value::Tup(vec![text("x"), num(9)]));
    let p = Transform::Project(1);
    let mut out = t.map(&p);
    assert!(out.current.same_as(&num(9)));
    t.update(Value::Tup(vec![text("y"), num(11)]));
    map_step(&mut t, &mut out, &p);
    assert!(out.current.same_as(&num(11)));
}

#[test]
fn map_composition_matches_composed_map() {
    let f = Transform::Scale(2);
    let g = Transform::Offset(1);
    let fused = Transform::Compose(Box::new(Transform::Scale(2)), Box::new(Transform::Offset(1)));

    let mut u1 = Signal::new(num(0));
    let mut mid = u1.map(&f);
    let mut d1 = mid.map(&g);

    let mut u2 = Signal::new(num(0));
    let mut d2 = u2.map(&fused);
    assert!(d1.current.same_as(&d2.current));

    for v in [3i64, 10, -4] {
        u1.update(num(v));
        map_step(&mut u1, &mut mid, &f);
        map_step(&mut mid, &mut d1, &g);

        u2.update(num(v));
        map_step(&mut u2, &mut d2, &fused);

        assert!(d1.current.same_as(&d2.current));
        assert!(d1.current.same_as(&num(v * 2 + 1)));
    }
}

#[test]
fn apply_runs_the_function_cell_on_the_argument_cell() {
    let mut f = Signal::new(func(Transform::Scale(2)));
    let mut a = Signal::new(num(4));
    let mut d = f.apply(&a);
    assert!(d.current.same_as(&num(8)));

    a.update(num(5));
    assert!(apply_step(&mut f, &mut a, &mut d));
    assert!(d.current.same_as(&num(10)));
    assert!(!f.dirty && !a.dirty);
}

#[test]
fn apply_rebinds_when_the_function_cell_changes() {
    let mut f = Signal::new(func(Transform::Scale(2)));
    let mut a = Signal::new(num(5));
    let mut d = f.apply(&a);
    assert!(d.current.same_as(&num(10)));

    f.update(func(Transform::Offset(1)));
    assert!(apply_step(&mut f, &mut a, &mut d));
    assert!(d.current.same_as(&num(6)));
    assert!(d.previous.as_ref().unwrap().same_as(&num(10)));
}

#[test]
fn apply_step_is_idle_without_changes() {
    let mut f = Signal::new(func(Transform::Identity));
    let mut a = Signal::new(num(1));
    let mut d = f.apply(&a);
    assert!(!apply_step(&mut f, &mut a, &mut d));
    assert!(!d.dirty);
}

#[test]
fn bind_forwards_into_a_caller_supplied_cell() {
    let mut src = Signal::new(num(0));
    let mut dst = Signal::new(num(100));
    let f = Transform::Identity;
    src.update(num(7));
    assert!(bind_step(&mut src, &mut dst, &f));
    assert!(dst.current.same_as(&num(7)));
    assert!(dst.previous.as_ref().unwrap().same_as(&num(100)));
}

#[test]
fn binds_fan_in_to_one_target() {
    let mut s1 = Signal::new(num(0));
    let mut s2 = Signal::new(num(0));
    let mut dst = Signal::new(num(0));
    let f = Transform::Identity;
    s1.update(num(1));
    bind_step(&mut s1, &mut dst, &f);
    s2.update(num(2));
    bind_step(&mut s2, &mut dst, &f);
    assert!(dst.current.same_as(&num(2)));
    assert!(dst.previous.as_ref().unwrap().same_as(&num(1)));
}

#[test]
fn join_all_waits_for_every_operand() {
    let mut a = Signal::new(num(1));
    let mut b = Signal::new(num(2));
    let mut d = join2(&a, &b);
    let (x, y) = pair_of(&d.current);
    assert!(x.same_as(&num(1)) && y.same_as(&num(2)));

    a.update(num(10));
    assert!(!join_step2(&mut a, &mut b, &mut d, JoinMode::All));
    assert!(a.dirty);

    b.update(num(20));
    assert!(join_step2(&mut a, &mut b, &mut d, JoinMode::All));
    assert!(!a.dirty && !b.dirty);
    let (x, y) = pair_of(&d.current);
    assert!(x.same_as(&num(10)) && y.same_as(&num(20)));
}

#[test]
fn join_emits_consistent_joint_snapshots_under_interleaving() {
    let mut a = Signal::new(num(0));
    let mut b = Signal::new(num(0));
    let mut d = join2(&a, &b);
    let mut emitted: Vec<(Value, Value)> = Vec::new();

    let writes: [(bool, i64); 6] = [(true, 1), (false, 10), (true, 2), (true, 3), (false, 20), (false, 30)];
    for (to_a, v) in writes {
        if to_a {
            a.update(num(v));
        } else {
            b.update(num(v));
        }
        let snapshot = (a.current.dup(), b.current.dup());
        if join_step2(&mut a, &mut b, &mut d, JoinMode::All) {
            let got = pair_of(&d.current);
            assert!(got.0.same_as(&snapshot.0) && got.1.same_as(&snapshot.1));
            emitted.push(got);
        }
    }
    assert_eq!(emitted.len(), 2);
    assert!(emitted[0].0.same_as(&num(1)) && emitted[0].1.same_as(&num(10)));
    assert!(emitted[1].0.same_as(&num(3)) && emitted[1].1.same_as(&num(20)));
}

#[test]
fn join_any_fires_on_a_single_change_and_keeps_stale_values() {
    let mut a = Signal::new(num(1));
    let mut b = Signal::new(num(2));
    let mut d = join2(&a, &b);

    a.update(num(5));
    assert!(join_step2(&mut a, &mut b, &mut d, JoinMode::Any));
    let (x, y) = pair_of(&d.current);
    assert!(x.same_as(&num(5)));
    assert!(y.same_as(&num(2)));
    assert!(!a.dirty && !b.dirty);

    assert!(!join_step2(&mut a, &mut b, &mut d, JoinMode::Any));
}

#[test]
fn join_three_ways() {
    let mut a = Signal::new(num(1));
    let mut b = Signal::new(text("two"));
    let mut c = Signal::new(num(3));
    let mut d = join3(&a, &b, &c);
    a.update(num(10));
    b.update(text("twenty"));
    c.update(num(30));
    assert!(join_step3(&mut a, &mut b, &mut c, &mut d, JoinMode::All));
    match &d.current {
        Value::Tup(vs) => {
            assert_eq!(vs.len(), 3);
            assert!(vs[0].same_as(&num(10)));
            assert!(vs[1].same_as(&text("twenty")));
            assert!(vs[2].same_as(&num(30)));
        }
        _ => panic!("expected a triple"),
    }
}

#[test]
fn join_eight_ways() {
    let mut c0 = Signal::new(num(0));
    let mut c1 = Signal::new(num(1));
    let mut c2 = Signal::new(num(2));
    let mut c3 = Signal::new(num(3));
    let mut c4 = Signal::new(num(4));
    let mut c5 = Signal::new(num(5));
    let mut c6 = Signal::new(num(6));
    let mut c7 = Signal::new(num(7));
    let mut d = join8(&c0, &c1, &c2, &c3, &c4, &c5, &c6, &c7);
    for (i, c) in [
        &mut c0, &mut c1, &mut c2, &mut c3, &mut c4, &mut c5, &mut c6, &mut c7,
    ]
    .into_iter()
    .enumerate()
    {
        c.update(num(100 + i as i64));
    }
    assert!(join_step8(
        &mut c0, &mut c1, &mut c2, &mut c3, &mut c4, &mut c5, &mut c6, &mut c7, &mut d,
        JoinMode::All
    ));
    match &d.current {
        Value::Tup(vs) => {
            assert_eq!(vs.len(), 8);
            for (i, v) in vs.iter().enumerate() {
                assert!(v.same_as(&num(100 + i as i64)));
            }
        }
        _ => panic!("expected an eight-tuple"),
    }
}

#[test]
fn guarded_join_delivers_exactly_one_tuple() {
    let mut name = Signal::new(text(""));
    let mut x = Signal::new(num(0));
    let mut d = join2(&name, &x);
    d.effect(Guard::FieldIs(0, text("mousedown")));

    let mut delivered: Vec<Value> = Vec::new();
    let mut drain = |d: &mut Signal, delivered: &mut Vec<Value>| {
        if let Some((cur, _prev)) = d.read_and_clear() {
            delivered.push(cur);
        }
    };

    name.update(text("mousemove"));
    join_step2(&mut name, &mut x, &mut d, JoinMode::Any);
    drain(&mut d, &mut delivered);

    x.update(num(10));
    join_step2(&mut name, &mut x, &mut d, JoinMode::Any);
    drain(&mut d, &mut delivered);

    name.update(text("mousedown"));
    join_step2(&mut name, &mut x, &mut d, JoinMode::Any);
    drain(&mut d, &mut delivered);

    assert_eq!(delivered.len(), 1);
    let (n, v) = pair_of(&delivered[0]);
    assert!(n.same_as(&text("mousedown")));
    assert!(v.same_as(&num(10)));
}
