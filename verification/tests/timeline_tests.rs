use timeline::{IntChain, IntOp, Timeline};

fn fresh(initial: i64) -> Timeline<i64, IntOp, IntChain> {
    Timeline::new(initial)
}

#[test]
fn initial_value_is_current() {
    let t = fresh(42);
    let s = t.source();
    assert_eq!(t.last(s), 42);
    assert_eq!(t.count(), 1);
}

#[test]
fn publish_visibility_last_write_wins() {
    let mut t = fresh(0);
    let s = t.source();
    t.next(s, 1);
    t.next(s, 2);
    t.next(s, 3);
    assert_eq!(t.last(s), 3);
}

#[test]
fn map_initializes_from_current() {
    let mut t = fresh(10);
    let s = t.source();
    let d = t.map(s, IntOp::AddSat(1));
    assert_eq!(t.last(d), 11);
    assert_eq!(t.count(), 2);
}

#[test]
fn map_law_holds_after_every_publish() {
    let mut t = fresh(0);
    let s = t.source();
    let d = t.map(s, IntOp::AddSat(1));
    for v in [5_i64, -3, 100, 0] {
        t.next(s, v);
        assert_eq!(t.last(d), t.last(s) + 1);
        assert_eq!(t.last(d), v + 1);
    }
}

#[test]
fn map_cascade_propagates_depth_two() {
    let mut t = fresh(1);
    let s = t.source();
    let d1 = t.map(s, IntOp::AddSat(2));
    let d2 = t.map(d1, IntOp::Negate);
    assert_eq!(t.last(d2), -3);
    t.next(s, 7);
    assert_eq!(t.last(d1), 9);
    assert_eq!(t.last(d2), -9);
}

#[test]
fn map_composition_observes_same_values() {
    let mut chained = fresh(0);
    let s1 = chained.source();
    let d1 = chained.map(s1, IntOp::AddSat(1));
    let d2 = chained.map(d1, IntOp::Negate);

    let mut composed = fresh(0);
    let s2 = composed.source();
    let d3 = composed.map(
        s2,
        IntOp::Then(Box::new(IntOp::AddSat(1)), Box::new(IntOp::Negate)),
    );

    for v in [4_i64, -9, 0, i64::MAX, i64::MIN] {
        chained.next(s1, v);
        composed.next(s2, v);
        assert_eq!(chained.last(d2), composed.last(d3));
    }
}

#[test]
fn bind_forwards_snapshot_of_yielded_timeline() {
    let mut t = fresh(10);
    let s = t.source();
    let b = t.bind(s, IntChain { op: IntOp::AddSat(5) });
    assert_eq!(t.last(b), 15);
    t.next(s, 100);
    assert_eq!(t.last(b), 105);
}

#[test]
fn bound_timeline_updates_only_on_source_publish() {
    let mut t = fresh(1);
    let s = t.source();
    let b = t.bind(s, IntChain { op: IntOp::Keep });
    t.next(b, 99);
    assert_eq!(t.last(b), 99);
    assert_eq!(t.last(s), 1);
    t.next(s, 2);
    assert_eq!(t.last(b), 2);
}

#[test]
fn unlink_stops_propagation() {
    let mut t = fresh(0);
    let s = t.source();
    let d = t.map(s, IntOp::AddSat(1));
    t.next(s, 5);
    assert_eq!(t.last(d), 6);
    t.unlink(s);
    t.next(s, 50);
    assert_eq!(t.last(s), 50);
    assert_eq!(t.last(d), 6);
}

#[test]
fn unlink_is_idempotent() {
    let mut t = fresh(0);
    let s = t.source();
    let d = t.map(s, IntOp::Keep);
    t.unlink(s);
    t.unlink(s);
    t.next(s, 8);
    assert_eq!(t.last(s), 8);
    assert_eq!(t.last(d), 0);
}

#[test]
fn unlink_leaves_other_sources_linked() {
    let mut t = fresh(0);
    let s = t.source();
    let d1 = t.map(s, IntOp::AddSat(1));
    let d2 = t.map(d1, IntOp::AddSat(10));
    t.unlink(d1);
    t.next(s, 5);
    assert_eq!(t.last(d1), 6);
    assert_eq!(t.last(d2), 11);
}

#[test]
fn add_saturates_at_extremes() {
    let mut t = fresh(0);
    let s = t.source();
    let d = t.map(s, IntOp::AddSat(1));
    t.next(s, i64::MAX);
    assert_eq!(t.last(d), i64::MAX);
    let d2 = t.map(s, IntOp::AddSat(-1));
    t.next(s, i64::MIN);
    assert_eq!(t.last(d2), i64::MIN);
}

#[test]
fn negate_saturates_at_minimum() {
    let mut t = fresh(i64::MIN);
    let s = t.source();
    let d = t.map(s, IntOp::Negate);
    assert_eq!(t.last(d), i64::MAX);
    t.next(s, -7);
    assert_eq!(t.last(d), 7);
}

#[test]
fn publishing_on_derived_does_not_touch_source() {
    let mut t = fresh(3);
    let s = t.source();
    let d = t.map(s, IntOp::Keep);
    t.next(d, 77);
    assert_eq!(t.last(s), 3);
    assert_eq!(t.last(d), 77);
}
