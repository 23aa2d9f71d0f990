use timeline::{IntChain, IntOp, ThreadSafeTimeline};

fn fresh(initial: i64) -> ThreadSafeTimeline<i64, IntOp, IntChain> {
    ThreadSafeTimeline::new(initial)
}

#[test]
fn shared_initial_value_is_current() {
    let t = fresh(42);
    let s = t.source();
    assert_eq!(t.last(s), Some(42));
}

#[test]
fn shared_publish_visibility() {
    let t = fresh(0);
    let s = t.source();
    t.next(s, 1);
    t.next(s, 2);
    t.next(s, 3);
    t.next(s, 4);
    assert_eq!(t.last(s), Some(4));
}

#[test]
fn shared_map_law() {
    let t = fresh(10);
    let s = t.source();
    let d = t.map(s, IntOp::AddSat(1)).expect("source is always a valid handle");
    assert_eq!(t.last(d), Some(11));
    t.next(s, 20);
    assert_eq!(t.last(d), Some(21));
}

#[test]
fn shared_unlink_stops_propagation() {
    let t = fresh(0);
    let s = t.source();
    let d = t.map(s, IntOp::Negate).expect("source is always a valid handle");
    t.next(s, 5);
    assert_eq!(t.last(d), Some(-5));
    t.unlink(s);
    t.next(s, 9);
    assert_eq!(t.last(s), Some(9));
    assert_eq!(t.last(d), Some(-5));
}

#[test]
fn shared_unknown_handle_reads_none_and_publishes_nothing() {
    let t = fresh(1);
    let s = t.source();
    let bogus = {
        // A handle from a different, larger network is unknown here.
        let other = fresh(0);
        let d = other.map(other.source(), IntOp::Keep).expect("source is always valid");
        d
    };
    assert_eq!(t.last(bogus), None);
    t.next(bogus, 123);
    assert_eq!(t.last(s), Some(1));
    assert_eq!(t.map(bogus, IntOp::Keep), None);
}
