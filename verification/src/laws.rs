use vstd::prelude::*;
use crate::timeline::{
    cells_wf, delivered, feed_wf, publish_result, unlink_result, Action, ChainFn, Subscription,
    TimelineCell, Transform,
};

verus! {

/// Publishing changes no subscription and no length, and a well-formed
/// network stays well-formed.
pub proof fn lemma_publish_preserves_wf<A, F: Transform<A>, G: ChainFn<A>>(
    cells: Seq<TimelineCell<A, F, G>>,
    s: int,
    v: A,
)
    ensures
        publish_result(cells, s, v).len() == cells.len(),
        forall|c: int|
            0 <= c < cells.len() ==> (#[trigger] publish_result(cells, s, v)[c]).feed
                == cells[c].feed,
        cells_wf(cells) ==> cells_wf(publish_result(cells, s, v)),
{
    if cells_wf(cells) {
        assert forall|c: int|
            0 <= c < cells.len() implies feed_wf(
            #[trigger] publish_result(cells, s, v)[c],
            c,
        ) by {
            assert(feed_wf(cells[c], c));
        }
    }
}

/// Publishing `v` at `s` leaves `s` holding `v`.
pub proof fn lemma_publish_current<A, F: Transform<A>, G: ChainFn<A>>(
    cells: Seq<TimelineCell<A, F, G>>,
    s: int,
    v: A,
)
    requires
        0 <= s < cells.len(),
    ensures
        publish_result(cells, s, v)[s].current == v,
{
}

/// The network after the values of `vs` are published at `s`, one after the
/// other.
pub open spec fn publish_all<A, F: Transform<A>, G: ChainFn<A>>(
    cells: Seq<TimelineCell<A, F, G>>,
    s: int,
    vs: Seq<A>,
) -> Seq<TimelineCell<A, F, G>>
    decreases vs.len(),
{
    if vs.len() == 0 {
        cells
    } else {
        publish_all(publish_result(cells, s, vs[0]), s, vs.drop_first())
    }
}

/// Publish visibility: after any sequence of publishes at one timeline, its
/// current value is the last value published, whatever subscriptions the
/// network holds.
pub proof fn lemma_publish_visibility<A, F: Transform<A>, G: ChainFn<A>>(
    cells: Seq<TimelineCell<A, F, G>>,
    s: int,
    vs: Seq<A>,
)
    requires
        0 <= s < cells.len(),
        vs.len() > 0,
    ensures
        publish_all(cells, s, vs).len() == cells.len(),
        publish_all(cells, s, vs)[s].current == vs.last(),
    decreases vs.len(),
{
    lemma_publish_preserves_wf(cells, s, vs[0]);
    if vs.len() == 1 {
        lemma_publish_current(cells, s, vs[0]);
        assert(publish_all(publish_result(cells, s, vs[0]), s, vs.drop_first())
            == publish_result(cells, s, vs[0]));
    } else {
        lemma_publish_visibility(publish_result(cells, s, vs[0]), s, vs.drop_first());
        assert(vs.drop_first().last() == vs.last());
    }
}

/// Map functor law: a timeline derived by `map` with `f` from source `s`
/// holds `f(v)` after any publish of `v` at `s` — which is `f` of the
/// source's current value.
pub proof fn lemma_map_law<A, F: Transform<A>, G: ChainFn<A>>(
    cells: Seq<TimelineCell<A, F, G>>,
    s: usize,
    d: usize,
    f: F,
    v: A,
)
    requires
        cells_wf(cells),
        s < cells.len(),
        d < cells.len(),
        cells[d as int].feed == Some(Subscription { source: s, action: Action::<F, G>::Apply(f) }),
    ensures
        publish_result(cells, s as int, v)[d as int].current == f.spec_apply(v),
        publish_result(cells, s as int, v)[d as int].current == f.spec_apply(
            publish_result(cells, s as int, v)[s as int].current,
        ),
{
    assert(feed_wf(cells[d as int], d as int));
    assert(delivered(cells, s as int, d as int, v) == Some(f.spec_apply(v)));
}

/// Map composition: mapping with `f` and then with `g` observes, on every
/// publish at the common source, the same value as mapping once with any `h`
/// that computes `g` after `f`.
pub proof fn lemma_map_composition<A, F: Transform<A>, G: ChainFn<A>>(
    cells: Seq<TimelineCell<A, F, G>>,
    s: usize,
    d1: usize,
    d2: usize,
    d3: usize,
    f: F,
    g: F,
    h: F,
    v: A,
)
    requires
        cells_wf(cells),
        s < cells.len(),
        d1 < cells.len(),
        d2 < cells.len(),
        d3 < cells.len(),
        cells[d1 as int].feed == Some(Subscription { source: s, action: Action::<F, G>::Apply(f) }),
        cells[d2 as int].feed == Some(
            Subscription { source: d1, action: Action::<F, G>::Apply(g) },
        ),
        cells[d3 as int].feed == Some(Subscription { source: s, action: Action::<F, G>::Apply(h) }),
        forall|a: A| #[trigger] h.spec_apply(a) == g.spec_apply(f.spec_apply(a)),
    ensures
        publish_result(cells, s as int, v)[d2 as int].current == publish_result(
            cells,
            s as int,
            v,
        )[d3 as int].current,
        publish_result(cells, s as int, v)[d2 as int].current == g.spec_apply(f.spec_apply(v)),
{
    assert(feed_wf(cells[d1 as int], d1 as int));
    assert(feed_wf(cells[d2 as int], d2 as int));
    assert(feed_wf(cells[d3 as int], d3 as int));
    assert(delivered(cells, s as int, s as int, v) == Some(v));
    assert(delivered(cells, s as int, d1 as int, v) == Some(f.spec_apply(v)));
    assert(delivered(cells, s as int, d2 as int, v) == Some(g.spec_apply(f.spec_apply(v))));
    assert(delivered(cells, s as int, d3 as int, v) == Some(h.spec_apply(v)));
}

/// Bind forwarding: a timeline derived by `bind` with chain function `g`
/// from source `s` holds, after a publish of `v` at `s`, the current value
/// the timeline `g` yields for `v` had at the moment it was yielded.
pub proof fn lemma_bind_forwarding<A, F: Transform<A>, G: ChainFn<A>>(
    cells: Seq<TimelineCell<A, F, G>>,
    s: usize,
    d: usize,
    g: G,
    v: A,
)
    requires
        cells_wf(cells),
        s < cells.len(),
        d < cells.len(),
        cells[d as int].feed == Some(Subscription { source: s, action: Action::<F, G>::Chain(g) }),
    ensures
        publish_result(cells, s as int, v)[d as int].current == g.spec_target(v),
{
    assert(feed_wf(cells[d as int], d as int));
    assert(delivered(cells, s as int, s as int, v) == Some(v));
    assert(delivered(cells, s as int, d as int, v) == Some(g.spec_target(v)));
}

/// In a network where no subscription is fed by `s`, publishing at `s`
/// delivers nothing anywhere else.
proof fn lemma_no_feed_no_delivery<A, F: Transform<A>, G: ChainFn<A>>(
    cells: Seq<TimelineCell<A, F, G>>,
    s: int,
    c: int,
    v: A,
)
    requires
        forall|k: int|
            0 <= k < cells.len() ==> ((#[trigger] cells[k]).feed matches Some(sub) ==> sub.source
                as int != s),
        0 <= c < cells.len(),
        c != s,
    ensures
        delivered(cells, s, c, v) is None,
    decreases c,
{
    match cells[c].feed {
        Some(sub) => {
            if 0 <= sub.source && (sub.source as int) < c {
                lemma_no_feed_no_delivery(cells, s, sub.source as int, v);
            }
        },
        None => {},
    }
}

/// Unlink stops propagation: once `s` is unlinked, publishing at `s` still
/// updates `s` itself, but every other timeline — including every previously
/// derived one — retains its value unchanged.
pub proof fn lemma_unlink_stops_propagation<A, F: Transform<A>, G: ChainFn<A>>(
    cells: Seq<TimelineCell<A, F, G>>,
    s: usize,
    v: A,
)
    requires
        cells_wf(cells),
        s < cells.len(),
    ensures
        publish_result(unlink_result(cells, s as int), s as int, v)[s as int].current == v,
        forall|c: int|
            0 <= c < cells.len() && c != s as int ==> (#[trigger] publish_result(
                unlink_result(cells, s as int),
                s as int,
                v,
            )[c]).current == cells[c].current,
{
    let after = unlink_result(cells, s as int);
    assert forall|c: int|
        0 <= c < cells.len() && c != s as int implies (#[trigger] publish_result(
        after,
        s as int,
        v,
    )[c]).current == cells[c].current by {
        lemma_no_feed_no_delivery(after, s as int, c, v);
        assert(after[c].current == cells[c].current);
    }
}

} // verus!
