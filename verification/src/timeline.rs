use vstd::prelude::*;

verus! {

/// A pure transformation of published values: the verified counterpart of
/// the function a caller hands to [`Timeline::map`].
pub trait Transform<A>: Sized {
    /// The mathematical function this transform computes.
    spec fn spec_apply(&self, a: A) -> A;

    /// Apply the transform to a published value.
    fn apply(&self, a: &A) -> (r: A)
        ensures
            r == self.spec_apply(*a),
    ;
}

/// A chain function, as handed to [`Timeline::bind`]: for each published
/// value it yields a timeline, and only that timeline's current value at the
/// moment it is yielded is forwarded. Later updates to the yielded timeline
/// are not forwarded unless the source publishes again.
pub trait ChainFn<A>: Sized {
    /// The current value of the timeline this chain function yields for `a`.
    spec fn spec_target(&self, a: A) -> A;

    /// Yield the timeline for `a` and return its current value.
    fn target_value(&self, a: &A) -> (r: A)
        ensures
            r == self.spec_target(*a),
    ;
}

/// What a subscription does with a value published at its source.
pub enum Action<F, G> {
    /// Forward `f(a)`; registered by `map`.
    Apply(F),
    /// Forward the snapshot of the timeline the chain function yields for
    /// `a`; registered by `bind`.
    Chain(G),
}

/// The subscription feeding a derived timeline: where its values come from,
/// and what is done to them on the way.
pub struct Subscription<F, G> {
    pub source: usize,
    pub action: Action<F, G>,
}

/// One timeline of a network: the most recently published value, and, for a
/// derived timeline, the subscription that feeds it. A source timeline's
/// subscribers are exactly the cells whose `feed` names it.
pub struct TimelineCell<A, F, G> {
    pub current: A,
    pub feed: Option<Subscription<F, G>>,
}

/// Identifies one timeline within a network. Handles are cheap copies; the
/// network owns the shared state they all address.
#[derive(Clone, Copy, Debug, PartialEq, Eq, Structural)]
pub struct TimelineId {
    pub idx: usize,
}

/// The value the subscription of `cell` computes from a value `a` published
/// at its source.
pub open spec fn action_value<A, F: Transform<A>, G: ChainFn<A>>(act: Action<F, G>, a: A) -> A {
    match act {
        Action::Apply(f) => f.spec_apply(a),
        Action::Chain(g) => g.spec_target(a),
    }
}

/// A cell at position `c` may only be fed from an earlier cell: derived
/// timelines are always created after their source, so subscriptions point
/// strictly backwards and propagation cannot cycle.
pub open spec fn feed_wf<A, F, G>(cell: TimelineCell<A, F, G>, c: int) -> bool {
    match cell.feed {
        Some(sub) => sub.source < c,
        None => true,
    }
}

/// Well-formedness of a network: at least the cell created with the initial
/// value, and every subscription points strictly backwards.
pub open spec fn cells_wf<A, F, G>(cells: Seq<TimelineCell<A, F, G>>) -> bool {
    &&& cells.len() >= 1
    &&& forall|c: int| 0 <= c < cells.len() ==> feed_wf(#[trigger] cells[c], c)
}

/// The value delivered to cell `c` when `v` is published at cell `s`: `v`
/// itself at `s`, and otherwise the value delivered to the feeding cell,
/// transformed by the subscription's action — if the feeding chain reaches
/// `s` at all.
pub open spec fn delivered<A, F: Transform<A>, G: ChainFn<A>>(
    cells: Seq<TimelineCell<A, F, G>>,
    s: int,
    c: int,
    v: A,
) -> Option<A>
    decreases c,
{
    if c == s {
        Some(v)
    } else {
        match cells[c].feed {
            Some(sub) => {
                if 0 <= sub.source && (sub.source as int) < c {
                    match delivered(cells, s, sub.source as int, v) {
                        Some(u) => Some(action_value(sub.action, u)),
                        None => None,
                    }
                } else {
                    None
                }
            },
            None => None,
        }
    }
}

/// The network after `v` is published at cell `s`: every cell the
/// propagation reaches holds its delivered value, every other cell is
/// unchanged, and no subscription changes.
pub open spec fn publish_result<A, F: Transform<A>, G: ChainFn<A>>(
    cells: Seq<TimelineCell<A, F, G>>,
    s: int,
    v: A,
) -> Seq<TimelineCell<A, F, G>> {
    Seq::new(
        cells.len(),
        |c: int|
            match delivered(cells, s, c, v) {
                Some(u) => TimelineCell { current: u, feed: cells[c].feed },
                None => cells[c],
            },
    )
}

/// The network after cell `s` is unlinked: every subscription fed by `s` is
/// cancelled; values and all other subscriptions are unchanged.
pub open spec fn unlink_result<A, F: Transform<A>, G: ChainFn<A>>(
    cells: Seq<TimelineCell<A, F, G>>,
    s: int,
) -> Seq<TimelineCell<A, F, G>> {
    Seq::new(
        cells.len(),
        |c: int|
            match cells[c].feed {
                Some(sub) => if sub.source == s {
                    TimelineCell { current: cells[c].current, feed: None }
                } else {
                    cells[c]
                },
                None => cells[c],
            },
    )
}

/// A network of reactive cells. The network created by [`Timeline::new`]
/// holds a single source timeline, addressed by [`Timeline::source`];
/// [`Timeline::map`] and [`Timeline::bind`] add derived timelines and return
/// their handles. Publishing with [`Timeline::next`] stores the value and
/// propagates it synchronously through every subscription, in registration
/// order. The network is single-threaded; for sharing across threads see
/// [`crate::shared::ThreadSafeTimeline`].
pub struct Timeline<A, F, G> {
    cells: Vec<TimelineCell<A, F, G>>,
}

impl<A, F, G> View for Timeline<A, F, G> {
    type V = Seq<TimelineCell<A, F, G>>;

    closed spec fn view(&self) -> Seq<TimelineCell<A, F, G>> {
        self.cells@
    }
}

impl<A: Copy, F: Transform<A>, G: ChainFn<A>> Timeline<A, F, G> {
    /// Well-formedness: established by `new` and preserved by every method.
    pub open spec fn wf(&self) -> bool {
        cells_wf(self@)
    }

    /// Create a network holding one timeline whose current value is
    /// `initial_value` and which has no subscribers yet.
    pub fn new(initial_value: A) -> (r: Self)
        ensures
            r.wf(),
            r@.len() == 1,
            r@[0].current == initial_value,
            r@[0].feed is None,
    {
        let mut cells: Vec<TimelineCell<A, F, G>> = Vec::new();
        cells.push(TimelineCell { current: initial_value, feed: None });
        Timeline { cells }
    }

    /// The handle of the timeline `new` created.
    pub fn source(&self) -> (r: TimelineId)
        ensures
            r.idx == 0,
    {
        TimelineId { idx: 0 }
    }

    /// How many timelines the network holds. Handles returned by `map` and
    /// `bind` stay valid: the count never shrinks.
    pub fn count(&self) -> (r: usize)
        ensures
            r == self@.len(),
    {
        self.cells.len()
    }

    /// The most recently published value of timeline `t` (or its initial
    /// value, if none was published yet). Never blocks, never fails.
    pub fn last(&self, t: TimelineId) -> (r: A)
        requires
            t.idx < self@.len(),
        ensures
            r == self@[t.idx as int].current,
    {
        self.cells[t.idx].current
    }

    /// Derive a new timeline from `t`: it starts at `f(t.last())`, and on
    /// every later publish of a value `a` at `t` it receives `f(a)`.
    pub fn map(&mut self, t: TimelineId, f: F) -> (d: TimelineId)
        requires
            old(self).wf(),
            t.idx < old(self)@.len(),
        ensures
            final(self).wf(),
            d.idx == old(self)@.len(),
            final(self)@ == old(self)@.push(
                TimelineCell {
                    current: f.spec_apply(old(self)@[t.idx as int].current),
                    feed: Some(Subscription { source: t.idx, action: Action::Apply(f) }),
                },
            ),
    {
        let current = self.cells[t.idx].current;
        let initial = f.apply(&current);
        let d = TimelineId { idx: self.cells.len() };
        self.cells.push(
            TimelineCell {
                current: initial,
                feed: Some(Subscription { source: t.idx, action: Action::Apply(f) }),
            },
        );
        d
    }

    /// Derive a fixed timeline from `t` through a chain function: it starts
    /// at the current value of the timeline `monadf` yields for `t.last()`,
    /// and on every later publish of a value `a` at `t` it receives the
    /// current value of the timeline `monadf` yields for `a` — a one-time
    /// snapshot, not a live link to that inner timeline.
    pub fn bind(&mut self, t: TimelineId, monadf: G) -> (d: TimelineId)
        requires
            old(self).wf(),
            t.idx < old(self)@.len(),
        ensures
            final(self).wf(),
            d.idx == old(self)@.len(),
            final(self)@ == old(self)@.push(
                TimelineCell {
                    current: monadf.spec_target(old(self)@[t.idx as int].current),
                    feed: Some(Subscription { source: t.idx, action: Action::Chain(monadf) }),
                },
            ),
    {
        let current = self.cells[t.idx].current;
        let initial = monadf.target_value(&current);
        let d = TimelineId { idx: self.cells.len() };
        self.cells.push(
            TimelineCell {
                current: initial,
                feed: Some(Subscription { source: t.idx, action: Action::Chain(monadf) }),
            },
        );
        d
    }

    /// Publish `a` at timeline `t`: overwrite its current value, then hand
    /// the new value to every subscription fed by `t`, in registration
    /// order, cascading through derived timelines. Cells the propagation
    /// does not reach are untouched; no subscription changes.
    ///
    /// Subscribers are verified transforms and chain functions, total on
    /// their whole value type and free of panics, so no invocation can fail:
    /// the current value is always updated and every subscriber always runs.
    pub fn next(&mut self, t: TimelineId, a: A)
        requires
            old(self).wf(),
            t.idx < old(self)@.len(),
        ensures
            final(self).wf(),
            final(self)@ == publish_result(old(self)@, t.idx as int, a),
    {
        let ghost orig = self@;
        let ghost si = t.idx as int;
        let n = self.cells.len();

        let mut updated: Vec<bool> = Vec::new();
        let mut j: usize = 0;
        while j < n
            invariant
                j <= n,
                updated@.len() == j,
                forall|k: int| 0 <= k < j ==> !(#[trigger] updated@[k]),
            decreases n - j,
        {
            updated.push(false);
            j += 1;
        }

        self.cells[t.idx].current = a;
        updated[t.idx] = true;

        proof {
            lemma_delivered_low_all(orig, si, a);
        }

        let mut i: usize = t.idx + 1;
        while i < n
            invariant
                cells_wf(orig),
                0 <= si < n,
                si + 1 <= i <= n,
                n == orig.len(),
                self@.len() == n,
                updated@.len() == n,
                forall|c: int| 0 <= c < n ==> (#[trigger] self@[c]).feed == orig[c].feed,
                forall|c: int|
                    0 <= c < i ==> ((#[trigger] updated@[c]) <==> delivered(orig, si, c, a)
                        is Some),
                forall|c: int|
                    0 <= c < i ==> (#[trigger] self@[c]).current == (match delivered(
                        orig,
                        si,
                        c,
                        a,
                    ) {
                        Some(u) => u,
                        None => orig[c].current,
                    }),
                forall|c: int| i <= c < n ==> (#[trigger] self@[c]) == orig[c],
                forall|c: int| i <= c < n ==> !(#[trigger] updated@[c]),
            decreases n - i,
        {
            let mut newval: Option<A> = None;
            match &self.cells[i].feed {
                Some(sub) => {
                    if updated[sub.source] {
                        let u = self.cells[sub.source].current;
                        newval = Some(
                            match &sub.action {
                                Action::Apply(f) => f.apply(&u),
                                Action::Chain(g) => g.target_value(&u),
                            },
                        );
                    }
                },
                None => {},
            }
            match newval {
                Some(nv) => {
                    self.cells[i].current = nv;
                    updated[i] = true;
                },
                None => {},
            }
            i += 1;
        }

        proof {
            assert(self@ =~= publish_result(orig, si, a));
        }
    }

    /// Clear timeline `t`'s subscriber list: every subscription fed by `t`
    /// is cancelled, so later publishes at `t` no longer propagate. Current
    /// values — `t`'s and every derived timeline's — are untouched.
    /// Idempotent.
    pub fn unlink(&mut self, t: TimelineId)
        requires
            old(self).wf(),
        ensures
            final(self).wf(),
            final(self)@ == unlink_result(old(self)@, t.idx as int),
    {
        let ghost orig = self@;
        let n = self.cells.len();
        let mut i: usize = 0;
        while i < n
            invariant
                cells_wf(orig),
                i <= n,
                n == orig.len(),
                self@.len() == n,
                forall|c: int| 0 <= c < i ==> (#[trigger] self@[c]) == unlink_result(orig, t.idx as int)[c],
                forall|c: int| i <= c < n ==> (#[trigger] self@[c]) == orig[c],
            decreases n - i,
        {
            let mut cancel = false;
            match &self.cells[i].feed {
                Some(sub) => {
                    if sub.source == t.idx {
                        cancel = true;
                    }
                },
                None => {},
            }
            if cancel {
                self.cells[i].feed = None;
            }
            i += 1;
        }
        proof {
            assert(self@ =~= unlink_result(orig, t.idx as int));
        }
    }
}

/// When `v` is published at `s`, nothing is delivered to a cell before `s`:
/// subscriptions point strictly backwards, so a feeding chain starting below
/// `s` can never reach it.
pub proof fn lemma_delivered_low<A, F: Transform<A>, G: ChainFn<A>>(
    cells: Seq<TimelineCell<A, F, G>>,
    s: int,
    c: int,
    v: A,
)
    requires
        c < s,
    ensures
        delivered(cells, s, c, v) is None,
    decreases c,
{
    match cells[c].feed {
        Some(sub) => {
            if 0 <= sub.source && (sub.source as int) < c {
                lemma_delivered_low(cells, s, sub.source as int, v);
            }
        },
        None => {},
    }
}

/// All-cells form of [`lemma_delivered_low`].
pub proof fn lemma_delivered_low_all<A, F: Transform<A>, G: ChainFn<A>>(
    cells: Seq<TimelineCell<A, F, G>>,
    s: int,
    v: A,
)
    ensures
        forall|c: int| c < s ==> #[trigger] delivered(cells, s, c, v) is None,
{
    assert forall|c: int| c < s implies #[trigger] delivered(cells, s, c, v) is None by {
        lemma_delivered_low(cells, s, c, v);
    }
}

} // verus!
