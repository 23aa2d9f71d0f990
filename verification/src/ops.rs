use vstd::prelude::*;
use crate::timeline::{ChainFn, Transform};

verus! {

/// A small vocabulary of saturating transforms for `i64` timelines, closed
/// under sequential composition. It gives callers outside the crate — which
/// cannot state specifications of their own — transforms to register with
/// `map`, and `Then` expresses the composed transform that the map
/// composition law speaks of.
pub enum IntOp {
    /// The identity: forward the value unchanged.
    Keep,
    /// Add the constant, saturating at the ends of `i64`'s range.
    AddSat(i64),
    /// Negate, saturating at `i64::MAX` (the minimum has no negation).
    Negate,
    /// The first transform, then the second on its result.
    Then(Box<IntOp>, Box<IntOp>),
}

/// The value an [`IntOp`] computes.
pub open spec fn int_op_value(op: IntOp, a: i64) -> i64
    decreases op,
{
    match op {
        IntOp::Keep => a,
        IntOp::AddSat(k) => if a + k > i64::MAX {
            i64::MAX
        } else if a + k < i64::MIN {
            i64::MIN
        } else {
            (a + k) as i64
        },
        IntOp::Negate => if a == i64::MIN {
            i64::MAX
        } else {
            (-a) as i64
        },
        IntOp::Then(f, g) => int_op_value(*g, int_op_value(*f, a)),
    }
}

/// Compute an [`IntOp`]'s value.
pub fn apply_int_op(op: &IntOp, a: i64) -> (r: i64)
    ensures
        r == int_op_value(*op, a),
    decreases *op,
{
    match op {
        IntOp::Keep => a,
        IntOp::AddSat(k) => match a.checked_add(*k) {
            Some(sum) => sum,
            None => if *k >= 0 {
                i64::MAX
            } else {
                i64::MIN
            },
        },
        IntOp::Negate => if a == i64::MIN {
            i64::MAX
        } else {
            -a
        },
        IntOp::Then(f, g) => {
            let mid = apply_int_op(f, a);
            apply_int_op(g, mid)
        },
    }
}

impl Transform<i64> for IntOp {
    open spec fn spec_apply(&self, a: i64) -> i64 {
        int_op_value(*self, a)
    }

    fn apply(&self, a: &i64) -> (r: i64) {
        apply_int_op(self, *a)
    }
}

/// A chain function for `i64` timelines: for each published value it stands
/// for a fresh timeline created with the transformed value, whose current
/// value is the snapshot that is forwarded. The timeline it stands for is
/// independent; updates to it after the snapshot are never forwarded.
pub struct IntChain {
    pub op: IntOp,
}

impl ChainFn<i64> for IntChain {
    open spec fn spec_target(&self, a: i64) -> i64 {
        int_op_value(self.op, a)
    }

    fn target_value(&self, a: &i64) -> (r: i64) {
        apply_int_op(&self.op, *a)
    }
}

} // verus!
