//! Curves as runs of points.

use crate::arith::computes;
use crate::arith::total;
use crate::arith::Op;
use crate::geometry::Coordinate;
use vstd::prelude::*;

verus! {

/// How many points stand for one curve when path data is read: the samples
/// inside the curve and its end point.
pub const SAMPLES: u32 = 100;

/// The number of samples taken inside a curve that is cut in `n` parts.
pub open spec fn inner_count(n: u32) -> nat {
    if n == 0 {
        0
    } else {
        (n - 1) as nat
    }
}

/// The point of a quadratic curve at `i` parts of `n`.
pub open spec fn quadratic_at(
    k: spec_fn(Op) -> u64,
    i: u32,
    n: u32,
    start: Coordinate,
    control: Coordinate,
    end: Coordinate,
) -> Coordinate {
    let t = k(Op::Ratio(i, n));
    Coordinate {
        x: k(Op::Quadratic { t, w1: start.x, w2: control.x, w3: end.x }),
        y: k(Op::Quadratic { t, w1: start.y, w2: control.y, w3: end.y }),
    }
}

/// The point of a cubic curve at `i` parts of `n`.
pub open spec fn cubic_at(
    k: spec_fn(Op) -> u64,
    i: u32,
    n: u32,
    start: Coordinate,
    control_1: Coordinate,
    control_2: Coordinate,
    end: Coordinate,
) -> Coordinate {
    let t = k(Op::Ratio(i, n));
    Coordinate {
        x: k(Op::Cubic { t, w1: start.x, w2: control_1.x, w3: control_2.x, w4: end.x }),
        y: k(Op::Cubic { t, w1: start.y, w2: control_1.y, w3: control_2.y, w4: end.y }),
    }
}

/// The points of a quadratic curve at 1, 2, ... `n - 1` parts of `n`, in this
/// order. Neither end of the curve is among them.
pub open spec fn quadratic_samples(
    k: spec_fn(Op) -> u64,
    n: u32,
    start: Coordinate,
    control: Coordinate,
    end: Coordinate,
) -> Seq<Coordinate> {
    Seq::new(inner_count(n), |i: int| quadratic_at(k, (i + 1) as u32, n, start, control, end))
}

/// The points of a cubic curve at 1, 2, ... `n - 1` parts of `n`, in this
/// order. Neither end of the curve is among them.
pub open spec fn cubic_samples(
    k: spec_fn(Op) -> u64,
    n: u32,
    start: Coordinate,
    control_1: Coordinate,
    control_2: Coordinate,
    end: Coordinate,
) -> Seq<Coordinate> {
    Seq::new(
        inner_count(n),
        |i: int| cubic_at(k, (i + 1) as u32, n, start, control_1, control_2, end),
    )
}

/// Samples a quadratic curve inside, at equal steps of its parameter. The
/// number of points does not depend on what `arith` answers.
pub fn flatten_quadratic<A: Fn(Op) -> u64>(
    start: Coordinate,
    control: Coordinate,
    end: Coordinate,
    n: u32,
    arith: &A,
) -> (points: Vec<Coordinate>)
    requires
        total(*arith),
    ensures
        points@.len() == inner_count(n),
        forall|k: spec_fn(Op) -> u64| #[trigger]
            computes(*arith, k) ==> points@ == quadratic_samples(k, n, start, control, end),
{
    let mut points: Vec<Coordinate> = Vec::new();
    let mut i: u32 = 1;
    while i < n
        invariant
            total(*arith),
            1 <= i,
            i <= n || (n == 0 && i == 1),
            points@.len() == i - 1,
            forall|k: spec_fn(Op) -> u64, j: int|
                #![trigger computes(*arith, k), points@[j]]
                computes(*arith, k) && 0 <= j < i - 1 ==> points@[j] == quadratic_at(
                    k,
                    (j + 1) as u32,
                    n,
                    start,
                    control,
                    end,
                ),
        decreases n - i,
    {
        let t = arith(Op::Ratio(i, n));
        let x = arith(Op::Quadratic { t, w1: start.x, w2: control.x, w3: end.x });
        let y = arith(Op::Quadratic { t, w1: start.y, w2: control.y, w3: end.y });
        points.push(Coordinate { x, y });
        i += 1;
    }
    proof {
        assert forall|k: spec_fn(Op) -> u64| #[trigger] computes(*arith, k) implies points@
            == quadratic_samples(k, n, start, control, end) by {
            assert(points@ =~= quadratic_samples(k, n, start, control, end));
        }
    }
    points
}

/// Samples a cubic curve inside, at equal steps of its parameter. The number
/// of points does not depend on what `arith` answers.
pub fn flatten_cubic<A: Fn(Op) -> u64>(
    start: Coordinate,
    control_1: Coordinate,
    control_2: Coordinate,
    end: Coordinate,
    n: u32,
    arith: &A,
) -> (points: Vec<Coordinate>)
    requires
        total(*arith),
    ensures
        points@.len() == inner_count(n),
        forall|k: spec_fn(Op) -> u64| #[trigger]
            computes(*arith, k) ==> points@ == cubic_samples(
                k,
                n,
                start,
                control_1,
                control_2,
                end,
            ),
{
    let mut points: Vec<Coordinate> = Vec::new();
    let mut i: u32 = 1;
    while i < n
        invariant
            total(*arith),
            1 <= i,
            i <= n || (n == 0 && i == 1),
            points@.len() == i - 1,
            forall|k: spec_fn(Op) -> u64, j: int|
                #![trigger computes(*arith, k), points@[j]]
                computes(*arith, k) && 0 <= j < i - 1 ==> points@[j] == cubic_at(
                    k,
                    (j + 1) as u32,
                    n,
                    start,
                    control_1,
                    control_2,
                    end,
                ),
        decreases n - i,
    {
        let t = arith(Op::Ratio(i, n));
        let x = arith(Op::Cubic { t, w1: start.x, w2: control_1.x, w3: control_2.x, w4: end.x });
        let y = arith(Op::Cubic { t, w1: start.y, w2: control_1.y, w3: control_2.y, w4: end.y });
        points.push(Coordinate { x, y });
        i += 1;
    }
    proof {
        assert forall|k: spec_fn(Op) -> u64| #[trigger] computes(*arith, k) implies points@
            == cubic_samples(k, n, start, control_1, control_2, end) by {
            assert(points@ =~= cubic_samples(k, n, start, control_1, control_2, end));
        }
    }
    points
}

} // verus!
