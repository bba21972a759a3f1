//! Doubles as bits.
//!
//! The library computes nothing from a double. Where a sum, a difference or a
//! point of a curve is needed, it names the operation as an [`Op`] and calls
//! the `arith` that its caller hands in. A contract then says what is returned
//! for every function `k` that `arith` computes: see [`computes`]. The one
//! thing that the library reads from the bits itself is the order of two
//! doubles.

use vstd::prelude::*;

verus! {

/// One operation on doubles, each operand given by its 64 bits. The result is
/// a double too, and comes back as its bits.
#[derive(Clone, Copy, Debug, PartialEq, Eq, Structural)]
pub enum Op {
    /// The first number plus the second.
    Sum(u64, u64),
    /// The first number minus the second.
    Difference(u64, u64),
    /// The first integer divided by the second, both taken as doubles.
    Ratio(u32, u32),
    /// The point at parameter `t` of the quadratic curve with these three
    /// weights on one axis.
    Quadratic { t: u64, w1: u64, w2: u64, w3: u64 },
    /// The point at parameter `t` of the cubic curve with these four weights
    /// on one axis.
    Cubic { t: u64, w1: u64, w2: u64, w3: u64, w4: u64 },
}

/// The bits of the double zero.
pub const ZERO: u64 = 0;

/// `arith` may be called on every operation.
pub open spec fn total<A: Fn(Op) -> u64>(arith: A) -> bool {
    forall|op: Op| #[trigger] arith.requires((op,))
}

/// `arith` computes `k`: whatever it hands back for an operation is what `k`
/// gives for it.
pub open spec fn computes<A: Fn(Op) -> u64>(arith: A, k: spec_fn(Op) -> u64) -> bool {
    forall|op: Op, bits: u64| #[trigger] arith.ensures((op,), bits) ==> bits == k(op)
}

/// The bit that tells a negative double.
pub const SIGN: u64 = 0x8000_0000_0000_0000;

/// The bits of the double infinity. What is held in place of a number where
/// an operation has none, as for zero divided by zero, has more than these
/// below its sign.
pub const INFINITY: u64 = 0x7ff0_0000_0000_0000;

/// The double without its sign.
pub open spec fn magnitude(bits: u64) -> u64 {
    bits & !SIGN
}

/// Whether the double is a number, infinite or not.
pub open spec fn is_number(bits: u64) -> bool {
    magnitude(bits) <= INFINITY
}

/// The place of a number among the others: doubles stand in the order of
/// their bits without the sign, the negative ones in reverse before the
/// others, and the two zeros together.
pub open spec fn rank(bits: u64) -> int {
    if bits & SIGN != 0 {
        -(magnitude(bits) as int)
    } else {
        magnitude(bits) as int
    }
}

/// Whether both doubles are numbers, and the first is not greater than the
/// second.
pub open spec fn at_most(a: u64, b: u64) -> bool {
    is_number(a) && is_number(b) && rank(a) <= rank(b)
}

/// Compares two doubles by their bits.
pub fn not_above(a: u64, b: u64) -> (fits: bool)
    ensures
        fits == at_most(a, b),
{
    let size_a = a & !SIGN;
    let size_b = b & !SIGN;
    if size_a > INFINITY || size_b > INFINITY {
        false
    } else if a & SIGN != 0 {
        b & SIGN == 0 || size_b <= size_a
    } else if b & SIGN != 0 {
        size_a == 0 && size_b == 0
    } else {
        size_a <= size_b
    }
}

} // verus!
