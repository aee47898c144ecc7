//! The units in which quantities are counted, and arithmetic that is held at
//! the ends of the machine range.

use vstd::prelude::*;

verus! {

/// The count that stands for the coordinate 1.
pub const ONE: i64 = 8_388_608;

/// The count that stands for the rate 1.
pub const RATE_SCALE: i64 = 100_000_000;

/// A quarter of `RATE_SCALE`.
pub const QUARTER_RATE_SCALE: i64 = 25_000_000;

/// The coordinate that a random word stands for: its upper 24 bits, moved to
/// lie evenly about zero. It is a count of `1 / ONE`, at least `-ONE` and
/// below `ONE`.
pub open spec fn coordinate_of(word: u32) -> int {
    word / 256 - ONE
}

/// The coordinate that `word` stands for.
pub fn coordinate_from_draw(word: u32) -> (c: i64)
    ensures
        c == coordinate_of(word),
        -ONE <= c < ONE,
{
    let upper: u32 = word / 256;
    upper as i64 - ONE
}

/// `v`, held at the ends of the range of `i64`.
pub open spec fn clamp_i64(v: int) -> int {
    if v < i64::MIN {
        i64::MIN as int
    } else if v > i64::MAX {
        i64::MAX as int
    } else {
        v
    }
}

/// `v`, held at the ends of the range of `i128`.
pub open spec fn clamp_i128(v: int) -> int {
    if v < i128::MIN {
        i128::MIN as int
    } else if v > i128::MAX {
        i128::MAX as int
    } else {
        v
    }
}

/// A product is bounded by the product of the bounds of its factors.
pub proof fn lemma_product_bound(a: int, b: int, bound_a: int, bound_b: int)
    requires
        -bound_a <= a <= bound_a,
        -bound_b <= b <= bound_b,
    ensures
        -(bound_a * bound_b) <= a * b <= bound_a * bound_b,
{
    assert(-(bound_a * bound_b) <= a * b <= bound_a * bound_b) by (nonlinear_arith)
        requires
            (bound_a - a) * (bound_b - b) >= 0,
            (bound_a + a) * (bound_b + b) >= 0,
            (bound_a - a) * (bound_b + b) >= 0,
            (bound_a + a) * (bound_b - b) >= 0,
    {
    }
}

/// A product of two `i64` values lies well inside the range of `i128`.
pub proof fn lemma_product_range(a: int, b: int)
    requires
        i64::MIN <= a <= i64::MAX,
        i64::MIN <= b <= i64::MAX,
    ensures
        -0x4000_0000_0000_0000_0000_0000_0000_0000 <= a * b
            <= 0x4000_0000_0000_0000_0000_0000_0000_0000,
{
    lemma_product_bound(a, b, 0x8000_0000_0000_0000, 0x8000_0000_0000_0000);
    assert(0x8000_0000_0000_0000int * 0x8000_0000_0000_0000int
        == 0x4000_0000_0000_0000_0000_0000_0000_0000int) by (nonlinear_arith);
}

/// The product of `a` and `b`, which always fits.
pub fn product(a: i64, b: i64) -> (p: i128)
    ensures
        p == a * b,
        -0x4000_0000_0000_0000_0000_0000_0000_0000 <= p
            <= 0x4000_0000_0000_0000_0000_0000_0000_0000,
{
    proof {
        lemma_product_range(a as int, b as int);
    }
    (a as i128) * (b as i128)
}

/// The sum of `a` and `b`, held at the ends of the range of `i128`.
pub fn saturating_sum(a: i128, b: i128) -> (s: i128)
    ensures
        s == clamp_i128(a + b),
{
    match a.checked_add(b) {
        Some(s) => s,
        None => if a < 0 {
            i128::MIN
        } else {
            i128::MAX
        },
    }
}

/// `v`, held at the ends of the range of `i64`.
pub fn saturate(v: i128) -> (r: i64)
    ensures
        r == clamp_i64(v as int),
{
    if v < i64::MIN as i128 {
        i64::MIN
    } else if v > i64::MAX as i128 {
        i64::MAX
    } else {
        v as i64
    }
}

} // verus!
