//! Vectors of the plane with integer coordinates.

use vstd::prelude::*;
use crate::lattice::{clamp_i128, lemma_product_bound, product, saturating_sum};

verus! {

/// A vector of the plane. The same type serves as the place of a sample and
/// as the weights of a separator; the unit in which its coordinates count is
/// the caller's to keep.
#[derive(Clone, Copy, Debug, PartialEq, Eq, Structural)]
pub struct Point {
    pub x: i64,
    pub y: i64,
}

impl Point {
    /// The dot product `self.x * other.x + self.y * other.y`.
    pub open spec fn spec_dot(self, other: Point) -> int {
        self.x * other.x + self.y * other.y
    }

    pub fn new(x: i64, y: i64) -> (p: Point)
        ensures
            p.x == x,
            p.y == y,
    {
        Point { x, y }
    }

    /// The dot product, held at the ends of the range of `i128`. It is
    /// exact unless all four coordinates are `i64::MIN`.
    pub fn dot(&self, other: &Point) -> (d: i128)
        ensures
            d == clamp_i128(self.spec_dot(*other)),
            self.x > i64::MIN || self.y > i64::MIN || other.x > i64::MIN || other.y > i64::MIN
                ==> d == self.spec_dot(*other),
    {
        proof {
            let m: int = 0x8000_0000_0000_0000;
            assert(m * m == 0x4000_0000_0000_0000_0000_0000_0000_0000int) by (nonlinear_arith)
                requires
                    m == 0x8000_0000_0000_0000int,
            ;
            assert((m - 1) * m == 0x4000_0000_0000_0000_0000_0000_0000_0000int - m)
                by (nonlinear_arith)
                requires
                    m == 0x8000_0000_0000_0000int,
            ;
            lemma_product_bound(self.x as int, other.x as int, m, m);
            lemma_product_bound(self.y as int, other.y as int, m, m);
            if self.x > i64::MIN {
                lemma_product_bound(self.x as int, other.x as int, m - 1, m);
            }
            if other.x > i64::MIN {
                lemma_product_bound(other.x as int, self.x as int, m - 1, m);
                assert(other.x * self.x == self.x * other.x) by (nonlinear_arith);
            }
            if self.y > i64::MIN {
                lemma_product_bound(self.y as int, other.y as int, m - 1, m);
            }
            if other.y > i64::MIN {
                lemma_product_bound(other.y as int, self.y as int, m - 1, m);
                assert(other.y * self.y == self.y * other.y) by (nonlinear_arith);
            }
        }
        saturating_sum(product(self.x, other.x), product(self.y, other.y))
    }
}

} // verus!
