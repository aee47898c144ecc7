//! The separator: a line `w . p + b = 0` of the plane, given by its weights
//! `w` and its bias `b`.

use vstd::prelude::*;
use crate::entropy::random_word;
use crate::lattice::{
    clamp_i128, clamp_i64, coordinate_from_draw, coordinate_of, lemma_product_bound, product,
    saturate, saturating_sum, ONE, QUARTER_RATE_SCALE, RATE_SCALE,
};
use crate::point::Point;
use crate::sample::Label;

verus! {

/// `step` in the direction of `label`: as it is for a positive label, negated
/// for a negative one.
fn signed(step: i128, label: Label) -> (d: i128)
    requires
        -0x4000_0000_0000_0000_0000_0000_0000_0000 <= step
            <= 0x4000_0000_0000_0000_0000_0000_0000_0000,
    ensures
        d == label.sign() * step,
{
    match label {
        Label::Positive => step,
        Label::Negative => -step,
    }
}

/// A line of the plane. Its weights and its bias count in units of
/// `1 / (ONE * RATE_SCALE)`.
///
/// The weights may both be zero, at the start or after steps that cancel.
/// Scores are still defined then (each is the bias), but the line is not: a
/// caller that solves for it divides by a weight and has to look first, with
/// `is_degenerate`.
#[derive(Clone, Copy, Debug, PartialEq, Eq, Structural)]
pub struct Separator {
    pub w: Point,
    pub b: i64,
}

impl Separator {
    /// The score of `p`: `w . p + b`, in units of
    /// `1 / (ONE * ONE * RATE_SCALE)`. Its sign is the side of the line on
    /// which `p` lies.
    pub open spec fn score(self, p: Point) -> int {
        p.spec_dot(self.w) + self.b * ONE
    }

    /// The class that the separator gives to `p`. A point on the line
    /// itself is negative.
    pub open spec fn label_of(self, p: Point) -> Label {
        Label::of_score(self.score(p))
    }

    /// The separator after one training step on `p` with `label`:
    /// `w + rate * label * p` and `b + rate * label`, each held at the ends
    /// of the range of `i64`.
    pub open spec fn stepped(self, p: Point, label: Label, rate: int) -> Separator {
        Separator {
            w: Point {
                x: clamp_i64(self.w.x + rate * label.sign() * p.x) as i64,
                y: clamp_i64(self.w.y + rate * label.sign() * p.y) as i64,
            },
            b: clamp_i64(self.b + rate * label.sign() * ONE) as i64,
        }
    }

    /// The separator that three random words stand for: weights between -1
    /// and 1, a bias between -1/4 and 1/4.
    pub open spec fn of_draws(wx: u32, wy: u32, b: u32) -> Separator {
        Separator {
            w: Point {
                x: (coordinate_of(wx) * RATE_SCALE) as i64,
                y: (coordinate_of(wy) * RATE_SCALE) as i64,
            },
            b: (coordinate_of(b) * QUARTER_RATE_SCALE) as i64,
        }
    }

    /// Whether some three words give this separator.
    pub open spec fn is_initial(self) -> bool {
        exists|wx: u32, wy: u32, b: u32| self == #[trigger] Separator::of_draws(wx, wy, b)
    }

    pub fn new(w: Point, b: i64) -> (s: Separator)
        ensures
            s.w == w,
            s.b == b,
    {
        Separator { w, b }
    }

    /// The separator that the three words stand for.
    pub fn from_draws(wx: u32, wy: u32, b: u32) -> (s: Separator)
        ensures
            s == Separator::of_draws(wx, wy, b),
            -ONE * RATE_SCALE <= s.w.x < ONE * RATE_SCALE,
            -ONE * RATE_SCALE <= s.w.y < ONE * RATE_SCALE,
            -ONE * RATE_SCALE <= 4 * s.b < ONE * RATE_SCALE,
    {
        let x: i64 = coordinate_from_draw(wx) * RATE_SCALE;
        let y: i64 = coordinate_from_draw(wy) * RATE_SCALE;
        let bias: i64 = coordinate_from_draw(b) * QUARTER_RATE_SCALE;
        Separator { w: Point { x, y }, b: bias }
    }

    /// A separator drawn at random: three words from the generator, then
    /// `from_draws`.
    pub fn initialize() -> (s: Separator)
        ensures
            s.is_initial(),
            -ONE * RATE_SCALE <= s.w.x < ONE * RATE_SCALE,
            -ONE * RATE_SCALE <= s.w.y < ONE * RATE_SCALE,
            -ONE * RATE_SCALE <= 4 * s.b < ONE * RATE_SCALE,
    {
        let wx: u32 = random_word();
        let wy: u32 = random_word();
        let b: u32 = random_word();
        Separator::from_draws(wx, wy, b)
    }

    /// The score of `p`, held at the ends of the range of `i128`. Its sign
    /// is that of the exact score, and it is the exact score wherever the
    /// coordinates of `p` are within 2^62 of zero.
    pub fn evaluate(&self, p: &Point) -> (v: i128)
        ensures
            v == clamp_i128(self.score(*p)),
            v > 0 <==> self.score(*p) > 0,
            v < 0 <==> self.score(*p) < 0,
            -0x4000_0000_0000_0000 <= p.x <= 0x4000_0000_0000_0000
                && -0x4000_0000_0000_0000 <= p.y <= 0x4000_0000_0000_0000
                ==> v == self.score(*p),
    {
        proof {
            let half: int = 0x4000_0000_0000_0000;
            let m: int = 0x8000_0000_0000_0000;
            assert(half * m == 0x2000_0000_0000_0000_0000_0000_0000_0000int) by (nonlinear_arith)
                requires
                    half == 0x4000_0000_0000_0000int,
                    m == 0x8000_0000_0000_0000int,
            ;
            assert(m * ONE == 0x40_0000_0000_0000_0000_0000int) by (nonlinear_arith)
                requires
                    m == 0x8000_0000_0000_0000int,
                    ONE == 0x80_0000,
            ;
            lemma_product_bound(self.b as int, ONE as int, m, ONE as int);
            if -half <= p.x <= half && -half <= p.y <= half {
                lemma_product_bound(p.x as int, self.w.x as int, half, m);
                lemma_product_bound(p.y as int, self.w.y as int, half, m);
            }
        }
        let offset: i128 = product(self.b, ONE);
        let partial: i128 = product(p.x, self.w.x) + offset;
        saturating_sum(partial, product(p.y, self.w.y))
    }

    /// The class that the separator gives to `p`.
    pub fn classify(&self, p: &Point) -> (label: Label)
        ensures
            label == self.label_of(*p),
    {
        Label::from_score(self.evaluate(p))
    }

    /// One training step towards giving `p` the class `label`. The step is
    /// taken whatever class the separator gives to `p` now.
    pub fn update(&mut self, p: &Point, label: Label, rate: i64)
        ensures
            *final(self) == old(self).stepped(*p, label, rate as int),
    {
        let dx: i128 = signed(product(rate, p.x), label);
        let dy: i128 = signed(product(rate, p.y), label);
        let db: i128 = signed(product(rate, ONE), label);
        proof {
            assert(rate * label.sign() * p.x == label.sign() * (rate * p.x)) by (nonlinear_arith);
            assert(rate * label.sign() * p.y == label.sign() * (rate * p.y)) by (nonlinear_arith);
            assert(rate * label.sign() * ONE == label.sign() * (rate * ONE)) by (nonlinear_arith);
        }
        self.w.x = saturate(self.w.x as i128 + dx);
        self.w.y = saturate(self.w.y as i128 + dy);
        self.b = saturate(self.b as i128 + db);
    }

    /// Whether both weights are zero, so that the separator describes no
    /// line.
    pub fn is_degenerate(&self) -> (d: bool)
        ensures
            d == (self.w.x == 0 && self.w.y == 0),
    {
        self.w.x == 0 && self.w.y == 0
    }
}

} // verus!
