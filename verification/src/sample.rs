//! Labelled points.

use vstd::prelude::*;
use crate::point::Point;

verus! {

/// The class of a point: one of the two sides of a separator.
#[derive(Clone, Copy, Debug, PartialEq, Eq, Structural)]
pub enum Label {
    Positive,
    Negative,
}

impl Label {
    /// The label as a number: `+1` or `-1`.
    pub open spec fn sign(self) -> int {
        match self {
            Label::Positive => 1,
            Label::Negative => -1,
        }
    }

    /// The label that a score stands for: positive where the score is above
    /// zero, negative where it is zero or below.
    pub open spec fn of_score(score: int) -> Label {
        if score > 0 {
            Label::Positive
        } else {
            Label::Negative
        }
    }

    /// The label as a number: `+1` or `-1`.
    pub fn value(self) -> (v: i8)
        ensures
            v == self.sign(),
    {
        match self {
            Label::Positive => 1,
            Label::Negative => -1,
        }
    }

    /// The label with the number `v`, if `v` is `+1` or `-1`.
    pub fn from_value(v: i8) -> (label: Option<Label>)
        ensures
            v == 1 ==> label == Some(Label::Positive),
            v == -1 ==> label == Some(Label::Negative),
            v != 1 && v != -1 ==> label.is_none(),
    {
        if v == 1 {
            Some(Label::Positive)
        } else if v == -1 {
            Some(Label::Negative)
        } else {
            None
        }
    }

    /// The label that `score` stands for. A score of exactly zero is
    /// negative.
    pub fn from_score(score: i128) -> (label: Label)
        ensures
            label == Label::of_score(score as int),
    {
        if score > 0 {
            Label::Positive
        } else {
            Label::Negative
        }
    }
}

/// A point with its class. A sample is made once and never changed.
#[derive(Clone, Copy, Debug, PartialEq, Eq, Structural)]
pub struct Sample {
    pub point: Point,
    pub label: Label,
}

impl Sample {
    pub fn new(point: Point, label: Label) -> (s: Sample)
        ensures
            s.point == point,
            s.label == label,
    {
        Sample { point, label }
    }
}

} // verus!
