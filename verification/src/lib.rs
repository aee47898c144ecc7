//! Online training of a linear separator of the plane, in exact integer
//! arithmetic.
//!
//! Every quantity is an integer count of a fixed unit, so the sign of an
//! evaluation, on which each decision rests, is never a matter of rounding:
//!
//! * a coordinate is a count of `1 / ONE`;
//! * a rate is a count of `1 / RATE_SCALE`;
//! * a weight or a bias is a count of `1 / (ONE * RATE_SCALE)`.
//!
//! With these units a training step `w += rate * label * p` is a product and
//! a sum of integers. A result that leaves the machine range is held at the
//! end of that range.

pub mod lattice;
pub mod point;
pub mod sample;
pub mod separator;
mod entropy;
pub mod trainer;
pub mod dataset;
pub mod model;
