//! Integration layer between the FF01 machine and the BEAS production
//! server: the proxy's request protocol, the worker's decisions, the lookup
//! of the next entry, and the rules of the records sent to the server.
use vstd::prelude::*;

pub mod float;
pub mod ff01;
pub mod service;
pub mod text;

pub use ff01::{Date, Time};
pub use float::{Float32, Float64};

verus! {

/// The range in which a measured value is accepted, and the value aimed at.
#[derive(Debug, Clone, Copy, PartialEq, Eq)]
pub struct TargetRange {
    pub min: Float64,
    pub max: Float64,
    pub desired: Float64,
}

impl TargetRange {
    /// `value >= min && value <= max`, as `f64` compares.
    pub open spec fn spec_in_bounds(self, value: Float64) -> bool {
        self.min.spec_le(value) && value.spec_le(self.max)
    }

    /// Whether `value` lies in the range, ends included, as `f64` compares: a
    /// NaN is never in bounds.
    pub fn in_bounds(&self, value: Float64) -> (r: bool)
        ensures
            r == self.spec_in_bounds(value),
    {
        self.min.le(&value) && value.le(&self.max)
    }
}

/// A value in bounds is a number; the ends of a range that is not empty are
/// in it; and a value in bounds lies between the ends.
pub proof fn lemma_in_bounds(range: TargetRange, value: Float64)
    ensures
        range.spec_in_bounds(value) ==> !value.spec_is_nan(),
        range.min.spec_le(range.max) ==> range.spec_in_bounds(range.min) && range.spec_in_bounds(range.max),
        range.spec_in_bounds(value) ==> range.min.spec_le(range.max),
{
}

} // verus!
