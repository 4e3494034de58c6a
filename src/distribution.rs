use vstd::prelude::*;

pub mod exponential;
pub mod normal;
pub mod uniform;

verus! {

/// Why a distribution could not be built from the parameters given.
#[derive(Clone, Copy, Debug, PartialEq, Eq, Structural)]
pub enum DistributionError {
    /// A parameter that must be positive (a rate, a mean or standard deviation of the
    /// exponential family, a standard deviation of the normal family) was zero or negative.
    NotPositive,
    /// The lower bound of a uniform distribution lies above its upper bound.
    ReversedBounds,
    /// The two bounds of a uniform distribution coincide, so its density would be infinite.
    EmptySupport,
}

} // verus!
