use vstd::prelude::*;

use crate::distribution::DistributionError;
use crate::ratio::{q_inv, Ratio};

verus! {

/// The rate `1 / m` of the exponential distribution whose mean is `m`.
pub open spec fn exponential_rate_from_mean(m: (int, int)) -> (int, int) {
    q_inv(m)
}

/// The rate `1 / s` of the exponential distribution whose standard deviation is `s`.
pub open spec fn exponential_rate_from_stdev(s: (int, int)) -> (int, int) {
    q_inv(s)
}

/// The mean `1 / rate` of the exponential distribution with the given rate.
pub open spec fn exponential_mean(rate: (int, int)) -> (int, int) {
    q_inv(rate)
}

/// The standard deviation of the exponential distribution with the given rate: it equals
/// the mean in this family.
pub open spec fn exponential_stdev(rate: (int, int)) -> (int, int) {
    exponential_mean(rate)
}

/// The exponential distribution with a positive rate.
#[derive(Clone, Copy, Debug)]
pub struct ExponentialDistribution {
    rate: Ratio,
}

impl ExponentialDistribution {
    pub closed spec fn rate_view(self) -> (int, int) {
        self.rate@
    }

    /// The rate is a well-formed positive number.
    pub closed spec fn wf(self) -> bool {
        self.rate.wf() && self.rate.num > 0
    }

    /// The distribution with the given rate; fails with `NotPositive` unless it is positive.
    pub fn new(rate: Ratio) -> (r: Result<ExponentialDistribution, DistributionError>)
        requires
            rate.wf(),
        ensures
            r is Ok <==> rate.num > 0,
            r is Err ==> r == Err::<ExponentialDistribution, DistributionError>(
                DistributionError::NotPositive,
            ),
            r matches Ok(d) ==> d.wf() && d.rate_view() == rate@,
    {
        if rate.num > 0 {
            Ok(ExponentialDistribution { rate })
        } else {
            Err(DistributionError::NotPositive)
        }
    }

    /// The distribution whose mean is `mean`, of rate `1 / mean`; fails with `NotPositive`
    /// unless the mean is positive.
    pub fn from_mean(mean: Ratio) -> (r: Result<ExponentialDistribution, DistributionError>)
        requires
            mean.wf(),
        ensures
            r is Ok <==> mean.num > 0,
            r is Err ==> r == Err::<ExponentialDistribution, DistributionError>(
                DistributionError::NotPositive,
            ),
            r matches Ok(d) ==> d.wf() && d.rate_view() == exponential_rate_from_mean(mean@),
    {
        if mean.num > 0 {
            Ok(ExponentialDistribution { rate: Ratio::new(mean.den, mean.num) })
        } else {
            Err(DistributionError::NotPositive)
        }
    }

    /// The distribution whose standard deviation is `stdev`, of rate `1 / stdev`; fails with
    /// `NotPositive` unless it is positive.
    pub fn from_stdev(stdev: Ratio) -> (r: Result<ExponentialDistribution, DistributionError>)
        requires
            stdev.wf(),
        ensures
            r is Ok <==> stdev.num > 0,
            r is Err ==> r == Err::<ExponentialDistribution, DistributionError>(
                DistributionError::NotPositive,
            ),
            r matches Ok(d) ==> d.wf() && d.rate_view() == exponential_rate_from_stdev(stdev@),
    {
        if stdev.num > 0 {
            Ok(ExponentialDistribution { rate: Ratio::new(stdev.den, stdev.num) })
        } else {
            Err(DistributionError::NotPositive)
        }
    }

    /// The rate.
    pub fn rate(&self) -> (r: Ratio)
        ensures
            r@ == self.rate_view(),
    {
        self.rate
    }

    /// The mean, `1 / rate`.
    pub fn mean(&self) -> (r: Ratio)
        requires
            self.wf(),
        ensures
            r.wf(),
            r.num > 0,
            r@ == exponential_mean(self.rate_view()),
    {
        Ratio::new(self.rate.den, self.rate.num)
    }

    /// The standard deviation, which equals the mean.
    pub fn stdev(&self) -> (r: Ratio)
        requires
            self.wf(),
        ensures
            r.wf(),
            r.num > 0,
            r@ == exponential_stdev(self.rate_view()),
    {
        self.mean()
    }
}

/// The mean of the distribution built from a positive mean `m` is `m` again; the standard
/// deviation of the one built from a positive standard deviation `s` is `s` again; and for
/// equal inputs both constructors choose the same rate.
pub proof fn lemma_round_trip(m: (int, int))
    requires
        m.0 > 0,
        m.1 > 0,
    ensures
        exponential_mean(exponential_rate_from_mean(m)) == m,
        exponential_stdev(exponential_rate_from_stdev(m)) == m,
        exponential_rate_from_mean(m) == exponential_rate_from_stdev(m),
{
}

} // verus!
