use vstd::prelude::*;

use crate::distribution::DistributionError;
use crate::ratio::Ratio;

verus! {

/// The normal distribution with a mean and a positive standard deviation.
#[derive(Clone, Copy, Debug)]
pub struct NormalDistribution {
    mean: Ratio,
    stdev: Ratio,
}

impl NormalDistribution {
    pub closed spec fn mean_view(self) -> (int, int) {
        self.mean@
    }

    pub closed spec fn stdev_view(self) -> (int, int) {
        self.stdev@
    }

    /// Both parameters are well formed and the standard deviation is positive.
    pub closed spec fn wf(self) -> bool {
        self.mean.wf() && self.stdev.wf() && self.stdev.num > 0
    }

    /// The distribution with mean `mean` and standard deviation `stdev`; fails with
    /// `NotPositive` unless the standard deviation is positive.
    pub fn new(mean: Ratio, stdev: Ratio) -> (r: Result<NormalDistribution, DistributionError>)
        requires
            mean.wf(),
            stdev.wf(),
        ensures
            r is Ok <==> stdev.num > 0,
            r is Err ==> r == Err::<NormalDistribution, DistributionError>(
                DistributionError::NotPositive,
            ),
            r matches Ok(d) ==> d.wf() && d.mean_view() == mean@ && d.stdev_view() == stdev@,
    {
        if stdev.num > 0 {
            Ok(NormalDistribution { mean, stdev })
        } else {
            Err(DistributionError::NotPositive)
        }
    }

    /// The mean.
    pub fn mean(&self) -> (r: Ratio)
        requires
            self.wf(),
        ensures
            r.wf(),
            r@ == self.mean_view(),
    {
        self.mean
    }

    /// The median, which equals the mean by the symmetry of the family.
    pub fn median(&self) -> (r: Ratio)
        requires
            self.wf(),
        ensures
            r.wf(),
            r@ == self.mean_view(),
    {
        self.mean
    }

    /// The standard deviation.
    pub fn stdev(&self) -> (r: Ratio)
        requires
            self.wf(),
        ensures
            r.wf(),
            r.num > 0,
            r@ == self.stdev_view(),
    {
        self.stdev
    }
}

} // verus!
