use vstd::prelude::*;

use crate::distribution::DistributionError;
use crate::graph::Graphable;
use crate::ratio::{
    lemma_cross_products_bounded, lemma_div_monotone, lemma_le_trans, lemma_mul_bounded,
    lemma_sub_monotone, q_add, q_div, q_eq, q_inv, q_le, q_lt, q_mul,
    q_one, q_sub, q_wf, q_zero, Ratio, LIMIT,
};

verus! {

/// Cumulative probability at `x` of the uniform distribution on `[a, b]`: 0 below `a`,
/// `(x - a) / (b - a)` between the bounds, and 1 above `b`.
pub open spec fn uniform_cdf(a: (int, int), b: (int, int), x: (int, int)) -> (int, int) {
    if q_lt(x, a) {
        q_zero()
    } else if q_le(x, b) {
        q_div(q_sub(x, a), q_sub(b, a))
    } else {
        q_one()
    }
}

/// Density at `x` of the uniform distribution on `[a, b]`: `1 / (b - a)` on `[a, b]`, else 0.
pub open spec fn uniform_pdf(a: (int, int), b: (int, int), x: (int, int)) -> (int, int) {
    if q_le(a, x) && q_le(x, b) {
        q_inv(q_sub(b, a))
    } else {
        q_zero()
    }
}

/// Mean (and median) of the uniform distribution on `[a, b]`: `(a + b) / 2`.
pub open spec fn uniform_mean(a: (int, int), b: (int, int)) -> (int, int) {
    q_div(q_add(a, b), (2, 1))
}

/// Variance of the uniform distribution on `[a, b]`: `(b - a)^2 / 12`; its standard
/// deviation is the square root of this, `(b - a) / sqrt(12)`.
pub open spec fn uniform_variance(a: (int, int), b: (int, int)) -> (int, int) {
    q_div(q_mul(q_sub(b, a), q_sub(b, a)), (12, 1))
}

/// The uniform distribution on the interval `[lower, upper]`, `lower < upper`.
#[derive(Clone, Copy, Debug)]
pub struct UniformDistribution {
    lower: Ratio,
    upper: Ratio,
}

proof fn lemma_pos_mul(x: int, y: int)
    requires
        x > 0,
        y > 0,
    ensures
        x * y > 0,
{
    assert(x * y > 0) by (nonlinear_arith)
        requires
            x > 0,
            y > 0,
    ;
}

/// Bounds on the parts of `q_sub(p, q)` for two numbers in range.
proof fn lemma_sub_bounded(p: Ratio, q: Ratio)
    requires
        p.in_range(),
        q.in_range(),
    ensures
        -(LIMIT * LIMIT) <= p.num * q.den <= LIMIT * LIMIT,
        -(LIMIT * LIMIT) <= q.num * p.den <= LIMIT * LIMIT,
        -2 * (LIMIT * LIMIT) <= p.num * q.den - q.num * p.den <= 2 * (LIMIT * LIMIT),
        0 < p.den * q.den <= LIMIT * LIMIT,
        LIMIT * LIMIT == 0x1000_0000_0000_0000,
{
    lemma_cross_products_bounded(p, q);
}

impl UniformDistribution {
    pub closed spec fn lower_view(self) -> (int, int) {
        self.lower@
    }

    pub closed spec fn upper_view(self) -> (int, int) {
        self.upper@
    }

    /// Both bounds are in range and the lower lies strictly below the upper.
    pub closed spec fn wf(self) -> bool {
        &&& self.lower.in_range()
        &&& self.upper.in_range()
        &&& q_lt(self.lower@, self.upper@)
    }

    /// The uniform distribution on `[a, b]`. Fails with `ReversedBounds` where `a > b` and
    /// with `EmptySupport` where `a == b`.
    pub fn new(a: Ratio, b: Ratio) -> (r: Result<UniformDistribution, DistributionError>)
        requires
            a.in_range(),
            b.in_range(),
        ensures
            r is Ok <==> q_lt(a@, b@),
            r == Err::<UniformDistribution, DistributionError>(DistributionError::ReversedBounds)
                <==> q_lt(b@, a@),
            r == Err::<UniformDistribution, DistributionError>(DistributionError::EmptySupport)
                <==> q_eq(a@, b@),
            r matches Ok(d) ==> d.wf() && d.lower_view() == a@ && d.upper_view() == b@,
    {
        if b.lt(&a) {
            Err(DistributionError::ReversedBounds)
        } else if !a.lt(&b) {
            Err(DistributionError::EmptySupport)
        } else {
            Ok(UniformDistribution { lower: a, upper: b })
        }
    }

    /// The lower bound.
    pub fn lower(&self) -> (r: Ratio)
        ensures
            r@ == self.lower_view(),
    {
        self.lower
    }

    /// The upper bound.
    pub fn upper(&self) -> (r: Ratio)
        ensures
            r@ == self.upper_view(),
    {
        self.upper
    }

    /// Probability of a value at or below `x`: 0 below the lower bound, rising linearly to 1
    /// at the upper bound, and 1 above it.
    pub fn cdf(&self, x: &Ratio) -> (r: Ratio)
        requires
            self.wf(),
            x.in_range(),
        ensures
            r.wf(),
            r@ == uniform_cdf(self.lower_view(), self.upper_view(), x@),
    {
        let a = self.lower;
        let b = self.upper;
        if x.lt(&a) {
            Ratio::from_int(0)
        } else if x.le(&b) {
            proof {
                lemma_sub_bounded(*x, a);
                lemma_sub_bounded(b, a);
            }
            let dx = x.num * a.den - a.num * x.den;
            let dx_den = x.den * a.den;
            let width = b.num * a.den - a.num * b.den;
            let width_den = b.den * a.den;
            proof {
                let l = LIMIT * LIMIT;
                lemma_mul_bounded(dx as int, width_den as int, 2 * l, l);
                lemma_mul_bounded(dx_den as int, width as int, l, 2 * l);
                lemma_pos_mul(dx_den as int, width as int);
                assert(2 * l * l < i128::MAX);
            }
            Ratio::new(dx * width_den, dx_den * width)
        } else {
            Ratio::from_int(1)
        }
    }

    /// Density at `x`.
    pub fn pdf(&self, x: &Ratio) -> (r: Ratio)
        requires
            self.wf(),
            x.in_range(),
        ensures
            r.wf(),
            r@ == uniform_pdf(self.lower_view(), self.upper_view(), x@),
    {
        let a = self.lower;
        let b = self.upper;
        if a.le(x) && x.le(&b) {
            proof {
                lemma_sub_bounded(b, a);
            }
            Ratio::new(b.den * a.den, b.num * a.den - a.num * b.den)
        } else {
            Ratio::from_int(0)
        }
    }

    /// The mean, `(a + b) / 2`.
    pub fn mean(&self) -> (r: Ratio)
        requires
            self.wf(),
        ensures
            r.wf(),
            r@ == uniform_mean(self.lower_view(), self.upper_view()),
    {
        let a = self.lower;
        let b = self.upper;
        proof {
            lemma_cross_products_bounded(a, b);
        }
        Ratio::new(a.num * b.den + b.num * a.den, a.den * b.den * 2)
    }

    /// The median, which equals the mean.
    pub fn median(&self) -> (r: Ratio)
        requires
            self.wf(),
        ensures
            r.wf(),
            r@ == uniform_mean(self.lower_view(), self.upper_view()),
    {
        self.mean()
    }

    /// The variance, `(b - a)^2 / 12`: the square of the standard deviation.
    pub fn variance(&self) -> (r: Ratio)
        requires
            self.wf(),
        ensures
            r.wf(),
            r@ == uniform_variance(self.lower_view(), self.upper_view()),
    {
        let a = self.lower;
        let b = self.upper;
        proof {
            lemma_sub_bounded(b, a);
        }
        let width = b.num * a.den - a.num * b.den;
        let width_den = b.den * a.den;
        proof {
            let l = LIMIT * LIMIT;
            lemma_mul_bounded(width as int, width as int, 2 * l, 2 * l);
            lemma_mul_bounded(width_den as int, width_den as int, l, l);
            lemma_pos_mul(width_den as int, width_den as int);
            assert(12 * l * l < i128::MAX);
        }
        Ratio::new(width * width, width_den * width_den * 12)
    }
}

/// Facts about the fractions that the distribution is built from.
proof fn lemma_parts(d: UniformDistribution)
    requires
        d.wf(),
    ensures
        q_wf(d.lower_view()),
        q_wf(d.upper_view()),
        q_sub(d.upper_view(), d.lower_view()).0 > 0,
        q_sub(d.upper_view(), d.lower_view()).1 > 0,
{
    lemma_pos_mul(d.upper.den as int, d.lower.den as int);
}

/// The density of a uniform distribution is a fraction with a positive denominator and is
/// never negative.
pub proof fn lemma_pdf_nonnegative(d: UniformDistribution, x: Ratio)
    requires
        d.wf(),
        x.wf(),
    ensures
        q_wf(uniform_pdf(d.lower_view(), d.upper_view(), x@)),
        q_le(q_zero(), uniform_pdf(d.lower_view(), d.upper_view(), x@)),
{
    lemma_parts(d);
}

/// The cumulative probability of a uniform distribution is a fraction with a positive
/// denominator and lies between 0 and 1.
pub proof fn lemma_cdf_bounds(d: UniformDistribution, x: Ratio)
    requires
        d.wf(),
        x.wf(),
    ensures
        q_wf(uniform_cdf(d.lower_view(), d.upper_view(), x@)),
        q_le(q_zero(), uniform_cdf(d.lower_view(), d.upper_view(), x@)),
        q_le(uniform_cdf(d.lower_view(), d.upper_view(), x@), q_one()),
{
    let a = d.lower_view();
    let b = d.upper_view();
    lemma_parts(d);
    if !q_lt(x@, a) && q_le(x@, b) {
        let s = q_sub(x@, a);
        let c = q_sub(b, a);
        lemma_pos_mul(x@.1, a.1);
        lemma_pos_mul(s.1, c.0);
        assert(s.0 >= 0);
        assert(s.0 * c.1 >= 0) by (nonlinear_arith)
            requires
                s.0 >= 0,
                c.1 > 0,
        ;
        lemma_sub_monotone(x@, b, a);
    }
}

/// The cumulative probability of a uniform distribution never decreases: for `x <= y`,
/// `cdf(x) <= cdf(y)`.
pub proof fn lemma_cdf_monotone(d: UniformDistribution, x: Ratio, y: Ratio)
    requires
        d.wf(),
        x.wf(),
        y.wf(),
        q_le(x@, y@),
    ensures
        q_le(
            uniform_cdf(d.lower_view(), d.upper_view(), x@),
            uniform_cdf(d.lower_view(), d.upper_view(), y@),
        ),
{
    let a = d.lower_view();
    let b = d.upper_view();
    lemma_parts(d);
    lemma_cdf_bounds(d, x);
    lemma_cdf_bounds(d, y);
    if q_lt(x@, a) {
    } else if q_le(x@, b) {
        lemma_le_trans(a, x@, y@);
        if q_le(y@, b) {
            lemma_sub_monotone(x@, y@, a);
            lemma_div_monotone(q_sub(x@, a), q_sub(y@, a), q_sub(b, a));
        }
    } else {
        lemma_le_trans(a, b, x@);
        lemma_le_trans(a, x@, y@);
        if q_le(y@, b) {
            lemma_le_trans(x@, y@, b);
        }
    }
}

impl Graphable for UniformDistribution {
    open spec fn graph_ready(&self) -> bool {
        self.wf()
    }

    /// Defined everywhere: the density.
    open spec fn graph(&self, x: (int, int)) -> Option<(int, int)> {
        Some(uniform_pdf(self.lower_view(), self.upper_view(), x))
    }

    fn f(&self, x: &Ratio) -> (r: Option<Ratio>) {
        Some(self.pdf(x))
    }
}

} // verus!
