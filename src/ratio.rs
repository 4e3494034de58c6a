use vstd::prelude::*;

verus! {

/// Largest magnitude of a numerator, and largest denominator, of a parameter or a point that
/// the distributions accept: products of a few such parts stay well inside `i128`.
pub const LIMIT: i128 = 1073741824;

/// `p <= q` for fractions with positive denominators.
pub open spec fn q_le(p: (int, int), q: (int, int)) -> bool {
    p.0 * q.1 <= q.0 * p.1
}

/// `p < q` for fractions with positive denominators.
pub open spec fn q_lt(p: (int, int), q: (int, int)) -> bool {
    p.0 * q.1 < q.0 * p.1
}

/// `p` and `q` denote the same number.
pub open spec fn q_eq(p: (int, int), q: (int, int)) -> bool {
    p.0 * q.1 == q.0 * p.1
}

pub open spec fn q_add(p: (int, int), q: (int, int)) -> (int, int) {
    (p.0 * q.1 + q.0 * p.1, p.1 * q.1)
}

pub open spec fn q_sub(p: (int, int), q: (int, int)) -> (int, int) {
    (p.0 * q.1 - q.0 * p.1, p.1 * q.1)
}

pub open spec fn q_mul(p: (int, int), q: (int, int)) -> (int, int) {
    (p.0 * q.0, p.1 * q.1)
}

/// The reciprocal of a positive fraction, again with a positive denominator.
pub open spec fn q_inv(p: (int, int)) -> (int, int) {
    (p.1, p.0)
}

/// `p / q` for a positive `q`.
pub open spec fn q_div(p: (int, int), q: (int, int)) -> (int, int) {
    q_mul(p, q_inv(q))
}

pub open spec fn q_zero() -> (int, int) {
    (0, 1)
}

pub open spec fn q_one() -> (int, int) {
    (1, 1)
}

/// A fraction whose denominator is positive.
pub open spec fn q_wf(p: (int, int)) -> bool {
    p.1 > 0
}

/// An exact rational number `num / den`. Fractions are not kept in lowest terms: compare
/// values with `same_value`, `le` and `lt`, not by their parts.
#[derive(Clone, Copy, Debug)]
pub struct Ratio {
    pub num: i128,
    pub den: i128,
}

impl Ratio {
    /// The value as a pair of mathematical integers (numerator, denominator).
    pub open spec fn view(self) -> (int, int) {
        (self.num as int, self.den as int)
    }

    pub open spec fn wf(self) -> bool {
        self.den > 0
    }

    /// Well formed, with both parts of magnitude at most `LIMIT`.
    pub open spec fn in_range(self) -> bool {
        &&& self.wf()
        &&& -LIMIT <= self.num <= LIMIT
        &&& self.den <= LIMIT
    }

    pub fn new(num: i128, den: i128) -> (r: Ratio)
        requires
            den > 0,
        ensures
            r@ == (num as int, den as int),
            r.wf(),
    {
        Ratio { num, den }
    }

    /// The integer `n`, as the fraction `n / 1`.
    pub fn from_int(n: i128) -> (r: Ratio)
        ensures
            r@ == (n as int, 1int),
            r.wf(),
    {
        Ratio { num: n, den: 1 }
    }

    /// Whether `self` and `other` denote the same number.
    pub fn same_value(&self, other: &Ratio) -> (r: bool)
        requires
            self.wf(),
            other.wf(),
            i128::MIN <= self.num * other.den <= i128::MAX,
            i128::MIN <= other.num * self.den <= i128::MAX,
        ensures
            r == q_eq(self@, other@),
    {
        self.num * other.den == other.num * self.den
    }

    /// `self <= other`, for two numbers in range.
    pub fn le(&self, other: &Ratio) -> (r: bool)
        requires
            self.in_range(),
            other.in_range(),
        ensures
            r == q_le(self@, other@),
    {
        proof {
            lemma_cross_products_bounded(*self, *other);
        }
        self.num * other.den <= other.num * self.den
    }

    /// `self < other`, for two numbers in range.
    pub fn lt(&self, other: &Ratio) -> (r: bool)
        requires
            self.in_range(),
            other.in_range(),
        ensures
            r == q_lt(self@, other@),
    {
        proof {
            lemma_cross_products_bounded(*self, *other);
        }
        self.num * other.den < other.num * self.den
    }
}

/// Bounds on a product from bounds on its factors.
pub proof fn lemma_mul_bounded(x: int, y: int, bx: int, by_: int)
    requires
        0 <= bx,
        0 <= by_,
        -bx <= x <= bx,
        -by_ <= y <= by_,
    ensures
        -(bx * by_) <= x * y <= bx * by_,
{
    assert(-(bx * by_) <= x * y <= bx * by_) by (nonlinear_arith)
        requires
            0 <= bx,
            0 <= by_,
            -bx <= x <= bx,
            -by_ <= y <= by_,
    ;
}

/// The cross products of two numbers in range fit in `LIMIT * LIMIT`.
pub proof fn lemma_cross_products_bounded(p: Ratio, q: Ratio)
    requires
        p.in_range(),
        q.in_range(),
    ensures
        -(LIMIT * LIMIT) <= p.num * q.den <= LIMIT * LIMIT,
        -(LIMIT * LIMIT) <= q.num * p.den <= LIMIT * LIMIT,
        0 < p.den * q.den <= LIMIT * LIMIT,
        LIMIT * LIMIT == 0x1000_0000_0000_0000,
{
    lemma_mul_bounded(p.num as int, q.den as int, LIMIT as int, LIMIT as int);
    lemma_mul_bounded(q.num as int, p.den as int, LIMIT as int, LIMIT as int);
    lemma_mul_bounded(p.den as int, q.den as int, LIMIT as int, LIMIT as int);
    assert(0 < p.den * q.den) by (nonlinear_arith)
        requires
            p.den > 0,
            q.den > 0,
    ;
}

/// `<=` on fractions with positive denominators is transitive.
pub proof fn lemma_le_trans(p: (int, int), q: (int, int), r: (int, int))
    requires
        q_wf(p),
        q_wf(q),
        q_wf(r),
        q_le(p, q),
        q_le(q, r),
    ensures
        q_le(p, r),
{
    assert(p.0 * r.1 <= r.0 * p.1) by (nonlinear_arith)
        requires
            p.1 > 0,
            q.1 > 0,
            r.1 > 0,
            p.0 * q.1 <= q.0 * p.1,
            q.0 * r.1 <= r.0 * q.1,
    ;
}

/// Subtracting the same fraction keeps `<=`.
pub proof fn lemma_sub_monotone(x: (int, int), y: (int, int), a: (int, int))
    requires
        q_wf(x),
        q_wf(y),
        q_wf(a),
        q_le(x, y),
    ensures
        q_le(q_sub(x, a), q_sub(y, a)),
{
    lemma_sub_monotone_parts(x.0, x.1, y.0, y.1, a.0, a.1);
}

proof fn lemma_sub_monotone_parts(x0: int, x1: int, y0: int, y1: int, a0: int, a1: int)
    requires
        x0 * y1 <= y0 * x1,
    ensures
        (x0 * a1 - a0 * x1) * (y1 * a1) <= (y0 * a1 - a0 * y1) * (x1 * a1),
{
    let k = a1 * a1;
    let m = a0 * x1 * y1 * a1;
    assert(k >= 0) by (nonlinear_arith)
        requires
            k == a1 * a1,
    ;
    assert(k * (x0 * y1) <= k * (y0 * x1)) by (nonlinear_arith)
        requires
            k >= 0,
            x0 * y1 <= y0 * x1,
    ;
    assert((x0 * a1 - a0 * x1) * (y1 * a1) == k * (x0 * y1) - m) by (nonlinear_arith)
        requires
            k == a1 * a1,
            m == a0 * x1 * y1 * a1,
    ;
    let m2 = (a0 * y1) * (x1 * a1);
    assert(m2 == m) by (nonlinear_arith)
        requires
            m == a0 * x1 * y1 * a1,
            m2 == (a0 * y1) * (x1 * a1),
    ;
    assert((y0 * a1 - a0 * y1) * (x1 * a1) == k * (y0 * x1) - m2) by (nonlinear_arith)
        requires
            k == a1 * a1,
            m2 == (a0 * y1) * (x1 * a1),
    ;
}

/// Dividing by the same positive fraction keeps `<=`.
pub proof fn lemma_div_monotone(p: (int, int), q: (int, int), c: (int, int))
    requires
        q_le(p, q),
        c.0 > 0,
        c.1 > 0,
    ensures
        q_le(q_div(p, c), q_div(q, c)),
{
    lemma_div_monotone_parts(p.0, p.1, q.0, q.1, c.0, c.1);
}

proof fn lemma_div_monotone_parts(p0: int, p1: int, q0: int, q1: int, c0: int, c1: int)
    requires
        p0 * q1 <= q0 * p1,
        c0 > 0,
        c1 > 0,
    ensures
        (p0 * c1) * (q1 * c0) <= (q0 * c1) * (p1 * c0),
{
    let k = c0 * c1;
    assert(k > 0) by (nonlinear_arith)
        requires
            k == c0 * c1,
            c0 > 0,
            c1 > 0,
    ;
    assert(k * (p0 * q1) <= k * (q0 * p1)) by (nonlinear_arith)
        requires
            k > 0,
            p0 * q1 <= q0 * p1,
    ;
    assert((p0 * c1) * (q1 * c0) == k * (p0 * q1)) by (nonlinear_arith)
        requires
            k == c0 * c1,
    ;
    assert((q0 * c1) * (p1 * c0) == k * (q0 * p1)) by (nonlinear_arith)
        requires
            k == c0 * c1,
    ;
}

} // verus!
