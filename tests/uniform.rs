use distributions::distribution::uniform::UniformDistribution;
use distributions::distribution::DistributionError;
use distributions::graph::Graphable;
use distributions::ratio::Ratio;

fn whole(n: i128) -> Ratio {
    Ratio::from_int(n)
}

fn frac(num: i128, den: i128) -> Ratio {
    Ratio::new(num, den)
}

fn as_f64(r: Ratio) -> f64 {
    r.num as f64 / r.den as f64
}

fn assert_close(a: f64, b: f64, prox: f64) {
    assert!((b - a).abs() < prox, "{} !~ {} with a approximation of {}", a, b, prox);
}

#[test]
fn test_uniform_dist() {
    let uni_dist = UniformDistribution::new(whole(0), whole(10)).unwrap();
    assert!(uni_dist.mean().same_value(&whole(5)));
    assert!(uni_dist.median().same_value(&whole(5)));
    assert_close(as_f64(uni_dist.variance()).sqrt(), 2.886_751_346f64, 1e-9);
    assert!(uni_dist.pdf(&whole(5)).same_value(&frac(1, 10)));
}

#[test]
fn test_uniform_dist_with_negative() {
    let uni_dist = UniformDistribution::new(whole(-5), whole(-1)).unwrap();
    assert!(uni_dist.mean().same_value(&whole(-3)));
    assert!(uni_dist.median().same_value(&whole(-3)));
    assert_close(as_f64(uni_dist.variance()).sqrt(), 1.154_700_538f64, 1e-9);
    assert!(uni_dist.pdf(&whole(-3)).same_value(&frac(1, 4)));
}

#[test]
fn test_uniform_dist_with_neg_and_pos() {
    let uni_dist = UniformDistribution::new(whole(-5), whole(5)).unwrap();
    assert!(uni_dist.mean().same_value(&whole(0)));
    assert!(uni_dist.median().same_value(&whole(0)));
    assert_close(as_f64(uni_dist.variance()).sqrt(), 2.886_751_346f64, 1e-9);
    assert!(uni_dist.pdf(&whole(0)).same_value(&frac(1, 10)));
}

#[test]
fn uniform_variance_is_exact() {
    let d = UniformDistribution::new(whole(0), whole(10)).unwrap();
    assert!(d.variance().same_value(&frac(100, 12)));
    let d = UniformDistribution::new(frac(1, 2), frac(3, 2)).unwrap();
    assert!(d.variance().same_value(&frac(1, 12)));
}

#[test]
fn uniform_cdf_pieces() {
    let d = UniformDistribution::new(whole(2), whole(6)).unwrap();
    assert!(d.cdf(&whole(-100)).same_value(&whole(0)));
    assert!(d.cdf(&whole(2)).same_value(&whole(0)));
    assert!(d.cdf(&whole(3)).same_value(&frac(1, 4)));
    assert!(d.cdf(&frac(9, 2)).same_value(&frac(5, 8)));
    assert!(d.cdf(&whole(6)).same_value(&whole(1)));
    assert!(d.cdf(&whole(7)).same_value(&whole(1)));
    assert!(d.cdf(&whole(1000)).same_value(&whole(1)));
}

#[test]
fn uniform_cdf_non_decreasing_on_a_sample() {
    let d = UniformDistribution::new(whole(-5), whole(-1)).unwrap();
    let mut prev = d.cdf(&whole(-20));
    let mut k: i128 = -40;
    while k <= 10 {
        let cur = d.cdf(&frac(k, 2));
        assert!(as_f64(prev) <= as_f64(cur));
        assert!(as_f64(cur) >= 0.0 && as_f64(cur) <= 1.0);
        prev = cur;
        k += 1;
    }
}

#[test]
fn uniform_pdf_outside_support_is_zero() {
    let d = UniformDistribution::new(whole(0), whole(10)).unwrap();
    assert!(d.pdf(&whole(-1)).same_value(&whole(0)));
    assert!(d.pdf(&whole(11)).same_value(&whole(0)));
    assert!(d.pdf(&whole(0)).same_value(&frac(1, 10)));
    assert!(d.pdf(&whole(10)).same_value(&frac(1, 10)));
    let mut k: i128 = -30;
    while k <= 30 {
        assert!(d.pdf(&whole(k)).num >= 0);
        k += 1;
    }
}

#[test]
fn uniform_graph_is_density() {
    let d = UniformDistribution::new(whole(-5), whole(5)).unwrap();
    assert!(d.f(&whole(0)).unwrap().same_value(&frac(1, 10)));
    assert!(d.f(&whole(6)).unwrap().same_value(&whole(0)));
    assert!(d.f(&whole(-6)).unwrap().same_value(&whole(0)));
}

#[test]
fn uniform_rejects_bad_bounds() {
    assert_eq!(UniformDistribution::new(whole(3), whole(1)).unwrap_err(), DistributionError::ReversedBounds);
    assert_eq!(UniformDistribution::new(whole(2), frac(4, 2)).unwrap_err(), DistributionError::EmptySupport);
    assert!(UniformDistribution::new(frac(1, 3), frac(1, 2)).is_ok());
}

#[test]
fn uniform_keeps_its_bounds() {
    let d = UniformDistribution::new(frac(-7, 3), whole(4)).unwrap();
    assert!(d.lower().same_value(&frac(-7, 3)));
    assert!(d.upper().same_value(&whole(4)));
}
