use distributions::distribution::exponential::ExponentialDistribution;
use distributions::distribution::normal::NormalDistribution;
use distributions::distribution::DistributionError;
use distributions::ratio::Ratio;

fn whole(n: i128) -> Ratio {
    Ratio::from_int(n)
}

fn frac(num: i128, den: i128) -> Ratio {
    Ratio::new(num, den)
}

#[test]
fn exponential_from_mean_statistics() {
    let d = ExponentialDistribution::from_mean(whole(10)).unwrap();
    assert!(d.rate().same_value(&frac(1, 10)));
    assert!(d.mean().same_value(&whole(10)));
    assert!(d.stdev().same_value(&whole(10)));
}

#[test]
fn exponential_round_trips() {
    let mut k: i128 = 1;
    while k <= 50 {
        let m = frac(k, 7);
        let by_mean = ExponentialDistribution::from_mean(m).unwrap();
        let by_stdev = ExponentialDistribution::from_stdev(m).unwrap();
        assert!(by_mean.mean().same_value(&m));
        assert!(by_stdev.stdev().same_value(&m));
        assert_eq!(by_mean.rate().num, by_stdev.rate().num);
        assert_eq!(by_mean.rate().den, by_stdev.rate().den);
        k += 1;
    }
}

#[test]
fn exponential_from_rate() {
    let d = ExponentialDistribution::new(frac(5, 2)).unwrap();
    assert!(d.mean().same_value(&frac(2, 5)));
    assert!(d.stdev().same_value(&frac(2, 5)));
}

#[test]
fn exponential_rejects_non_positive() {
    assert_eq!(ExponentialDistribution::new(whole(0)).unwrap_err(), DistributionError::NotPositive);
    assert_eq!(ExponentialDistribution::new(whole(-1)).unwrap_err(), DistributionError::NotPositive);
    assert_eq!(ExponentialDistribution::from_mean(whole(0)).unwrap_err(), DistributionError::NotPositive);
    assert_eq!(ExponentialDistribution::from_stdev(frac(-3, 2)).unwrap_err(), DistributionError::NotPositive);
}

#[test]
fn normal_statistics() {
    let d = NormalDistribution::new(frac(3, 2), whole(2)).unwrap();
    assert!(d.mean().same_value(&frac(3, 2)));
    assert!(d.median().same_value(&frac(3, 2)));
    assert!(d.stdev().same_value(&whole(2)));
    let std_normal = NormalDistribution::new(whole(0), whole(1)).unwrap();
    assert!(std_normal.mean().same_value(&whole(0)));
    assert!(std_normal.stdev().same_value(&whole(1)));
}

#[test]
fn normal_rejects_non_positive_stdev() {
    assert_eq!(NormalDistribution::new(whole(0), whole(0)).unwrap_err(), DistributionError::NotPositive);
    assert_eq!(NormalDistribution::new(whole(0), whole(-2)).unwrap_err(), DistributionError::NotPositive);
}
