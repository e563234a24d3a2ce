use std::time::Duration;

use ffmpeg_audio::time::{duration_from_micros, duration_from_nanos, duration_micros, Rational, TimeBase};

#[test]
fn time_base_needs_positive_parts() {
    assert!(TimeBase::try_new(Rational { num: 0, den: 1 }).is_none());
    assert!(TimeBase::try_new(Rational { num: 1, den: 0 }).is_none());
    assert!(TimeBase::try_new(Rational { num: -1, den: 5 }).is_none());
    let tb = TimeBase::try_new(Rational { num: 3, den: 7 }).unwrap();
    assert_eq!(tb.as_rational(), Rational { num: 3, den: 7 });
    assert_eq!(tb.positive_parts(), (3, 7));
    assert_eq!(TimeBase::per_sample(48_000).as_rational(), Rational { num: 1, den: 48_000 });
}

#[test]
fn micros_round_to_nearest_halfway_away_from_zero() {
    let tb = TimeBase::try_new(Rational { num: 1, den: 3 }).unwrap();
    // 1/3 s = 333333.33 us
    assert_eq!(tb.calc_micros(1), Some(333_333));
    // 2/3 s = 666666.67 us
    assert_eq!(tb.calc_micros(2), Some(666_667));
    assert_eq!(tb.calc_micros(-2), Some(-666_667));
    let half = TimeBase::try_new(Rational { num: 1, den: 2_000_000 }).unwrap();
    // 0.5 us rounds away from zero
    assert_eq!(half.calc_micros(1), Some(1));
    assert_eq!(half.calc_micros(-1), Some(-1));
    assert_eq!(half.calc_micros(0), Some(0));
}

#[test]
fn micros_out_of_range_are_none() {
    let tb = TimeBase::try_new(Rational { num: 1000, den: 1 }).unwrap();
    assert_eq!(tb.calc_micros(i64::MAX), None);
    assert_eq!(tb.calc_micros(i64::MIN), None);
    assert_eq!(tb.calc_duration(i64::MAX), None);
    assert_eq!(tb.calc_micros(9_223_372), Some(9_223_372_000_000_000));
}

#[test]
fn durations_clamp_negative_times_to_zero() {
    let tb = TimeBase::try_new(Rational { num: 1, den: 1000 }).unwrap();
    assert_eq!(tb.calc_duration(-5), Some(Duration::ZERO));
    assert_eq!(tb.calc_duration(1500), Some(Duration::from_millis(1500)));
}

#[test]
fn duration_helpers() {
    assert_eq!(duration_from_micros(1_500_000), Duration::from_millis(1500));
    assert_eq!(duration_from_nanos(3_000_000_007), Duration::new(3, 7));
    assert_eq!(duration_micros(Duration::new(2, 999)), 2_000_000);
    assert_eq!(duration_micros(Duration::from_nanos(1_999)), 1);
}
