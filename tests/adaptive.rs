use std::time::Duration;

use adaptive_backoff::adaptive::UNIT;
use adaptive_backoff::backoff::NANOS_PER_SEC;
use adaptive_backoff::prelude::Adaptive;
use adaptive_backoff::{
    Adaptable, AdaptiveBuilder, AdaptiveError, Backoff, BackoffBuilder, ExponentialBackoff,
    ExponentialBackoffBuilder,
};

#[test]
fn test_adaptive_exp_backoff() {
    let factor: f64 = 2.0;
    let max_exp = 30;

    let mut backoff = ExponentialBackoffBuilder::default()
        .min(Duration::from_secs_f64(0.0).as_nanos() as u64)
        .max(Duration::from_secs_f64((2.0 as f64).powi(20)).as_nanos() as u64)
        .factor(factor as u64)
        .adaptive()
        .build()
        .unwrap();

    // all success_factor, no explicit initial, all zeros
    for i in 0..max_exp {
        let exp = Duration::new(0, 0);
        let delay = Duration::from_nanos(backoff.success());

        assert_eq!(exp, delay, "on iter {}: {:?} != {:?}", i, exp, delay);
    }

    // one failure, then success_factor carries the failure delay and scales down.
    backoff.reset();
    backoff.fail();

    // assume we backed off
    for i in 1..max_exp {
        let delay = Duration::from_nanos(backoff.success());

        // delay is now base + base^1
        let mut exp = factor * 2.0;
        for j in 1..=i {
            exp = (0.0 as f64).max(exp - (factor / j as f64));
        }

        assert!(
            (exp - delay.as_secs_f64()).abs() < 0.01,
            "on iter {}: {:?} != {:?} (within .01)",
            i,
            exp,
            delay
        );
    }
}

fn exponential(min: u64) -> AdaptiveBuilder<ExponentialBackoff, ExponentialBackoffBuilder> {
    ExponentialBackoffBuilder::default().min(min).factor(2).adaptive()
}

#[test]
fn base_delay_is_first_curve_delay_and_curve_is_reset() {
    let mut a = exponential(0).build().unwrap();
    assert_eq!(a.base_delay, 2 * NANOS_PER_SEC);
    assert_eq!(a.backoff.hits, 1);
    assert_eq!(a.wait(), 0);
    assert_eq!(a.fail(), 2 * NANOS_PER_SEC);
}

#[test]
fn wait_reads_without_change() {
    let mut a = exponential(0).build().unwrap();
    a.fail();
    let d = a.wait();
    assert_eq!(a.wait(), d);
    assert_eq!(a.wait(), 2 * NANOS_PER_SEC);
}

#[test]
fn cold_start_successes_stay_at_zero() {
    let mut b = exponential(0);
    b.success_mult(250).base_delay(9 * NANOS_PER_SEC);
    let mut a = b.build().unwrap();
    for _ in 0..50 {
        assert_eq!(a.success(), 0);
        assert_eq!(a.wait(), 0);
    }
}

#[test]
fn failures_add_damped_steps() {
    let mut a = exponential(0).build().unwrap();
    // 2s / 1, then 4s / 2, then 8s / 3
    assert_eq!(a.fail(), 2 * NANOS_PER_SEC);
    assert_eq!(a.fail(), 4 * NANOS_PER_SEC);
    assert_eq!(a.fail(), 4 * NANOS_PER_SEC + 8 * NANOS_PER_SEC / 3);
    assert_eq!(a.fail_factor, 3 * UNIT);
}

#[test]
fn fail_multiplier_scales_the_divisor() {
    let mut b = exponential(0);
    b.fail_mult(2 * UNIT);
    let mut a = b.build().unwrap();
    // 2s / 2, then 4s / 4
    assert_eq!(a.fail(), NANOS_PER_SEC);
    assert_eq!(a.fail(), 2 * NANOS_PER_SEC);
}

#[test]
fn one_failure_then_successes_decay() {
    let mut a = exponential(0).build().unwrap();
    a.reset();
    assert_eq!(a.fail(), 4 * NANOS_PER_SEC);
    let base = 2 * NANOS_PER_SEC;
    let mut expected = 4 * NANOS_PER_SEC;
    let mut previous_drop = u64::MAX;
    let mut previous = a.wait();
    for i in 1..=12u64 {
        let step = base / i;
        expected = expected.saturating_sub(step);
        let d = a.success();
        assert_eq!(d, expected, "success {}", i);
        assert_eq!(a.success_factor, i * UNIT);
        assert!(d <= previous);
        if previous > 0 {
            assert!(d < previous);
        }
        let drop = previous - d;
        assert!(drop <= previous_drop);
        previous_drop = drop;
        previous = d;
    }
    assert_eq!(a.wait(), 0);
}

#[test]
fn success_resets_inner_curve() {
    let mut a = exponential(0).build().unwrap();
    a.fail();
    a.fail();
    assert_eq!(a.backoff.hits, 3);
    a.success();
    assert_eq!(a.backoff.hits, 1);
}

#[test]
fn reset_returns_to_base_delay() {
    let mut b = exponential(NANOS_PER_SEC);
    b.initial_delay(5 * NANOS_PER_SEC).fail_factor(3 * UNIT).success_factor(UNIT);
    let mut a = b.build().unwrap();
    assert_eq!(a.base_delay, 5 * NANOS_PER_SEC);
    assert_eq!(a.wait(), 0);
    a.fail();
    a.success();
    a.fail();
    a.fail();
    a.success();
    a.reset();
    assert_eq!(a.wait(), 5 * NANOS_PER_SEC);
    assert_eq!(a.fail_factor, 0);
    assert_eq!(a.success_factor, 0);
    assert_eq!(a.backoff.hits, 1);
}

#[test]
fn both_curve_sources_are_refused() {
    let mut eb = ExponentialBackoffBuilder::default();
    eb.min(0).factor(2);
    let curve = eb.build().unwrap();
    let mut b = eb.adaptive();
    b.backoff(curve);
    assert!(matches!(b.build(), Err(AdaptiveError::BuilderFailure { .. })));
}

#[test]
fn no_curve_source_is_refused() {
    let b: AdaptiveBuilder<ExponentialBackoff, ExponentialBackoffBuilder> = AdaptiveBuilder::default();
    assert!(matches!(b.build(), Err(AdaptiveError::BuilderFailure { .. })));
}

#[test]
fn missing_minimum_is_refused_by_adaptive_build() {
    let b = ExponentialBackoffBuilder::default().factor(2).adaptive();
    assert!(matches!(b.build(), Err(AdaptiveError::BuilderFailure { .. })));
}

#[test]
fn zero_multipliers_are_refused() {
    let mut b = exponential(0);
    b.fail_mult(0);
    assert!(matches!(b.build(), Err(AdaptiveError::BuilderFailure { .. })));
    let mut b = exponential(0);
    b.success_mult(0);
    assert!(matches!(b.build(), Err(AdaptiveError::BuilderFailure { .. })));
}

#[test]
fn curve_given_directly_builds() {
    let curve = ExponentialBackoffBuilder::default().min(0).factor(3).build().unwrap();
    let mut b: AdaptiveBuilder<ExponentialBackoff, ExponentialBackoffBuilder> = AdaptiveBuilder::default();
    b.backoff(curve);
    let mut a = b.build().unwrap();
    assert_eq!(a.base_delay, 3 * NANOS_PER_SEC);
    assert_eq!(a.fail(), 3 * NANOS_PER_SEC);
}

#[test]
fn delay_saturates_on_many_failures() {
    let mut b = ExponentialBackoffBuilder::default().min(0).factor(1000).adaptive();
    b.fail_mult(1);
    let mut a = b.build().unwrap();
    for _ in 0..10 {
        a.fail();
    }
    assert_eq!(a.wait(), u64::MAX);
}

#[test]
fn default_adaptive_is_all_zero() {
    let a: Adaptive<ExponentialBackoff> = Adaptive::default();
    assert_eq!(
        (a.fail_mult, a.success_mult, a.fail_factor, a.success_factor, a.base_delay, a.delay),
        (0, 0, 0, 0, 0, 0)
    );
    assert_eq!(a.backoff.hits, 0);
}

#[test]
fn reset_forgets_history_and_is_idempotent() {
    let mut a1 = exponential(0).build().unwrap();
    let mut a2 = exponential(0).build().unwrap();
    a1.fail();
    a1.fail();
    a1.success();
    a1.reset();
    a1.fail();
    a2.success();
    a2.success();
    a2.fail();
    a1.reset();
    a2.reset();
    a2.reset();
    for _ in 0..4 {
        assert_eq!(a1.fail(), a2.fail());
        assert_eq!(a1.success(), a2.success());
    }
    assert_eq!(a1.wait(), a2.wait());
}
