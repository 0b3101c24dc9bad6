use llm_retry::{Delay, Jitter, RetryConfig};
use rand::rngs::StdRng;
use rand::SeedableRng;

fn secs(d: Delay) -> f64 {
    d.as_nanos() as f64 / 1e9
}

#[test]
fn no_jitter_is_deterministic() {
    let cfg = RetryConfig::default()
        .with_base_delay(Delay::from_secs(1))
        .with_max_delay(Delay::from_secs(8))
        .with_jitter(Jitter::NoJitter);
    let mut rng = StdRng::seed_from_u64(0);
    assert_eq!(cfg.delay_for(0, &mut rng), Delay::from_secs(1));
    assert_eq!(cfg.delay_for(1, &mut rng), Delay::from_secs(2));
    assert_eq!(cfg.delay_for(2, &mut rng), Delay::from_secs(4));
    assert_eq!(cfg.delay_for(3, &mut rng), Delay::from_secs(8));
    // capped
    assert_eq!(cfg.delay_for(5, &mut rng), Delay::from_secs(8));
}

#[test]
fn full_jitter_stays_in_bounds() {
    let cfg = RetryConfig::default()
        .with_base_delay(Delay::from_secs(1))
        .with_max_delay(Delay::from_secs(4))
        .with_jitter(Jitter::Full);
    let mut rng = StdRng::seed_from_u64(42);
    for i in 0..6 {
        let d = cfg.delay_for(i, &mut rng);
        let capped = secs(Delay::from_secs(1)) * 2f64.powi(i as i32);
        let upper = capped.min(4.0);
        assert!(secs(d) >= 0.0);
        assert!(secs(d) <= upper + 1e-9);
    }
}

#[test]
fn equal_jitter_is_at_least_half() {
    let cfg = RetryConfig::default()
        .with_base_delay(Delay::from_secs(2))
        .with_max_delay(Delay::from_secs(2))
        .with_jitter(Jitter::Equal);
    let mut rng = StdRng::seed_from_u64(7);
    for _ in 0..10 {
        let d = cfg.delay_for(0, &mut rng);
        assert!(secs(d) >= 1.0 - 1e-9);
        assert!(secs(d) <= 2.0 + 1e-9);
    }
}

#[test]
fn default_config_values() {
    let cfg = RetryConfig::default();
    assert_eq!(cfg.max_attempts, 6);
    assert_eq!(cfg.base_delay, Delay::from_millis(500));
    assert_eq!(cfg.max_delay, Delay::from_secs(30));
    assert_eq!(cfg.jitter, Jitter::Full);
    assert_eq!(Jitter::default(), Jitter::Full);
}

#[test]
fn builders_change_one_field_each() {
    let base = RetryConfig::default();
    let a = base.with_max_attempts(9);
    assert_eq!(a.max_attempts, 9);
    assert_eq!(a.base_delay, base.base_delay);
    assert_eq!(a.max_delay, base.max_delay);
    assert_eq!(a.jitter, base.jitter);
    let b = base.with_base_delay(Delay::from_micros(3));
    assert_eq!(b.base_delay.nanos, 3_000);
    assert_eq!(b.max_attempts, 6);
    let c = base.with_max_delay(Delay::from_nanos(17));
    assert_eq!(c.max_delay.nanos, 17);
    assert_eq!(c.base_delay, base.base_delay);
    let d = base.with_jitter(Jitter::Equal);
    assert_eq!(d.jitter, Jitter::Equal);
    assert_eq!(d.max_attempts, 6);
}

#[test]
fn delay_units() {
    assert_eq!(Delay::from_secs(2).as_nanos(), 2_000_000_000);
    assert_eq!(Delay::from_millis(3).as_nanos(), 3_000_000);
    assert_eq!(Delay::from_micros(5).as_nanos(), 5_000);
    assert_eq!(Delay::from_nanos(7).as_nanos(), 7);
    assert!(Delay::from_nanos(0).is_zero());
    assert!(!Delay::from_nanos(1).is_zero());
    // the largest whole-second span still fits
    assert_eq!(Delay::from_secs(u64::MAX).as_nanos(), u64::MAX as u128 * 1_000_000_000);
}

#[test]
fn capped_delay_doubles_until_cap() {
    let cfg = RetryConfig::default()
        .with_base_delay(Delay::from_millis(250))
        .with_max_delay(Delay::from_secs(3));
    assert_eq!(cfg.capped_delay(0), Delay::from_millis(250));
    assert_eq!(cfg.capped_delay(1), Delay::from_millis(500));
    assert_eq!(cfg.capped_delay(2), Delay::from_millis(1000));
    assert_eq!(cfg.capped_delay(3), Delay::from_millis(2000));
    assert_eq!(cfg.capped_delay(4), Delay::from_secs(3));
    assert_eq!(cfg.capped_delay(200), Delay::from_secs(3));
    assert_eq!(cfg.capped_delay(u32::MAX), Delay::from_secs(3));
}

#[test]
fn capped_delay_edge_cases() {
    // zero base stays zero whatever the attempt
    let zero = RetryConfig::default()
        .with_base_delay(Delay::from_nanos(0))
        .with_max_delay(Delay::from_secs(1));
    assert_eq!(zero.capped_delay(0).nanos, 0);
    assert_eq!(zero.capped_delay(u32::MAX).nanos, 0);
    // base above the cap is capped from the first attempt
    let above = RetryConfig::default()
        .with_base_delay(Delay::from_secs(10))
        .with_max_delay(Delay::from_secs(1));
    assert_eq!(above.capped_delay(0), Delay::from_secs(1));
    // a huge cap does not overflow the doubling
    let huge = RetryConfig::default()
        .with_base_delay(Delay::from_nanos(1))
        .with_max_delay(Delay::from_nanos(u128::MAX));
    assert_eq!(huge.capped_delay(127).nanos, 1u128 << 127);
    assert_eq!(huge.capped_delay(128).nanos, u128::MAX);
    assert_eq!(huge.capped_delay(1000).nanos, u128::MAX);
    // odd base values double exactly
    let odd = RetryConfig::default()
        .with_base_delay(Delay::from_nanos(3))
        .with_max_delay(Delay::from_nanos(100));
    assert_eq!(odd.capped_delay(4).nanos, 48);
    assert_eq!(odd.capped_delay(5).nanos, 96);
    assert_eq!(odd.capped_delay(6).nanos, 100);
}

#[test]
fn jitter_span_and_jittered_delay() {
    let base = RetryConfig::default()
        .with_base_delay(Delay::from_nanos(7))
        .with_max_delay(Delay::from_nanos(1000));
    let none = base.with_jitter(Jitter::NoJitter);
    let equal = base.with_jitter(Jitter::Equal);
    let full = base.with_jitter(Jitter::Full);
    // capped backoff at attempt 1 is 14
    assert_eq!(none.jitter_span(1), 0);
    assert_eq!(equal.jitter_span(1), 7);
    assert_eq!(full.jitter_span(1), 14);
    assert_eq!(none.jittered_delay(1, 0).nanos, 14);
    assert_eq!(equal.jittered_delay(1, 0).nanos, 7);
    assert_eq!(equal.jittered_delay(1, 7).nanos, 14);
    assert_eq!(full.jittered_delay(1, 5).nanos, 5);
    // odd capped value: 7 -> lower half 3, span 4, top 7
    assert_eq!(equal.jitter_span(0), 4);
    assert_eq!(equal.jittered_delay(0, 0).nanos, 3);
    assert_eq!(equal.jittered_delay(0, 4).nanos, 7);
}

#[test]
fn full_jitter_draws_vary() {
    let cfg = RetryConfig::default()
        .with_base_delay(Delay::from_secs(4))
        .with_max_delay(Delay::from_secs(4))
        .with_jitter(Jitter::Full);
    let mut rng = StdRng::seed_from_u64(3);
    let draws: Vec<u128> = (0..20).map(|_| cfg.delay_for(0, &mut rng).nanos).collect();
    assert!(draws.iter().all(|d| *d <= 4_000_000_000));
    assert!(draws.iter().any(|d| *d < 4_000_000_000));
    assert!(draws.iter().any(|d| *d != draws[0]));
}

#[test]
fn equal_jitter_draws_vary_in_upper_half() {
    let cfg = RetryConfig::default()
        .with_base_delay(Delay::from_secs(2))
        .with_max_delay(Delay::from_secs(2))
        .with_jitter(Jitter::Equal);
    let mut rng = StdRng::seed_from_u64(11);
    let draws: Vec<u128> = (0..20).map(|_| cfg.delay_for(0, &mut rng).nanos).collect();
    assert!(draws.iter().all(|d| *d >= 1_000_000_000 && *d <= 2_000_000_000));
    assert!(draws.iter().any(|d| *d != draws[0]));
}

#[test]
fn no_jitter_leaves_generator_untouched() {
    let cfg = RetryConfig::default()
        .with_base_delay(Delay::from_millis(100))
        .with_jitter(Jitter::NoJitter);
    let mut rng = StdRng::seed_from_u64(9);
    let before = rng.clone();
    let d = cfg.delay_for(3, &mut rng);
    assert_eq!(d, Delay::from_millis(800));
    assert_eq!(rng, before);
    // with jitter the generator moves on
    let mut rng2 = StdRng::seed_from_u64(9);
    let _ = cfg.with_jitter(Jitter::Full).delay_for(3, &mut rng2);
    assert_ne!(rng2, before);
}
