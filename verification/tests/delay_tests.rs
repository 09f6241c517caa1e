use crashie::delay::{fold_sample, plan_wait, wait_fits, SUSPEND_THRESHOLD_NANOS};
use rand_distr::{Distribution, Normal};

fn nanos(seconds: f64) -> i64 {
    (seconds * 1e9).round() as i64
}

#[test]
fn fold_sample_keeps_what_is_not_negative() {
    assert_eq!(fold_sample(0), 0);
    assert_eq!(fold_sample(1), 1);
    assert_eq!(fold_sample(2_500_000), 2_500_000);
    assert_eq!(fold_sample(i64::MAX), 9_223_372_036_854_775_807);
}

#[test]
fn fold_sample_turns_a_negative_draw_round() {
    assert_eq!(fold_sample(-1), 1);
    assert_eq!(fold_sample(-2_500_000), 2_500_000);
    assert_eq!(fold_sample(i64::MIN), 9_223_372_036_854_775_808);
}

#[test]
fn the_threshold_is_one_microsecond() {
    assert_eq!(SUSPEND_THRESHOLD_NANOS, 1_000);
}

#[test]
fn a_wait_of_nothing_is_not_suspended_for() {
    let wait = plan_wait(0, 0);
    assert_eq!(wait.nanos, 0);
    assert!(!wait.suspend);
}

#[test]
fn a_wait_below_one_microsecond_is_not_suspended_for() {
    let wait = plan_wait(0, 999);
    assert_eq!(wait.nanos, 999);
    assert!(!wait.suspend);
    let wait = plan_wait(500, -499);
    assert_eq!(wait.nanos, 999);
    assert!(!wait.suspend);
}

#[test]
fn a_wait_of_one_microsecond_is_suspended_for() {
    let wait = plan_wait(0, 1_000);
    assert_eq!(wait.nanos, 1_000);
    assert!(wait.suspend);
    let wait = plan_wait(1_000, 0);
    assert_eq!(wait.nanos, 1_000);
    assert!(wait.suspend);
    let wait = plan_wait(500, -500);
    assert_eq!(wait.nanos, 1_000);
    assert!(wait.suspend);
}

#[test]
fn the_wait_is_grace_plus_the_folded_draw() {
    let wait = plan_wait(1_000_000_000, -250_000_000);
    assert_eq!(wait.nanos, 1_250_000_000);
    assert!(wait.suspend);
    let wait = plan_wait(1_000_000_000, 250_000_000);
    assert_eq!(wait.nanos, 1_250_000_000);
    assert!(wait.suspend);
}

#[test]
fn a_draw_of_zero_waits_for_the_grace_duration() {
    for grace in [0u64, 1, 999, 10_000_000, u64::MAX] {
        assert_eq!(plan_wait(grace, 0).nanos, grace);
    }
}

#[test]
fn the_largest_wait_that_fits() {
    assert!(wait_fits(u64::MAX - 5, -5));
    assert_eq!(plan_wait(u64::MAX - 5, -5).nanos, u64::MAX);
    assert!(wait_fits(u64::MAX - 9_223_372_036_854_775_808, i64::MIN));
}

#[test]
fn a_wait_that_does_not_fit() {
    assert!(!wait_fits(u64::MAX, 1));
    assert!(!wait_fits(u64::MAX, -1));
    assert!(!wait_fits(u64::MAX - 4, 5));
    assert!(wait_fits(u64::MAX, 0));
}

#[test]
fn a_sample_of_mean_zero_and_deviation_zero_is_zero() {
    let mut rng = rand::thread_rng();
    let normal = Normal::new(0.0, 0.0).unwrap();
    for _ in 0..100 {
        let sample: f64 = normal.sample(&mut rng);
        assert_eq!(sample.abs(), 0.0);
        let wait = plan_wait(3_000_000_000, nanos(sample));
        assert_eq!(wait.nanos, 3_000_000_000);
    }
}

#[test]
fn a_zero_wait_after_a_zero_sample_is_skipped() {
    let mut rng = rand::thread_rng();
    let normal = Normal::new(0.0, 0.0).unwrap();
    let sample: f64 = normal.sample(&mut rng);
    let wait = plan_wait(0, nanos(sample));
    assert_eq!(wait.nanos, 0);
    assert!(!wait.suspend);
}

#[test]
fn repeated_sampling_is_never_negative() {
    let mut rng = rand::thread_rng();
    let normal = Normal::new(1.0, 5.0).unwrap();
    let mut negative_draws: u32 = 0;
    for _ in 0..2000 {
        let sample: f64 = normal.sample(&mut rng);
        if sample < 0.0 {
            negative_draws += 1;
        }
        let drawn = nanos(sample);
        let folded = fold_sample(drawn);
        assert_eq!(folded, drawn.unsigned_abs());
        assert!(plan_wait(10, drawn).nanos >= 10);
    }
    assert!(negative_draws > 0);
}
