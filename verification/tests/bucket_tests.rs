use ping_graph::bucket::{PingBucket, NO_LATENCY};
use ping_graph::fraction::Fraction;

#[test]
fn no_ping_lost() {
    // given
    let mut sut = PingBucket::new();

    // when
    sut.feed_latency(1);
    sut.feed_latency(5);

    // then
    let rate = sut.lost_percentage();
    assert_eq!(
        rate.numerator() as f32 / rate.denominator() as f32,
        0.0,
        "Expected lost percentage of 0.0%."
    )
}

#[test]
fn half_pings_lost() {
    // given
    let mut sut = PingBucket::new();

    // when
    sut.feed_latency(1);
    sut.feed_lost_ping();
    sut.feed_latency(5);
    sut.feed_lost_ping();

    // then
    let rate = sut.lost_percentage();
    assert_eq!(
        rate.numerator() as f32 / rate.denominator() as f32,
        50.0,
        "Expected lost percentage of 50%."
    )
}

#[test]
fn calculates_average() {
    // given
    let mut sut = PingBucket::new();
    sut.feed_latency(1);
    sut.feed_latency(3);
    sut.feed_latency(5);
    sut.feed_latency(3);

    // when
    let mean = sut.latency_avg();
    assert_eq!(
        mean.numerator() as f32 / mean.denominator() as f32,
        3.0,
        "Expected arithmetic average as result."
    );
}

#[test]
fn new_bucket_is_empty() {
    let sut = PingBucket::new();
    assert_eq!(sut.ping_attempts(), 0);
    assert_eq!(sut.ping_count(), 0);
    assert_eq!(sut.pings_lost(), 0);
    assert_eq!(sut.latency_min(), NO_LATENCY);
    assert_eq!(sut.latency_min(), u32::MAX);
    assert_eq!(sut.latency_max(), 0);
    assert_eq!(sut.latency_avg().numerator(), 0);
    assert_eq!(sut.latency_avg().denominator(), 1);
}

#[test]
fn loss_rate_of_empty_bucket_is_zero() {
    let sut = PingBucket::new();
    let rate = sut.lost_percentage();
    assert_eq!(rate.numerator(), 0);
    assert_eq!(rate.denominator(), 1);
    assert_eq!(rate.scaled(100), 0);
}

#[test]
fn loss_rate_is_hundred_losses_over_attempts() {
    let mut sut = PingBucket::new();
    sut.feed_lost_ping();
    sut.feed_latency(7);
    sut.feed_latency(9);
    let rate = sut.lost_percentage();
    assert_eq!(rate.numerator(), 100);
    assert_eq!(rate.denominator(), 3);
    assert_eq!(sut.ping_attempts(), 3);
    assert_eq!(sut.pings_lost(), 1);
    assert_eq!(sut.ping_count(), 2);
}

#[test]
fn all_pings_lost() {
    let mut sut = PingBucket::new();
    sut.feed_lost_ping();
    sut.feed_lost_ping();
    let rate = sut.lost_percentage();
    assert_eq!(rate.numerator() as f32 / rate.denominator() as f32, 100.0);
    assert_eq!(sut.latency_min(), u32::MAX);
    assert_eq!(sut.latency_max(), 0);
    assert_eq!(sut.latency_avg().numerator(), 0);
}

#[test]
fn mean_is_sum_over_count() {
    let mut sut = PingBucket::new();
    sut.feed_latency(2);
    sut.feed_latency(3);
    let mean = sut.latency_avg();
    assert_eq!(mean.numerator(), 5);
    assert_eq!(mean.denominator(), 2);
    assert_eq!(mean.numerator() as f64 / mean.denominator() as f64, 2.5);
}

#[test]
fn first_latency_becomes_the_mean() {
    let mut sut = PingBucket::new();
    sut.feed_latency(42);
    let mean = sut.latency_avg();
    assert_eq!(mean.numerator(), 42);
    assert_eq!(mean.denominator(), 1);
    assert_eq!(sut.latency_min(), 42);
    assert_eq!(sut.latency_max(), 42);
}

#[test]
fn mean_follows_the_incremental_step() {
    let latencies = [10u32, 20, 60, 5, 5];
    let mut sut = PingBucket::new();
    let mut running = 0.0f64;
    let mut fed = 0.0f64;
    for latency in latencies {
        sut.feed_latency(latency);
        fed += 1.0;
        running = running + (latency as f64 - running) / fed;
        let mean = sut.latency_avg();
        let exact = mean.numerator() as f64 / mean.denominator() as f64;
        assert!((exact - running).abs() < 1e-9);
    }
    assert_eq!(sut.latency_avg().numerator(), 100);
    assert_eq!(sut.latency_avg().denominator(), 5);
}

#[test]
fn losses_leave_latency_statistics() {
    let mut with_losses = PingBucket::new();
    with_losses.feed_lost_ping();
    with_losses.feed_latency(8);
    with_losses.feed_lost_ping();
    with_losses.feed_lost_ping();
    with_losses.feed_latency(2);
    with_losses.feed_latency(11);
    with_losses.feed_lost_ping();

    let mut without = PingBucket::new();
    without.feed_latency(8);
    without.feed_latency(2);
    without.feed_latency(11);

    assert_eq!(with_losses.latency_min(), without.latency_min());
    assert_eq!(with_losses.latency_max(), without.latency_max());
    assert_eq!(with_losses.latency_avg().numerator(), without.latency_avg().numerator());
    assert_eq!(with_losses.latency_avg().denominator(), without.latency_avg().denominator());
    assert_eq!(with_losses.ping_attempts(), 7);
    assert_eq!(without.ping_attempts(), 3);
    assert_eq!(with_losses.lost_percentage().numerator(), 400);
    assert_eq!(with_losses.lost_percentage().denominator(), 7);
    assert_eq!(without.lost_percentage().numerator(), 0);
}

#[test]
fn extrema_are_least_and_greatest() {
    let mut sut = PingBucket::new();
    for latency in [30u32, 12, 45, 12, 44] {
        sut.feed_latency(latency);
        assert!(sut.latency_min() <= sut.latency_max());
    }
    assert_eq!(sut.latency_min(), 12);
    assert_eq!(sut.latency_max(), 45);
}

#[test]
fn first_latency_sets_minimum_however_large() {
    let mut sut = PingBucket::new();
    sut.feed_latency(20000);
    assert_eq!(sut.latency_min(), 20000);
    assert_eq!(sut.latency_max(), 20000);

    let mut top = PingBucket::new();
    top.feed_latency(u32::MAX);
    top.feed_latency(u32::MAX);
    assert_eq!(top.latency_min(), u32::MAX);
    assert_eq!(top.latency_max(), u32::MAX);
    assert_eq!(top.latency_avg().numerator(), 2 * (u32::MAX as u64));
    assert_eq!(top.latency_avg().denominator(), 2);
}

#[test]
fn attempts_are_successes_plus_losses() {
    let mut sut = PingBucket::new();
    for step in 0..20u32 {
        if step % 3 == 0 {
            sut.feed_lost_ping();
        } else {
            sut.feed_latency(step);
        }
        assert_eq!(sut.ping_attempts(), sut.ping_count() + sut.pings_lost());
        assert_eq!(sut.ping_attempts(), step + 1);
    }
}

#[test]
fn fraction_scales_and_rounds_half_up() {
    assert_eq!(Fraction::new(1, 3).scaled(100), 33);
    assert_eq!(Fraction::new(2, 3).scaled(100), 67);
    assert_eq!(Fraction::new(1, 8).scaled(100), 13);
    assert_eq!(Fraction::new(5, 4).scaled(10), 13);
    assert_eq!(Fraction::new(5, 4).scaled(1), 1);
    assert_eq!(Fraction::new(3, 2).scaled(1), 2);
    assert_eq!(Fraction::new(7, 1).scaled(0), 0);
    assert_eq!(Fraction::zero().scaled(1000), 0);
    assert_eq!(
        Fraction::new(u64::MAX, 1).scaled(u32::MAX),
        (u64::MAX as u128) * (u32::MAX as u128)
    );
    assert_eq!(Fraction::new(9, 4).numerator(), 9);
    assert_eq!(Fraction::new(9, 4).denominator(), 4);
}
