use tpmiddle::feed_rate::{nudge_for_interval, FeedRate};
use tpmiddle::fixed::isqrt;
use tpmiddle::units::Tick;

#[test]
fn isqrt_exact_values() {
    assert_eq!(isqrt(0), 0);
    assert_eq!(isqrt(1), 1);
    assert_eq!(isqrt(3), 1);
    assert_eq!(isqrt(4), 2);
    assert_eq!(isqrt(999_999), 999);
    assert_eq!(isqrt(1_000_000), 1000);
    assert_eq!(isqrt(50_000_000_000), 223_606);
    assert_eq!(isqrt(1_000_000_000_000), 1_000_000);
}

#[test]
fn nudge_shrinks_with_slower_cadence() {
    // At the fastest cadence the nudge is one whole tick; at the slowest it
    // is the square root of the interval ratio.
    assert_eq!(nudge_for_interval(15_000), 1_000_000);
    assert_eq!(nudge_for_interval(300_000), 223_606);
    assert!(nudge_for_interval(60_000) < nudge_for_interval(30_000));
}

#[test]
fn first_sample_seeds_averages_directly() {
    let mut fr = FeedRate::new(0);
    assert_eq!(fr.interval(), 300_000);
    assert_eq!(fr.moving_avg(), 3_333_333);

    fr.feed(100_000, Tick::from_raw(3));
    assert_eq!(fr.interval(), 100_000);
    assert_eq!(fr.moving_avg(), 30_000_000);
}

#[test]
fn averages_blend_with_coefficient_one_half() {
    let mut fr = FeedRate::new(0);
    fr.feed(100_000, Tick::from_raw(3));
    fr.feed(150_000, Tick::from_raw(1));
    // interval: (100_000 + 50_000) / 2; magnitude: (3 + 1) / 2.
    assert_eq!(fr.interval(), 75_000);
    assert_eq!(fr.moving_avg(), 2_000_000 * 1_000_000 / 75_000);
}

#[test]
fn interval_clamps_to_workable_range() {
    let mut fr = FeedRate::new(0);
    fr.feed(1_000, Tick::from_raw(1));
    assert_eq!(fr.interval(), 15_000);

    let mut slow = FeedRate::new(0);
    slow.feed(2_000_000, Tick::from_raw(1));
    assert_eq!(slow.interval(), 300_000);
}

#[test]
fn magnitude_sign_does_not_matter() {
    let mut a = FeedRate::new(0);
    a.feed(20_000, Tick::from_raw(-3));
    let mut b = FeedRate::new(0);
    b.feed(20_000, Tick::from_raw(3));
    assert_eq!(a.moving_avg(), b.moving_avg());
}
