use stopwatch::{Duration, Stopwatch};

/// The stored duration converted to seconds, the way a caller that wants a
/// floating-point reading would do it.
fn secs_f64(d: Duration) -> f64 {
    d.as_secs() as f64 + d.subsec_nanos() as f64 / 1_000_000_000.0
}

#[test]
fn new_stopwatch_is_zero_and_unpaused() {
    let sw = Stopwatch::new();
    assert_eq!(sw.elapsed().as_nanos(), 0);
    assert!(!sw.is_paused());
}

#[test]
fn default_matches_new() {
    assert_eq!(Stopwatch::default(), Stopwatch::new());
    assert_eq!(Duration::default().as_nanos(), 0);
}

#[test]
fn tick_accumulates_two_deltas() {
    let mut sw = Stopwatch::new();
    sw.tick(Duration::from_secs(1));
    sw.tick(Duration::from_millis(500));
    assert_eq!(sw.elapsed(), Duration::from_nanos(1_500_000_000));
    assert_eq!(sw.elapsed().as_secs(), 1);
    assert_eq!(sw.elapsed().subsec_nanos(), 500_000_000);
}

#[test]
fn tick_returns_post_tick_state() {
    let mut sw = Stopwatch::new();
    let after = sw.tick(Duration::from_secs(2));
    assert_eq!(after.elapsed(), Duration::from_secs(2));
    assert_eq!(sw.tick(Duration::from_secs(1)).elapsed(), Duration::from_secs(3));
}

#[test]
fn paused_ticks_never_change_elapsed() {
    let mut sw = Stopwatch::new();
    sw.tick(Duration::from_secs(4));
    sw.pause();
    for _ in 0..10 {
        sw.tick(Duration::from_secs(7));
    }
    assert!(sw.is_paused());
    assert_eq!(sw.elapsed(), Duration::from_secs(4));
}

#[test]
fn reset_zeroes_elapsed_and_keeps_pause_flag() {
    let mut running = Stopwatch::new();
    running.tick(Duration::from_secs(3));
    running.reset();
    assert_eq!(running.elapsed().as_nanos(), 0);
    assert!(!running.is_paused());

    let mut paused = Stopwatch::new();
    paused.tick(Duration::from_secs(3));
    paused.pause();
    paused.reset();
    assert_eq!(paused.elapsed().as_nanos(), 0);
    assert!(paused.is_paused());
}

#[test]
fn pause_then_unpause_restores_accumulation() {
    let mut toggled = Stopwatch::new();
    toggled.tick(Duration::from_secs(1));
    toggled.pause();
    toggled.unpause();
    toggled.tick(Duration::from_secs(2));
    toggled.tick(Duration::from_millis(250));

    let mut plain = Stopwatch::new();
    plain.tick(Duration::from_secs(1));
    plain.tick(Duration::from_secs(2));
    plain.tick(Duration::from_millis(250));

    assert_eq!(toggled, plain);
}

#[test]
fn set_elapsed_overwrites_even_while_paused() {
    let mut sw = Stopwatch::new();
    sw.pause();
    sw.set_elapsed(Duration::from_millis(1500));
    assert!(sw.is_paused());
    assert_eq!(sw.elapsed().as_secs(), 1);
    assert_eq!(sw.elapsed().subsec_nanos(), 500_000_000);
}

#[test]
fn tick_saturates_at_maximum_duration() {
    let mut sw = Stopwatch::new();
    sw.set_elapsed(Duration::max_value());
    sw.tick(Duration::from_secs(1));
    assert_eq!(sw.elapsed(), Duration::max_value());
}

#[test]
fn tick_crossing_the_maximum_clamps_to_it() {
    let mut sw = Stopwatch::new();
    sw.set_elapsed(Duration::new(u64::MAX, 0));
    sw.tick(Duration::from_secs(5));
    assert_eq!(sw.elapsed(), Duration::max_value());
}

#[test]
fn scenario_tick_pause_tick_reset() {
    let mut sw = Stopwatch::new();
    sw.tick(Duration::from_secs(1));
    assert_eq!(secs_f64(sw.elapsed()), 1.0);
    sw.pause();
    sw.tick(Duration::from_secs(1));
    assert_eq!(secs_f64(sw.elapsed()), 1.0);
    sw.reset();
    assert!(sw.is_paused());
    assert_eq!(secs_f64(sw.elapsed()), 0.0);
}

#[test]
fn scenario_only_unpaused_tick_counts() {
    let mut sw = Stopwatch::new();
    sw.pause();
    sw.tick(Duration::from_secs(1));
    sw.unpause();
    sw.tick(Duration::from_secs(1));
    assert_eq!(secs_f64(sw.elapsed()), 1.0);
}

#[test]
fn cloned_stopwatch_accumulates_independently() {
    let mut sw = Stopwatch::new();
    sw.tick(Duration::from_secs(1));
    let mut copy = sw.clone();
    copy.tick(Duration::from_secs(1));
    assert_eq!(sw.elapsed(), Duration::from_secs(1));
    assert_eq!(copy.elapsed(), Duration::from_secs(2));
}

#[test]
fn duration_new_carries_excess_nanoseconds() {
    let d = Duration::new(1, 1_500_000_000);
    assert_eq!(d.as_secs(), 2);
    assert_eq!(d.subsec_nanos(), 500_000_000);
}

#[test]
fn duration_constructors_agree_on_exact_values() {
    assert_eq!(Duration::from_secs(2).as_nanos(), 2_000_000_000);
    assert_eq!(Duration::from_millis(1_250).as_nanos(), 1_250_000_000);
    assert_eq!(Duration::from_nanos(987_654_321).as_nanos(), 987_654_321);
    assert_eq!(Duration::from_secs(3), Duration::from_millis(3_000));
}

#[test]
fn saturating_add_carries_subsecond_overflow() {
    let a = Duration::from_nanos(600_000_000);
    let b = Duration::from_nanos(700_000_000);
    let sum = a.saturating_add(b);
    assert_eq!(sum.as_secs(), 1);
    assert_eq!(sum.subsec_nanos(), 300_000_000);
}

#[test]
fn saturating_add_clamps_at_maximum() {
    let max = Duration::max_value();
    assert_eq!(max.saturating_add(Duration::from_nanos(1)), max);
    assert_eq!(max.saturating_add(max), max);
    assert_eq!(Duration::new(u64::MAX, 999_999_998).saturating_add(Duration::from_nanos(1)), max);
}

#[test]
fn maximum_duration_has_expected_parts() {
    let max = Duration::max_value();
    assert_eq!(max.as_secs(), u64::MAX);
    assert_eq!(max.subsec_nanos(), 999_999_999);
    assert_eq!(max.as_nanos(), u64::MAX as u128 * 1_000_000_000 + 999_999_999);
}
