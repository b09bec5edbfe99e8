use tickloop::pace::{pacing_sleep_nanos, tick_duration_nanos, TICKS_PER_SECOND, TICK_NANOS};

#[test]
fn tick_rate_constants() {
    assert_eq!(TICKS_PER_SECOND, 1000);
    assert_eq!(TICK_NANOS, 1_000_000);
}

#[test]
fn tick_duration_for_configured_rate() {
    assert_eq!(tick_duration_nanos(1000), 1_000_000);
}

#[test]
fn tick_duration_for_other_rates() {
    assert_eq!(tick_duration_nanos(1), 1_000_000_000);
    assert_eq!(tick_duration_nanos(60), 16_666_666);
}

#[test]
fn fast_iteration_sleeps_the_remainder() {
    assert_eq!(pacing_sleep_nanos(300_000, 1_000_000), 700_000);
}

#[test]
fn fast_iteration_plus_sleep_fills_the_tick() {
    let eps: u64 = 250_000;
    let tick: u64 = 1_000_000;
    assert_eq!(eps + pacing_sleep_nanos(eps, tick), tick);
}

#[test]
fn exact_budget_iteration_does_not_sleep() {
    assert_eq!(pacing_sleep_nanos(1_000_000, 1_000_000), 0);
}

#[test]
fn overrun_iteration_does_not_sleep() {
    assert_eq!(pacing_sleep_nanos(1_500_000, 1_000_000), 0);
    assert_eq!(pacing_sleep_nanos(u64::MAX, 1_000_000), 0);
}

#[test]
fn idle_iteration_sleeps_the_whole_tick() {
    assert_eq!(pacing_sleep_nanos(0, 1_000_000), 1_000_000);
    assert_eq!(pacing_sleep_nanos(0, u64::MAX), u64::MAX);
}

#[test]
fn zero_tick_never_sleeps() {
    assert_eq!(pacing_sleep_nanos(0, 0), 0);
    assert_eq!(pacing_sleep_nanos(5, 0), 0);
}
