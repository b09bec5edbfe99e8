//! Fixed-tick pacing: how long the loop sleeps at the end of an iteration.

use vstd::prelude::*;

verus! {

/// How many simulation ticks one second holds.
pub const TICKS_PER_SECOND: u64 = 1000;

/// Length of one tick in nanoseconds, derived once from the tick rate and
/// never recomputed.
pub const TICK_NANOS: u64 = 1_000_000_000 / TICKS_PER_SECOND;

/// Nanoseconds of one tick for a given rate.
pub fn tick_duration_nanos(ticks_per_second: u64) -> (n: u64)
    requires
        ticks_per_second > 0,
    ensures
        n == 1_000_000_000u64 / ticks_per_second,
{
    1_000_000_000u64 / ticks_per_second
}

/// How long the pacer sleeps after an iteration whose measured elapsed time
/// was `delta`: the unspent remainder of the tick budget, and nothing when
/// the iteration overran it. Never negative, and a slow iteration is never
/// compensated by extra ticks later.
pub open spec fn spec_pacing_sleep(delta: u64, tick: u64) -> u64 {
    if delta < tick {
        (tick - delta) as u64
    } else {
        0u64
    }
}

/// End-of-iteration sleep duration in nanoseconds.
pub fn pacing_sleep_nanos(delta: u64, tick: u64) -> (s: u64)
    ensures
        s == spec_pacing_sleep(delta, tick),
{
    if delta < tick {
        tick - delta
    } else {
        0
    }
}

/// A fast iteration is padded to exactly one tick: for every tick duration
/// `tick > 0`, when the iteration's own work took `eps < tick`, the work plus
/// the pacing sleep spans exactly `tick` nanoseconds.
pub proof fn lemma_pacing_fills_tick(eps: u64, tick: u64)
    requires
        eps < tick,
    ensures
        eps + spec_pacing_sleep(eps, tick) == tick,
{
}

/// An iteration that met or overran the tick budget is never slept: the next
/// iteration starts back-to-back.
pub proof fn lemma_overrun_never_sleeps(delta: u64, tick: u64)
    requires
        delta >= tick,
    ensures
        spec_pacing_sleep(delta, tick) == 0,
{
}

} // verus!
