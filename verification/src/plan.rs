//! The per-iteration schedule of the loop, and the loop's whole trace.
//!
//! One iteration dispatches every queued event in arrival order, updates the
//! simulation exactly once when not paused, always renders, and sleeps the
//! unspent part of the tick budget. The running flag is consulted only
//! between iterations, so an iteration that is begun always completes.

use vstd::prelude::*;

use crate::event::{dispatch_event, dispatch_of, Action, InputEvent};
use crate::pace::{pacing_sleep_nanos, spec_pacing_sleep};

verus! {

/// The dispatch calls owed to a queue of drained events, one per event, in
/// arrival order.
pub open spec fn spec_dispatches(events: Seq<InputEvent>) -> Seq<Action> {
    Seq::new(events.len(), |i: int| dispatch_of(events[i]))
}

/// The update phase: exactly one fixed-step update when not paused, nothing
/// when paused.
pub open spec fn spec_update_phase(paused: bool) -> Seq<Action> {
    if paused {
        Seq::empty()
    } else {
        seq![Action::Update]
    }
}

/// The render phase, run every iteration regardless of pause: hide the
/// cursor, draw the status line, draw the map viewport, then flush the
/// queued output in one batched write.
pub open spec fn spec_render_phase() -> Seq<Action> {
    seq![Action::HideCursor, Action::RenderStatus, Action::RenderMap, Action::Flush]
}

/// The pacing phase: one sleep for the unspent remainder of the tick budget,
/// or nothing when the iteration overran it.
pub open spec fn spec_pace_phase(delta: u64, tick: u64) -> Seq<Action> {
    if delta < tick {
        seq![Action::SleepNanos(spec_pacing_sleep(delta, tick))]
    } else {
        Seq::empty()
    }
}

/// The complete, ordered schedule of one loop iteration: every queued event
/// dispatched in arrival order, then the conditional update, then the full
/// render pass, then the pacing sleep.
pub open spec fn spec_iteration_plan(
    paused: bool,
    events: Seq<InputEvent>,
    delta: u64,
    tick: u64,
) -> Seq<Action> {
    spec_dispatches(events) + spec_update_phase(paused) + spec_render_phase()
        + spec_pace_phase(delta, tick)
}

/// Builds the schedule of one iteration from the drained events, the pause
/// flag, and the measured delta time.
pub fn plan_iteration(
    paused: bool,
    events: &Vec<InputEvent>,
    delta: u64,
    tick: u64,
) -> (plan: Vec<Action>)
    ensures
        plan@ == spec_iteration_plan(paused, events@, delta, tick),
{
    let mut plan: Vec<Action> = Vec::new();
    let mut i: usize = 0;
    while i < events.len()
        invariant
            i <= events@.len(),
            plan@ == spec_dispatches(events@.take(i as int)),
        decreases events@.len() - i,
    {
        plan.push(dispatch_event(&events[i]));
        i = i + 1;
        proof {
            assert(plan@ =~= spec_dispatches(events@.take(i as int)));
        }
    }
    proof {
        assert(events@.take(events@.len() as int) =~= events@);
    }
    if !paused {
        plan.push(Action::Update);
    }
    plan.push(Action::HideCursor);
    plan.push(Action::RenderStatus);
    plan.push(Action::RenderMap);
    plan.push(Action::Flush);
    if delta < tick {
        plan.push(Action::SleepNanos(pacing_sleep_nanos(delta, tick)));
    }
    proof {
        assert(plan@ =~= spec_iteration_plan(paused, events@, delta, tick));
    }
    plan
}

/// Every queued event is dispatched, in arrival order, before the iteration
/// proceeds: the plan's first entries are exactly the dispatches of the
/// events in order, none dropped, none deferred, none reordered, and the
/// update (when not paused) comes only after the last of them.
pub proof fn lemma_drain_in_order(paused: bool, events: Seq<InputEvent>, delta: u64, tick: u64)
    ensures
        spec_iteration_plan(paused, events, delta, tick).len() >= events.len(),
        forall|i: int|
            0 <= i < events.len() ==> #[trigger] spec_iteration_plan(
                paused,
                events,
                delta,
                tick,
            )[i] == dispatch_of(events[i]),
        !paused ==> spec_iteration_plan(paused, events, delta, tick)[events.len() as int]
            == Action::Update,
{
}

/// No dispatch is an update: the handlers an event goes to are distinct from
/// the simulation step.
pub proof fn lemma_dispatch_is_not_update(e: InputEvent)
    ensures
        dispatch_of(e) != Action::Update,
{
}

/// A paused iteration schedules no update at all, yet still renders: the
/// status line and the map are drawn every iteration regardless of pause.
pub proof fn lemma_paused_still_renders(events: Seq<InputEvent>, delta: u64, tick: u64)
    ensures
        !spec_iteration_plan(true, events, delta, tick).contains(Action::Update),
        spec_iteration_plan(true, events, delta, tick).contains(Action::RenderStatus),
        spec_iteration_plan(true, events, delta, tick).contains(Action::RenderMap),
{
    let plan = spec_iteration_plan(true, events, delta, tick);
    let n = events.len() as int;
    assert forall|j: int| 0 <= j < plan.len() implies plan[j] != Action::Update by {
        if j < n {
            lemma_dispatch_is_not_update(events[j]);
        }
    }
    assert(plan[n + 1] == Action::RenderStatus);
    assert(plan.contains(Action::RenderStatus));
    assert(plan[n + 2] == Action::RenderMap);
    assert(plan.contains(Action::RenderMap));
}

/// Every iteration's plan renders in full: one status draw, one map draw and
/// one flush, in that order, after every dispatch and after the update.
pub proof fn lemma_render_always_complete(
    paused: bool,
    events: Seq<InputEvent>,
    delta: u64,
    tick: u64,
)
    ensures
        spec_iteration_plan(paused, events, delta, tick).contains(Action::RenderStatus),
        spec_iteration_plan(paused, events, delta, tick).contains(Action::RenderMap),
        spec_iteration_plan(paused, events, delta, tick).contains(Action::Flush),
{
    let plan = spec_iteration_plan(paused, events, delta, tick);
    let base = events.len() as int + spec_update_phase(paused).len() as int;
    assert(plan[base + 1] == Action::RenderStatus);
    assert(plan.contains(Action::RenderStatus));
    assert(plan[base + 2] == Action::RenderMap);
    assert(plan.contains(Action::RenderMap));
    assert(plan[base + 3] == Action::Flush);
    assert(plan.contains(Action::Flush));
}

} // verus!
