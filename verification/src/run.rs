//! An executable model of the whole loop, and its scheduling laws.
//!
//! The real loop alternates terminal I/O with decisions; here the outside
//! work is handed in as plain values. One `ScriptStep` carries what one
//! iteration sees: the events the drain produced, the pause flag at the
//! update check, the measured delta time, and the running flag as the
//! handlers and the update left it. The model loop then produces exactly the
//! calls the real loop makes, in order.

use vstd::prelude::*;

use crate::event::{dispatch_of, Action, InputEvent};
use crate::plan::{
    lemma_dispatch_is_not_update, plan_iteration, spec_dispatches, spec_iteration_plan,
    spec_pace_phase, spec_render_phase, spec_update_phase,
};
use crate::sim::{
    lemma_apply_plan_concat, lemma_apply_plan_singleton, lemma_no_resize_keeps_viewport,
    lemma_no_update_keeps_ticks, spec_apply_action, spec_apply_plan, Sim,
};

verus! {

/// One iteration's inputs, with the decisions of the loop's collaborators
/// handed back as plain values.
#[derive(Debug)]
pub struct ScriptStep {
    /// The events the non-blocking drain produced, in arrival order.
    pub events: Vec<InputEvent>,
    /// The pause flag as read at the update check.
    pub paused: bool,
    /// The running flag as the input handlers and the update left it; the
    /// loop reads it only at the top of the next iteration.
    pub running_after: bool,
    /// Measured elapsed nanoseconds since the previous iteration's
    /// timestamp.
    pub delta: u64,
}

/// The complete schedule of the iteration a script step describes.
pub open spec fn spec_step_plan(step: ScriptStep, tick: u64) -> Seq<Action> {
    spec_iteration_plan(step.paused, step.events@, step.delta, tick)
}

/// The whole trace of the loop over a script: iterations run in order, and
/// the running flag is consulted only between iterations, so a stopping
/// iteration still contributes its complete plan and nothing follows it.
pub open spec fn spec_loop_trace(script: Seq<ScriptStep>, tick: u64) -> Seq<Action>
    decreases script.len(),
{
    if script.len() == 0 {
        Seq::empty()
    } else if script[0].running_after {
        spec_step_plan(script[0], tick) + spec_loop_trace(script.skip(1), tick)
    } else {
        spec_step_plan(script[0], tick)
    }
}

/// The concatenated complete plans of the first `n` iterations of a script.
pub open spec fn spec_first_plans(script: Seq<ScriptStep>, tick: u64, n: int) -> Seq<Action>
    decreases n,
{
    if n <= 0 || script.len() == 0 {
        Seq::empty()
    } else {
        spec_step_plan(script[0], tick) + spec_first_plans(script.skip(1), tick, n - 1)
    }
}

/// Runs the loop over a script and returns the exact sequence of calls it
/// makes: the loop's trace.
pub fn run_model(script: &Vec<ScriptStep>, tick: u64) -> (trace: Vec<Action>)
    ensures
        trace@ == spec_loop_trace(script@, tick),
{
    let mut trace: Vec<Action> = Vec::new();
    let mut running: bool = true;
    let mut i: usize = 0;
    proof {
        assert(script@.skip(0) =~= script@);
        assert(trace@ + spec_loop_trace(script@, tick) =~= spec_loop_trace(script@, tick));
    }
    while running && i < script.len()
        invariant
            i <= script@.len(),
            running ==> spec_loop_trace(script@, tick) == trace@ + spec_loop_trace(
                script@.skip(i as int),
                tick,
            ),
            !running ==> spec_loop_trace(script@, tick) == trace@,
        decreases script@.len() - i,
    {
        let step = &script[i];
        let ghost pre_trace = trace@;
        let ghost tail = script@.skip(i as int);
        let mut plan = plan_iteration(step.paused, &step.events, step.delta, tick);
        trace.append(&mut plan);
        running = step.running_after;
        i = i + 1;
        proof {
            assert(tail[0] == script@[i - 1]);
            assert(tail.skip(1) =~= script@.skip(i as int));
            if running {
                assert(spec_loop_trace(tail, tick) == spec_step_plan(tail[0], tick)
                    + spec_loop_trace(script@.skip(i as int), tick));
                assert(pre_trace + spec_loop_trace(tail, tick) =~= trace@ + spec_loop_trace(
                    script@.skip(i as int),
                    tick,
                ));
            } else {
                assert(spec_loop_trace(tail, tick) == spec_step_plan(tail[0], tick));
            }
        }
    }
    proof {
        if running {
            assert(script@.skip(script@.len() as int) =~= Seq::<ScriptStep>::empty());
            assert(trace@ + spec_loop_trace(script@.skip(script@.len() as int), tick) =~= trace@);
        }
    }
    trace
}

/// Shutdown ordering: when the running flag goes false during iteration `k`
/// and not earlier, the loop's trace is exactly the complete plans of
/// iterations `0..=k` — the stopping iteration still performs its update and
/// its full render, and nothing runs after it.
pub proof fn lemma_shutdown_completes_iteration(script: Seq<ScriptStep>, tick: u64, k: int)
    requires
        0 <= k < script.len(),
        forall|j: int| 0 <= j < k ==> (#[trigger] script[j]).running_after,
        !script[k].running_after,
    ensures
        spec_loop_trace(script, tick) == spec_first_plans(script, tick, k + 1),
    decreases k,
{
    if k == 0 {
        assert(spec_first_plans(script.skip(1), tick, 0) == Seq::<Action>::empty());
        assert(spec_first_plans(script, tick, 1) == spec_step_plan(script[0], tick)
            + Seq::<Action>::empty());
        assert(spec_step_plan(script[0], tick) + Seq::<Action>::empty() =~= spec_step_plan(
            script[0],
            tick,
        ));
    } else {
        assert(script[0].running_after);
        let tail = script.skip(1);
        assert(forall|j: int| 0 <= j < k - 1 ==> (#[trigger] tail[j]).running_after);
        assert(tail[k - 1] == script[k]);
        lemma_shutdown_completes_iteration(tail, tick, k - 1);
    }
}

/// A paused iteration leaves the simulation's tick count unchanged, whatever
/// events arrive and however long it took.
pub proof fn lemma_paused_iteration_keeps_ticks(
    s: Sim,
    events: Seq<InputEvent>,
    delta: u64,
    tick: u64,
)
    ensures
        spec_apply_plan(s, spec_iteration_plan(true, events, delta, tick)).ticks == s.ticks,
{
    let plan = spec_iteration_plan(true, events, delta, tick);
    assert forall|i: int| 0 <= i < plan.len() implies plan[i] != Action::Update by {
        if i < events.len() {
            lemma_dispatch_is_not_update(events[i]);
        }
    }
    lemma_no_update_keeps_ticks(s, plan);
}

/// A paused iteration whose drain saw no resize leaves the loop-visible
/// simulation state exactly as it was — and the render still runs every
/// such iteration, however many follow one another.
pub proof fn lemma_paused_quiet_iteration_keeps_sim(
    s: Sim,
    events: Seq<InputEvent>,
    delta: u64,
    tick: u64,
)
    requires
        forall|j: int| 0 <= j < events.len() ==> !((#[trigger] events[j]) is Resize),
    ensures
        spec_apply_plan(s, spec_iteration_plan(true, events, delta, tick)) == s,
{
    let plan = spec_iteration_plan(true, events, delta, tick);
    lemma_paused_iteration_keeps_ticks(s, events, delta, tick);
    assert forall|i: int| 0 <= i < plan.len() implies !((#[trigger] plan[i]) is ResizeViewport) by {
        if i < events.len() {
            assert(plan[i] == dispatch_of(events[i]));
            lemma_dispatch_resize_iff(events[i]);
        }
    }
    lemma_no_resize_keeps_viewport(s, plan);
}

/// An unpaused iteration advances the simulation by exactly one tick — never
/// zero, never more, whatever events arrive and however long it took: the
/// fixed-step pacer does not double-apply ticks to catch up.
pub proof fn lemma_unpaused_iteration_one_tick(
    s: Sim,
    events: Seq<InputEvent>,
    delta: u64,
    tick: u64,
)
    requires
        s.ticks < u64::MAX,
    ensures
        spec_apply_plan(s, spec_iteration_plan(false, events, delta, tick)).ticks == s.ticks + 1,
{
    let d = spec_dispatches(events);
    let rest = spec_update_phase(false) + spec_render_phase() + spec_pace_phase(delta, tick);
    assert(spec_iteration_plan(false, events, delta, tick) =~= d + rest);
    lemma_apply_plan_concat(s, d, rest);
    assert forall|i: int| 0 <= i < d.len() implies d[i] != Action::Update by {
        lemma_dispatch_is_not_update(events[i]);
    }
    lemma_no_update_keeps_ticks(s, d);
    let s1 = spec_apply_plan(s, d);
    assert(rest[0] == Action::Update);
    let s2 = spec_apply_action(s1, Action::Update);
    assert(s2.ticks == s.ticks + 1);
    assert(rest.skip(1) =~= spec_render_phase() + spec_pace_phase(delta, tick));
    assert(forall|i: int| 0 <= i < rest.skip(1).len() ==> rest.skip(1)[i] != Action::Update);
    lemma_no_update_keeps_ticks(s2, rest.skip(1));
}

/// An event is dispatched to the resize handler exactly when it is a resize.
pub proof fn lemma_dispatch_resize_iff(e: InputEvent)
    ensures
        (dispatch_of(e) is ResizeViewport) <==> (e is Resize),
{
}

/// A resize arriving mid-drain governs the rest of the iteration: when the
/// last resize among the drained events carries `(w, h)`, the viewport holds
/// exactly `(w, h)` from the end of the drain on — so the iteration's own
/// render already uses the new dimensions, and so does every later iteration
/// that sees no further resize.
pub proof fn lemma_resize_governs_renders(
    s: Sim,
    paused: bool,
    events: Seq<InputEvent>,
    delta: u64,
    tick: u64,
    k: int,
    w: u16,
    h: u16,
)
    requires
        0 <= k < events.len(),
        events[k] == InputEvent::Resize(w, h),
        forall|j: int| k < j < events.len() ==> !((#[trigger] events[j]) is Resize),
    ensures
        spec_apply_plan(s, spec_dispatches(events)).viewport_width == w as usize,
        spec_apply_plan(s, spec_dispatches(events)).viewport_height == h as usize,
        spec_apply_plan(s, spec_iteration_plan(paused, events, delta, tick)).viewport_width == w
            as usize,
        spec_apply_plan(s, spec_iteration_plan(paused, events, delta, tick)).viewport_height == h
            as usize,
{
    let d = spec_dispatches(events);
    assert(d =~= d.take(k + 1) + d.skip(k + 1));
    lemma_apply_plan_concat(s, d.take(k + 1), d.skip(k + 1));
    assert(d.take(k + 1) =~= d.take(k) + seq![d[k]]);
    lemma_apply_plan_concat(s, d.take(k), seq![d[k]]);
    let s_before = spec_apply_plan(s, d.take(k));
    lemma_apply_plan_singleton(s_before, d[k]);
    assert(d[k] == Action::ResizeViewport(w as usize, h as usize));
    let s_resized = spec_apply_action(s_before, d[k]);
    assert(s_resized.viewport_width == w as usize);
    assert(s_resized.viewport_height == h as usize);
    assert(spec_apply_plan(s, d.take(k + 1)) == s_resized);
    assert forall|i: int| 0 <= i < d.skip(k + 1).len() implies !((#[trigger] d.skip(k + 1)[i])
        is ResizeViewport) by {
        assert(d.skip(k + 1)[i] == dispatch_of(events[k + 1 + i]));
        lemma_dispatch_resize_iff(events[k + 1 + i]);
    }
    lemma_no_resize_keeps_viewport(s_resized, d.skip(k + 1));
    let s_drained = spec_apply_plan(s, d);
    assert(s_drained.viewport_width == w as usize);
    assert(s_drained.viewport_height == h as usize);
    let rest = spec_update_phase(paused) + spec_render_phase() + spec_pace_phase(delta, tick);
    assert(spec_iteration_plan(paused, events, delta, tick) =~= d + rest);
    lemma_apply_plan_concat(s, d, rest);
    assert(forall|i: int| 0 <= i < rest.len() ==> !((#[trigger] rest[i]) is ResizeViewport));
    lemma_no_resize_keeps_viewport(s_drained, rest);
}

} // verus!

