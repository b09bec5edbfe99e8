//! The loop-visible simulation state, and what executing a plan does to it.
//!
//! To the loop the game state is a collaborator: the only effects the loop's
//! own protocol pins down are that an update advances the simulation by
//! exactly one tick and that a resize dispatch sets the viewport to the new
//! dimensions. Everything else an action does is owned elsewhere and leaves
//! this model unchanged.

use vstd::prelude::*;

use crate::event::Action;

verus! {

/// What the loop can observe of the simulation: how many fixed ticks have
/// been applied, and the current viewport dimensions.
#[derive(Clone, Copy, Debug, PartialEq, Eq, Structural)]
pub struct Sim {
    pub ticks: u64,
    pub viewport_width: usize,
    pub viewport_height: usize,
}

/// The effect of one action on the loop-visible state: an update advances
/// exactly one tick, a resize dispatch installs the new viewport, every
/// other action leaves the state as it was.
pub open spec fn spec_apply_action(s: Sim, a: Action) -> Sim {
    match a {
        Action::Update => Sim { ticks: (s.ticks + 1) as u64, ..s },
        Action::ResizeViewport(w, h) => Sim { viewport_width: w, viewport_height: h, ..s },
        _ => s,
    }
}

/// The state after executing a whole plan in order.
pub open spec fn spec_apply_plan(s: Sim, plan: Seq<Action>) -> Sim
    decreases plan.len(),
{
    if plan.len() == 0 {
        s
    } else {
        spec_apply_plan(spec_apply_action(s, plan[0]), plan.skip(1))
    }
}

impl Sim {
    /// A fresh simulation: no ticks applied yet, the given viewport.
    pub fn new(viewport_width: usize, viewport_height: usize) -> (s: Sim)
        ensures
            s.ticks == 0,
            s.viewport_width == viewport_width,
            s.viewport_height == viewport_height,
    {
        Sim { ticks: 0, viewport_width, viewport_height }
    }
}

/// Executes one action against the loop-visible state.
pub fn apply_action(s: &mut Sim, a: &Action)
    requires
        *a is Update ==> old(s).ticks < u64::MAX,
    ensures
        *final(s) == spec_apply_action(*old(s), *a),
{
    match a {
        Action::Update => {
            s.ticks = s.ticks + 1;
        },
        Action::ResizeViewport(w, h) => {
            s.viewport_width = *w;
            s.viewport_height = *h;
        },
        _ => {},
    }
}

/// Executes a whole plan in order against the loop-visible state.
pub fn apply_plan(s: Sim, plan: &Vec<Action>) -> (r: Sim)
    requires
        s.ticks + plan@.len() <= u64::MAX,
    ensures
        r == spec_apply_plan(s, plan@),
{
    let mut cur = s;
    let mut i: usize = 0;
    proof {
        assert(plan@.skip(0) =~= plan@);
    }
    while i < plan.len()
        invariant
            i <= plan@.len(),
            s.ticks + plan@.len() <= u64::MAX,
            spec_apply_plan(s, plan@) == spec_apply_plan(cur, plan@.skip(i as int)),
            cur.ticks <= s.ticks + i,
        decreases plan@.len() - i,
    {
        proof {
            assert(plan@.skip(i as int).len() > 0);
            assert(plan@.skip(i as int)[0] == plan@[i as int]);
            assert(plan@.skip(i as int).skip(1) =~= plan@.skip(i as int + 1));
        }
        apply_action(&mut cur, &plan[i]);
        i = i + 1;
    }
    proof {
        assert(plan@.skip(plan@.len() as int) =~= Seq::<Action>::empty());
    }
    cur
}

/// Splitting a plan splits its execution: running the concatenation of two
/// plans is running the first, then the second from where the first ended.
pub proof fn lemma_apply_plan_concat(s: Sim, a: Seq<Action>, b: Seq<Action>)
    ensures
        spec_apply_plan(s, a + b) == spec_apply_plan(spec_apply_plan(s, a), b),
    decreases a.len(),
{
    if a.len() == 0 {
        assert(a + b =~= b);
    } else {
        assert((a + b).skip(1) =~= a.skip(1) + b);
        lemma_apply_plan_concat(spec_apply_action(s, a[0]), a.skip(1), b);
    }
}

/// Executing a single action is the one-step plan.
pub proof fn lemma_apply_plan_singleton(s: Sim, a: Action)
    ensures
        spec_apply_plan(s, seq![a]) == spec_apply_action(s, a),
{
    let p = seq![a];
    assert(p[0] == a);
    assert(p.skip(1) =~= Seq::<Action>::empty());
    assert(spec_apply_plan(s, p) == spec_apply_plan(spec_apply_action(s, a), p.skip(1)));
    assert(spec_apply_plan(spec_apply_action(s, a), p.skip(1)) == spec_apply_action(s, a));
}

/// A plan with no resize dispatch in it leaves the viewport exactly where it
/// was.
pub proof fn lemma_no_resize_keeps_viewport(s: Sim, plan: Seq<Action>)
    requires
        forall|i: int| 0 <= i < plan.len() ==> !((#[trigger] plan[i]) is ResizeViewport),
    ensures
        spec_apply_plan(s, plan).viewport_width == s.viewport_width,
        spec_apply_plan(s, plan).viewport_height == s.viewport_height,
    decreases plan.len(),
{
    if plan.len() > 0 {
        assert(forall|i: int|
            0 <= i < plan.skip(1).len() ==> plan.skip(1)[i] == plan[i + 1]);
        lemma_no_resize_keeps_viewport(spec_apply_action(s, plan[0]), plan.skip(1));
    }
}

/// A plan with no update in it leaves the tick count exactly where it was.
pub proof fn lemma_no_update_keeps_ticks(s: Sim, plan: Seq<Action>)
    requires
        forall|i: int| 0 <= i < plan.len() ==> plan[i] != Action::Update,
    ensures
        spec_apply_plan(s, plan).ticks == s.ticks,
    decreases plan.len(),
{
    if plan.len() > 0 {
        assert(forall|i: int|
            0 <= i < plan.skip(1).len() ==> plan.skip(1)[i] == plan[i + 1]);
        lemma_no_update_keeps_ticks(spec_apply_action(s, plan[0]), plan.skip(1));
    }
}

} // verus!
