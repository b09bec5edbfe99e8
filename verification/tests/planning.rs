use tickloop::event::{dispatch_event, Action, InputEvent};
use tickloop::plan::plan_iteration;
use tickloop::sim::{apply_action, apply_plan, Sim};

#[test]
fn key_events_go_to_the_key_handler() {
    assert_eq!(dispatch_event(&InputEvent::Key(113)), Action::DispatchKey(113));
}

#[test]
fn mouse_events_go_to_the_mouse_handler() {
    assert_eq!(dispatch_event(&InputEvent::Mouse(7)), Action::DispatchMouse(7));
}

#[test]
fn resize_events_go_to_the_resize_handler() {
    assert_eq!(
        dispatch_event(&InputEvent::Resize(80, 24)),
        Action::ResizeViewport(80, 24)
    );
}

#[test]
fn unpaused_iteration_schedules_everything_in_order() {
    let events = vec![
        InputEvent::Key(113),
        InputEvent::Mouse(7),
        InputEvent::Resize(80, 24),
    ];
    let plan = plan_iteration(false, &events, 0, 1_000_000);
    assert_eq!(
        plan,
        vec![
            Action::DispatchKey(113),
            Action::DispatchMouse(7),
            Action::ResizeViewport(80, 24),
            Action::Update,
            Action::HideCursor,
            Action::RenderStatus,
            Action::RenderMap,
            Action::Flush,
            Action::SleepNanos(1_000_000),
        ]
    );
}

#[test]
fn every_queued_event_is_dispatched_in_arrival_order_before_update() {
    let events = vec![
        InputEvent::Key(1),
        InputEvent::Key(2),
        InputEvent::Key(3),
        InputEvent::Key(4),
        InputEvent::Key(5),
    ];
    let plan = plan_iteration(false, &events, 500_000, 1_000_000);
    for i in 0..5u64 {
        assert_eq!(plan[i as usize], Action::DispatchKey(i + 1));
    }
    assert_eq!(plan[5], Action::Update);
    assert_eq!(plan.len(), 5 + 1 + 4 + 1);
}

#[test]
fn paused_iteration_skips_update_but_still_renders() {
    let events = vec![InputEvent::Key(112)];
    let plan = plan_iteration(true, &events, 400_000, 1_000_000);
    assert_eq!(
        plan,
        vec![
            Action::DispatchKey(112),
            Action::HideCursor,
            Action::RenderStatus,
            Action::RenderMap,
            Action::Flush,
            Action::SleepNanos(600_000),
        ]
    );
    assert!(!plan.contains(&Action::Update));
}

#[test]
fn overrun_iteration_schedules_no_sleep() {
    let events: Vec<InputEvent> = vec![];
    let plan = plan_iteration(false, &events, 2_000_000, 1_000_000);
    assert_eq!(
        plan,
        vec![
            Action::Update,
            Action::HideCursor,
            Action::RenderStatus,
            Action::RenderMap,
            Action::Flush,
        ]
    );
}

#[test]
fn update_advances_exactly_one_tick() {
    let events: Vec<InputEvent> = vec![];
    let plan = plan_iteration(false, &events, 0, 1_000_000);
    let before = Sim::new(120, 40);
    let after = apply_plan(before, &plan);
    assert_eq!(after.ticks, 1);
    assert_eq!(after.viewport_width, 120);
    assert_eq!(after.viewport_height, 40);
}

#[test]
fn paused_iteration_leaves_simulation_unchanged() {
    let events = vec![InputEvent::Key(1), InputEvent::Mouse(2)];
    let mut sim = Sim::new(120, 40);
    for _ in 0..10 {
        let plan = plan_iteration(true, &events, 0, 1_000_000);
        assert!(plan.contains(&Action::RenderStatus));
        assert!(plan.contains(&Action::RenderMap));
        sim = apply_plan(sim, &plan);
    }
    assert_eq!(sim, Sim::new(120, 40));
}

#[test]
fn resize_mid_drain_takes_effect_before_update_and_render() {
    let events = vec![
        InputEvent::Key(1),
        InputEvent::Resize(80, 24),
        InputEvent::Key(2),
    ];
    let plan = plan_iteration(false, &events, 0, 1_000_000);
    let resize_at = plan
        .iter()
        .position(|a| *a == Action::ResizeViewport(80, 24))
        .unwrap();
    let update_at = plan.iter().position(|a| *a == Action::Update).unwrap();
    let render_at = plan.iter().position(|a| *a == Action::RenderMap).unwrap();
    assert!(resize_at < update_at);
    assert!(update_at < render_at);
    let after = apply_plan(Sim::new(120, 40), &plan);
    assert_eq!(after.viewport_width, 80);
    assert_eq!(after.viewport_height, 24);
    assert_eq!(after.ticks, 1);
}

#[test]
fn last_resize_in_a_burst_wins() {
    let events = vec![InputEvent::Resize(80, 24), InputEvent::Resize(100, 30)];
    let plan = plan_iteration(false, &events, 0, 1_000_000);
    let after = apply_plan(Sim::new(500, 500), &plan);
    assert_eq!(after.viewport_width, 100);
    assert_eq!(after.viewport_height, 30);
}

#[test]
fn apply_action_touches_only_what_it_owns() {
    let mut sim = Sim::new(10, 10);
    apply_action(&mut sim, &Action::DispatchKey(9));
    apply_action(&mut sim, &Action::RenderStatus);
    apply_action(&mut sim, &Action::SleepNanos(5));
    assert_eq!(sim, Sim::new(10, 10));
    apply_action(&mut sim, &Action::Update);
    assert_eq!(sim.ticks, 1);
    apply_action(&mut sim, &Action::ResizeViewport(80, 24));
    assert_eq!(sim.viewport_width, 80);
    assert_eq!(sim.viewport_height, 24);
    assert_eq!(sim.ticks, 1);
}
