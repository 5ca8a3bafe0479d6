use platformer::controller::{
    ground_direction, jump_impulse, movement_force, plan, probe_accepts, ColliderId, Vec2i,
    JUMP_IMPULSE, MOVE_FORCE,
};
use platformer::frame::{sleep_nanos, Effect, Event, Key, LoopState, SimulationLoop, FRAME_NANOS};
use platformer::input::{horizontal_axis, replay_jump_edges, InputSnapshot, InputState};
use platformer::render::{plan_draws, primitive_of, DrawCall, Primitive, ShapeKind};

fn snapshot(current: bool, previous: bool) -> InputSnapshot {
    InputSnapshot { axis: 0, jump_current: current, jump_previous: previous }
}

#[test]
fn axis_is_right_minus_left() {
    assert_eq!(horizontal_axis(true, false), 1);
    assert_eq!(horizontal_axis(false, true), -1);
    assert_eq!(horizontal_axis(true, true), 0);
    assert_eq!(horizontal_axis(false, false), 0);
}

#[test]
fn jump_fires_on_rising_edges_only() {
    let presses = vec![true, true, true, false, true];
    assert_eq!(replay_jump_edges(&presses), vec![true, false, false, false, true]);
}

#[test]
fn held_jump_from_the_start_fires_once() {
    let presses = vec![true, true, true, true];
    assert_eq!(replay_jump_edges(&presses), vec![true, false, false, false]);
    assert_eq!(replay_jump_edges(&vec![]), Vec::<bool>::new());
}

#[test]
fn input_state_persists_jump_after_frame() {
    let mut state = InputState::new();
    state.set_jump_down(true);
    let first = state.sample(true, false);
    assert!(first.is_rising_edge());
    assert_eq!(first.axis, 1);
    state.end_frame(&first);
    assert!(state.jump_last_frame);
    let second = state.sample(false, true);
    assert!(!second.is_rising_edge());
    assert_eq!(second.axis, -1);
}

#[test]
fn force_follows_axis() {
    let s = InputSnapshot { axis: -1, jump_current: false, jump_previous: false };
    assert_eq!(movement_force(&s), Vec2i { x: -500, y: 0 });
    let p = plan(&InputSnapshot { axis: 1, jump_current: true, jump_previous: false });
    assert_eq!(p.force, Vec2i { x: MOVE_FORCE, y: 0 });
    assert!(p.probe_ground);
    let held = plan(&InputSnapshot { axis: 0, jump_current: true, jump_previous: true });
    assert_eq!(held.force, Vec2i { x: 0, y: 0 });
    assert!(!held.probe_ground);
}

#[test]
fn jump_granted_only_with_ground_hit() {
    assert_eq!(jump_impulse(&snapshot(true, false), true), Some(Vec2i { x: 0, y: -200 }));
    assert_eq!(jump_impulse(&snapshot(true, false), false), None);
    assert_eq!(jump_impulse(&snapshot(true, true), true), None);
    assert_eq!(jump_impulse(&snapshot(false, false), true), None);
    let down = ground_direction();
    assert_eq!(down, Vec2i { x: 0, y: 1 });
    assert_eq!(JUMP_IMPULSE, 200);
}

#[test]
fn probe_skips_own_collider() {
    let me = ColliderId { index: 0, generation: 0 };
    let floor = ColliderId { index: 1, generation: 0 };
    let reused = ColliderId { index: 0, generation: 1 };
    assert!(!probe_accepts(me, me));
    assert!(probe_accepts(floor, me));
    assert!(probe_accepts(reused, me));
}

#[test]
fn ball_cuboid_and_bare_body_give_two_draws() {
    let bodies = vec![Some(ShapeKind::Ball), Some(ShapeKind::Cuboid), None];
    let calls = plan_draws(&bodies);
    assert_eq!(
        calls,
        vec![
            DrawCall { body: 0, primitive: Primitive::FilledCircle },
            DrawCall { body: 1, primitive: Primitive::RotatedRect },
        ]
    );
}

#[test]
fn unknown_shapes_are_skipped() {
    let bodies = vec![None, Some(ShapeKind::Other), Some(ShapeKind::Cuboid)];
    assert_eq!(plan_draws(&bodies), vec![DrawCall { body: 2, primitive: Primitive::RotatedRect }]);
    assert_eq!(plan_draws(&vec![]), vec![]);
    assert_eq!(primitive_of(ShapeKind::Other), None);
    assert_eq!(primitive_of(ShapeKind::Ball), Some(Primitive::FilledCircle));
}

#[test]
fn escape_terminates_before_physics() {
    let mut lp = SimulationLoop::new(1000, 900);
    assert!(lp.is_running());
    let events = vec![Event::KeyDown(Key::Jump), Event::KeyDown(Key::Escape), Event::Resized(10, 20)];
    let effects = lp.drain_events(&events);
    assert_eq!(effects, vec![Effect::Nothing, Effect::Terminate, Effect::Nothing]);
    assert_eq!(lp.state, LoopState::Terminated);
    assert!(!lp.is_running());
    assert_eq!(lp.width, 1000);
    assert!(lp.input.jump_down);
}

#[test]
fn quit_terminates() {
    let mut lp = SimulationLoop::new(1000, 900);
    let effects = lp.drain_events(&vec![Event::Quit]);
    assert_eq!(effects, vec![Effect::Terminate]);
    assert!(!lp.is_running());
}

#[test]
fn other_events_keep_running() {
    let mut lp = SimulationLoop::new(1000, 900);
    let events = vec![
        Event::Resized(640, 480),
        Event::KeyDown(Key::Wireframe),
        Event::KeyDown(Key::Jump),
        Event::KeyUp(Key::Jump),
        Event::KeyDown(Key::Left),
        Event::Other,
        Event::KeyDown(Key::Wireframe),
    ];
    let effects = lp.drain_events(&events);
    assert_eq!(
        effects,
        vec![
            Effect::SetViewport(640, 480),
            Effect::SetWireframe(true),
            Effect::Nothing,
            Effect::Nothing,
            Effect::Nothing,
            Effect::Nothing,
            Effect::SetWireframe(false),
        ]
    );
    assert!(lp.is_running());
    assert_eq!((lp.width, lp.height), (640, 480));
    assert!(!lp.wireframe);
    assert!(!lp.input.jump_down);
}

#[test]
fn sleep_fills_the_frame_budget() {
    assert_eq!(FRAME_NANOS, 16_666_666);
    assert_eq!(sleep_nanos(0), 16_666_666);
    assert_eq!(sleep_nanos(6_666_666), 10_000_000);
    assert_eq!(sleep_nanos(16_666_666), 0);
    assert_eq!(sleep_nanos(50_000_000), 0);
}
