//! The deterministic frame step, boundary containment, jump gating, ground
//! resolution and rollback replay, on concrete values.

use ribbon_arena::config::ArenaConfig;
use ribbon_arena::ground::{
    update_ground_detection, BodyRef, ContactEvent, ContactPhase,
};
use ribbon_arena::player::{FrameInput, PlayerState, Vec3};
use ribbon_arena::rollback::{simulate, tick, FrameData};
use ribbon_arena::step::{handle_boundaries, step, step_player};

fn grounded_player() -> PlayerState {
    let mut p = PlayerState::new(1, 0, true);
    p.is_grounded = true;
    p.can_jump = true;
    p
}

fn neutral() -> FrameInput {
    FrameInput { movement_x: 0, movement_y: 0, jump: false, shoot: false }
}

#[test]
fn step_is_deterministic() {
    let c = ArenaConfig::new();
    let players = vec![grounded_player(), PlayerState::new(2, 1, false)];
    let inputs = vec![
        FrameInput { movement_x: 707, movement_y: 707, jump: true, shoot: false },
        FrameInput { movement_x: -1000, movement_y: 0, jump: false, shoot: true },
    ];
    let r1 = step(&c, &players, &inputs);
    let r2 = step(&c, &players, &inputs);
    assert_eq!(r1, r2);
}

#[test]
fn boundary_scenario_overshoot_clamps_and_zeroes() {
    // A player five units past the long wall, moving outward at 3 units/s.
    let c = ArenaConfig::new();
    let mut p = grounded_player();
    p.position = Vec3 { x: c.half_length + 5_000, y: 1_000, z: 0 };
    p.velocity = Vec3 { x: 3_000, y: 0, z: 0 };
    let r = step_player(&c, &p, &neutral());
    assert_eq!(r.position.x, c.half_length);
    assert_eq!(r.velocity.x, 0);
    assert_eq!(r.position.y, 1_000);
    assert_eq!(r.position.z, 0);
}

#[test]
fn boundary_clamp_is_idempotent() {
    let c = ArenaConfig::new();
    let mut p = grounded_player();
    p.position = Vec3 { x: -200_000, y: -50, z: 30_000 };
    p.velocity = Vec3 { x: -1_000, y: -2_000, z: 4_000 };
    let once = step_player(&c, &p, &neutral());
    let twice = step_player(&c, &once, &neutral());
    assert_eq!(once, twice);
    assert_eq!(once.position.x, -c.half_length);
    assert_eq!(once.position.z, c.half_width);
    assert_eq!(once.position.y, c.floor_y);
    assert_eq!(once.velocity, Vec3 { x: 0, y: 0, z: 0 });
}

#[test]
fn handle_boundaries_clamps_every_player() {
    let c = ArenaConfig::new();
    let mut inside = grounded_player();
    inside.position = Vec3 { x: 10_000, y: 2_000, z: -10_000 };
    inside.velocity = Vec3 { x: 500, y: -500, z: 500 };
    let mut outside = PlayerState::new(2, 1, false);
    outside.position = Vec3 { x: 0, y: 3_000, z: 80_000 };
    outside.velocity = Vec3 { x: 0, y: 0, z: 9_000 };
    let mut players = vec![inside, outside];
    handle_boundaries(&c, &mut players);
    assert_eq!(players[0], inside);
    assert_eq!(players[1].position.z, c.half_width);
    assert_eq!(players[1].velocity.z, 0);
}

#[test]
fn jump_honored_only_when_grounded_and_eligible() {
    let c = ArenaConfig::new();
    let jump_input = FrameInput { movement_x: 0, movement_y: 0, jump: true, shoot: false };

    let p = grounded_player();
    let r = step_player(&c, &p, &jump_input);
    assert_eq!(r.velocity.y, p.velocity.y + p.jump_force);
    assert!(!r.can_jump);

    // A second jump without the resolver re-granting eligibility does nothing.
    let r2 = step_player(&c, &r, &jump_input);
    assert_eq!(r2.velocity.y, r.velocity.y);
    assert!(!r2.can_jump);

    // Airborne players cannot jump, eligible or not.
    let mut airborne = grounded_player();
    airborne.is_grounded = false;
    let r3 = step_player(&c, &airborne, &jump_input);
    assert_eq!(r3.velocity.y, airborne.velocity.y);
    assert!(r3.can_jump);
}

#[test]
fn movement_below_deadzone_is_ignored() {
    let c = ArenaConfig::new();
    let p = grounded_player();
    // Deflection 10/1000 at speed 5 gives a force of 0.05 units/s: under 0.1.
    let tiny = FrameInput { movement_x: 10, movement_y: 0, jump: false, shoot: false };
    let r = step_player(&c, &p, &tiny);
    assert_eq!(r.velocity, p.velocity);
}

#[test]
fn movement_impulse_joins_velocity() {
    let c = ArenaConfig::new();
    let p = grounded_player();
    // Full forward deflection: force (0, 0, -speed).
    let fwd = FrameInput { movement_x: 0, movement_y: 1000, jump: false, shoot: false };
    let r = step_player(&c, &p, &fwd);
    assert_eq!(r.velocity.z, -p.movement_speed);
    assert_eq!(r.velocity.x, 0);
    // Diagonal deflection scales each axis by 707/1000.
    let diag = FrameInput { movement_x: 707, movement_y: 707, jump: false, shoot: false };
    let r2 = step_player(&c, &p, &diag);
    assert_eq!(r2.velocity.x, 707 * p.movement_speed / 1000);
    assert_eq!(r2.velocity.z, -(707 * p.movement_speed / 1000));
}

#[test]
fn malformed_input_degrades_to_neutral_movement() {
    let c = ArenaConfig::new();
    let p = grounded_player();
    let corrupt = FrameInput { movement_x: 5_000, movement_y: 0, jump: false, shoot: false };
    let r = step_player(&c, &p, &corrupt);
    assert_eq!(r.velocity, p.velocity);
    // The jump flag is a plain bool and is still honored.
    let corrupt_jump = FrameInput { movement_x: 5_000, movement_y: 0, jump: true, shoot: false };
    let r2 = step_player(&c, &p, &corrupt_jump);
    assert_eq!(r2.velocity.y, p.velocity.y + p.jump_force);
}

fn begin_event(seat: usize) -> ContactEvent {
    ContactEvent {
        phase: ContactPhase::Started,
        body_a: BodyRef::Player { seat },
        body_b: BodyRef::Groundable,
    }
}

fn end_event(seat: usize) -> ContactEvent {
    ContactEvent {
        phase: ContactPhase::Ended,
        body_a: BodyRef::Groundable,
        body_b: BodyRef::Player { seat },
    }
}

#[test]
fn contact_begin_grounds_player() {
    let mut p = PlayerState::new(1, 0, true);
    p.is_grounded = false;
    p.can_jump = false;
    let mut players = vec![p];
    update_ground_detection(&mut players, &vec![begin_event(0)], &vec![false]);
    assert!(players[0].is_grounded);
    assert!(players[0].can_jump);
}

#[test]
fn contact_end_with_ray_hit_stays_grounded() {
    let mut players = vec![grounded_player()];
    update_ground_detection(&mut players, &vec![end_event(0)], &vec![true]);
    assert!(players[0].is_grounded);
    assert!(players[0].can_jump);
}

#[test]
fn contact_end_without_ray_hit_clears_grounded() {
    let mut players = vec![grounded_player()];
    update_ground_detection(&mut players, &vec![end_event(0)], &vec![false]);
    assert!(!players[0].is_grounded);
    assert!(!players[0].can_jump);
}

#[test]
fn simultaneous_begin_and_end_defer_to_the_ray() {
    // Leaving one surface while stepping onto another: the end event's ray
    // still sees ground, so the contact is kept.
    let mut p = PlayerState::new(1, 0, true);
    p.is_grounded = false;
    p.can_jump = false;
    let mut players = vec![p];
    let events = vec![end_event(0), begin_event(0)];
    update_ground_detection(&mut players, &events, &vec![true]);
    assert!(players[0].is_grounded);
    assert!(players[0].can_jump);
}

#[test]
fn events_for_unknown_seats_are_ignored() {
    let mut players = vec![grounded_player()];
    let events = vec![begin_event(7), end_event(3)];
    let before = players[0];
    update_ground_detection(&mut players, &events, &vec![false]);
    assert_eq!(players[0], before);
}

#[test]
fn non_groundable_contacts_do_not_ground() {
    let mut p = PlayerState::new(1, 0, true);
    p.is_grounded = false;
    let mut players = vec![p];
    let events = vec![ContactEvent {
        phase: ContactPhase::Started,
        body_a: BodyRef::Player { seat: 0 },
        body_b: BodyRef::Other,
    }];
    update_ground_detection(&mut players, &events, &vec![false]);
    assert!(!players[0].is_grounded);
}

fn scripted_frames() -> Vec<FrameData> {
    let mut frames = Vec::new();
    for k in 0..6usize {
        let inputs = vec![
            FrameInput {
                movement_x: if k % 2 == 0 { 1000 } else { -1000 },
                movement_y: 0,
                jump: k == 2,
                shoot: false,
            },
            FrameInput { movement_x: 0, movement_y: 707, jump: false, shoot: k == 1 },
        ];
        let events = if k == 0 {
            vec![begin_event(0), begin_event(1)]
        } else if k == 3 {
            vec![end_event(0)]
        } else {
            Vec::new()
        };
        frames.push(FrameData { events, ray_hits: vec![k < 4, true], inputs });
    }
    frames
}

#[test]
fn rollback_resimulation_matches_live_run() {
    let c = ArenaConfig::new();
    let initial = vec![PlayerState::new(10, 0, true), PlayerState::new(20, 1, false)];
    let frames = scripted_frames();

    // The live run: all six frames straight through.
    let mut live = initial.clone();
    simulate(&c, &mut live, &frames);

    // Snapshot after every prefix, then resimulate the rest.
    for split in 0..=frames.len() {
        let mut snapshot = initial.clone();
        let head: Vec<FrameData> = scripted_frames().drain(..split).collect();
        simulate(&c, &mut snapshot, &head);
        let tail: Vec<FrameData> = scripted_frames().drain(split..).collect();
        simulate(&c, &mut snapshot, &tail);
        assert_eq!(snapshot, live);
    }
}

#[test]
fn tick_resolves_ground_before_stepping() {
    // The player becomes grounded by this tick's begin event, so the same
    // tick's jump input is already honored.
    let c = ArenaConfig::new();
    let mut p = PlayerState::new(1, 0, true);
    p.is_grounded = false;
    p.can_jump = false;
    let mut players = vec![p];
    let frame = FrameData {
        events: vec![begin_event(0)],
        ray_hits: vec![true],
        inputs: vec![FrameInput { movement_x: 0, movement_y: 0, jump: true, shoot: false }],
    };
    tick(&c, &mut players, &frame);
    assert_eq!(players[0].velocity.y, p.velocity.y + p.jump_force);
    assert!(!players[0].can_jump);
    assert!(players[0].is_grounded);
}
