//! Per-participant avatar state and per-frame input intent.
//!
//! A `PlayerState` is one participant's simulation state: identity, seat,
//! position and velocity (snapshots owned by the physics collaborator,
//! advanced here), gameplay attributes and the grounded/jump flags. A
//! `FrameInput` is one participant's intent for one simulation tick.

use vstd::prelude::*;
use crate::config::UNIT;

verus! {

/// Largest movement speed or jump force a well-formed player may carry
/// (1000 world units per second), so impulse arithmetic stays in range.
pub const MAX_IMPULSE: i64 = 1_000_000;

/// Default movement speed: 5 world units per second.
pub const DEFAULT_MOVEMENT_SPEED: i64 = 5_000;

/// Default jump force: 8 world units per second.
pub const DEFAULT_JUMP_FORCE: i64 = 8_000;

/// Default spawn height: 1 world unit above the floor plane.
pub const SPAWN_HEIGHT: i64 = 1_000;

/// A point or direction in arena space, fixed-point (thousandths of a unit).
#[derive(Clone, Copy, Debug, PartialEq, Eq, Structural)]
pub struct Vec3 {
    pub x: i64,
    pub y: i64,
    pub z: i64,
}

impl Vec3 {
    /// The origin / null vector.
    pub fn zero() -> (v: Vec3)
        ensures
            v == (Vec3 { x: 0, y: 0, z: 0 }),
    {
        Vec3 { x: 0, y: 0, z: 0 }
    }
}

/// One participant's simulation state.
///
/// `network_slot` is the seat index assigned at session start; it indexes
/// into the per-frame input array on every peer. `is_grounded` is written
/// only by the ground-contact resolver; `can_jump` is true only while
/// grounded and not yet consumed for the current contact.
#[derive(Clone, Copy, Debug, PartialEq, Eq, Structural)]
pub struct PlayerState {
    pub id: u128,
    pub network_slot: usize,
    pub position: Vec3,
    pub velocity: Vec3,
    pub movement_speed: i64,
    pub jump_force: i64,
    pub is_grounded: bool,
    pub can_jump: bool,
    pub health: i32,
    pub is_local: bool,
}

impl PlayerState {
    /// Gameplay attributes are non-negative and bounded, so that one tick's
    /// impulse arithmetic cannot leave `i64`.
    pub open spec fn wf(self) -> bool {
        &&& 0 <= self.movement_speed <= MAX_IMPULSE
        &&& 0 <= self.jump_force <= MAX_IMPULSE
    }

    /// A freshly spawned avatar for the given seat: default attributes, at
    /// the spawn point, airborne until the resolver grounds it.
    pub fn new(id: u128, network_slot: usize, is_local: bool) -> (p: PlayerState)
        ensures
            p.wf(),
            p == (PlayerState {
                id,
                network_slot,
                position: Vec3 { x: 0, y: SPAWN_HEIGHT, z: 0 },
                velocity: Vec3 { x: 0, y: 0, z: 0 },
                movement_speed: DEFAULT_MOVEMENT_SPEED,
                jump_force: DEFAULT_JUMP_FORCE,
                is_grounded: false,
                can_jump: true,
                health: 1,
                is_local,
            }),
    {
        PlayerState {
            id,
            network_slot,
            position: Vec3 { x: 0, y: SPAWN_HEIGHT, z: 0 },
            velocity: Vec3 { x: 0, y: 0, z: 0 },
            movement_speed: DEFAULT_MOVEMENT_SPEED,
            jump_force: DEFAULT_JUMP_FORCE,
            is_grounded: false,
            can_jump: true,
            health: 1,
            is_local,
        }
    }
}

impl Default for PlayerState {
    /// The default avatar: local, seat 0, identity 0.
    fn default() -> (p: PlayerState)
        ensures
            p.wf(),
            p == PlayerState::new_spec(0, 0, true),
    {
        PlayerState::new(0, 0, true)
    }
}

impl PlayerState {
    /// What `new` returns, as a spec-level value.
    pub open spec fn new_spec(id: u128, network_slot: usize, is_local: bool) -> PlayerState {
        PlayerState {
            id,
            network_slot,
            position: Vec3 { x: 0, y: SPAWN_HEIGHT, z: 0 },
            velocity: Vec3 { x: 0, y: 0, z: 0 },
            movement_speed: DEFAULT_MOVEMENT_SPEED,
            jump_force: DEFAULT_JUMP_FORCE,
            is_grounded: false,
            can_jump: true,
            health: 1,
            is_local,
        }
    }
}

/// One participant's intent for one simulation tick.
///
/// Movement components are fixed-point fractions of full deflection, each in
/// `[-UNIT, UNIT]`, normalized before transmission so every peer resimulates
/// the identical vector. `jump` is edge-triggered.
#[derive(Clone, Copy, Debug, PartialEq, Eq, Structural)]
pub struct FrameInput {
    pub movement_x: i64,
    pub movement_y: i64,
    pub jump: bool,
    pub shoot: bool,
}

impl FrameInput {
    /// Movement components are within full deflection. Inputs that are not
    /// are treated as neutral by the frame step rather than propagated.
    pub open spec fn wf(self) -> bool {
        &&& -UNIT <= self.movement_x <= UNIT
        &&& -UNIT <= self.movement_y <= UNIT
    }

    /// The neutral input: no movement, no jump, no shot.
    pub fn neutral() -> (i: FrameInput)
        ensures
            i == (FrameInput { movement_x: 0, movement_y: 0, jump: false, shoot: false }),
            i.wf(),
    {
        FrameInput { movement_x: 0, movement_y: 0, jump: false, shoot: false }
    }
}

impl Default for FrameInput {
    fn default() -> (i: FrameInput)
        ensures
            i == (FrameInput { movement_x: 0, movement_y: 0, jump: false, shoot: false }),
            i.wf(),
    {
        FrameInput::neutral()
    }
}

} // verus!
