//! The deterministic frame step: movement impulse, jump impulse, boundary
//! clamp, for every seat in seat-index order.
//!
//! The step is a pure function of the arena configuration, the player states
//! (with grounded flags already resolved for this tick) and the per-seat
//! inputs. It reads nothing else, so re-executing it during a rollback
//! resimulation reproduces the identical result bit for bit.

use vstd::prelude::*;
use vstd::arithmetic::div_mod::{lemma_div_is_ordered, lemma_div_multiples_vanish};
use crate::config::{ArenaConfig, UNIT};
use crate::player::{FrameInput, PlayerState, Vec3, MAX_IMPULSE};

verus! {

/// Deadzone: horizontal force below 0.1 world units per second is ignored,
/// so near-zero input noise does not spam impulses.
pub const DEADZONE: i64 = 100;

/// `a + b` held to the `i64` range.
pub open spec fn sat_add(a: int, b: int) -> int {
    if a + b > i64::MAX {
        i64::MAX as int
    } else if a + b < i64::MIN {
        i64::MIN as int
    } else {
        a + b
    }
}

/// Saturating `i64` sum; impulses accumulate into velocities through this,
/// so the step is total over every representable state.
pub fn sat_add_i64(a: i64, b: i64) -> (r: i64)
    ensures
        r as int == sat_add(a as int, b as int),
{
    let s: i128 = a as i128 + b as i128;
    if s > i64::MAX as i128 {
        i64::MAX
    } else if s < i64::MIN as i128 {
        i64::MIN
    } else {
        s as i64
    }
}

/// A full-deflection fraction `c` (in `[-UNIT, UNIT]`) of `speed`,
/// truncated toward zero.
pub open spec fn scale_by_speed(c: int, speed: int) -> int {
    if c >= 0 {
        (c * speed) / (UNIT as int)
    } else {
        -(((-c) * speed) / (UNIT as int))
    }
}

/// How much of `speed` a non-negative deflection `c` demands, with the
/// bounds the callers need.
fn scaled_fraction(c: i64, speed: i64) -> (r: i64)
    requires
        0 <= c <= UNIT,
        0 <= speed <= MAX_IMPULSE,
    ensures
        r as int == (c * speed) / (UNIT as int),
        0 <= r <= speed,
{
    proof {
        assert(0 <= c * speed <= UNIT * speed) by (nonlinear_arith)
            requires
                0 <= c <= UNIT,
                0 <= speed,
        ;
        lemma_div_is_ordered(0, c * speed, UNIT as int);
        lemma_div_is_ordered(c * speed, UNIT * speed, UNIT as int);
        lemma_div_multiples_vanish(speed as int, UNIT as int);
    }
    let prod: i64 = c * speed;
    let q: u64 = (prod as u64) / (UNIT as u64);
    q as i64
}

/// `scale_by_speed` on signed deflections.
fn scale_by_speed_exec(c: i64, speed: i64) -> (r: i64)
    requires
        -UNIT <= c <= UNIT,
        0 <= speed <= MAX_IMPULSE,
    ensures
        r as int == scale_by_speed(c as int, speed as int),
        -speed <= r <= speed,
{
    if c >= 0 {
        scaled_fraction(c, speed)
    } else {
        let m = scaled_fraction(-c, speed);
        -m
    }
}

/// Horizontal force along x that an input demands of a player moving at
/// `speed`; a malformed input demands none.
pub open spec fn force_x(input: FrameInput, speed: int) -> int {
    if input.wf() {
        scale_by_speed(input.movement_x as int, speed)
    } else {
        0
    }
}

/// Horizontal force along z; forward input is negative z.
pub open spec fn force_z(input: FrameInput, speed: int) -> int {
    if input.wf() {
        -scale_by_speed(input.movement_y as int, speed)
    } else {
        0
    }
}

/// The deadzone test, on the squared force magnitude.
pub open spec fn exceeds_deadzone(fx: int, fz: int) -> bool {
    fx * fx + fz * fz > DEADZONE * DEADZONE
}

/// The movement phase: the horizontal force joins the velocity as an
/// impulse, if it clears the deadzone.
pub open spec fn apply_movement_spec(p: PlayerState, input: FrameInput) -> PlayerState {
    let fx = force_x(input, p.movement_speed as int);
    let fz = force_z(input, p.movement_speed as int);
    if exceeds_deadzone(fx, fz) {
        PlayerState {
            velocity: Vec3 {
                x: sat_add(p.velocity.x as int, fx) as i64,
                y: p.velocity.y,
                z: sat_add(p.velocity.z as int, fz) as i64,
            },
            ..p
        }
    } else {
        p
    }
}

/// A jump is honored exactly when it is asked for while the player is
/// grounded and has not yet spent this contact's jump.
pub open spec fn jump_honored(p: PlayerState, input: FrameInput) -> bool {
    input.jump && p.can_jump && p.is_grounded
}

/// The jump phase: an honored jump adds the jump force to the vertical
/// velocity and consumes jump eligibility until the resolver re-grants it.
pub open spec fn apply_jump_spec(p: PlayerState, input: FrameInput) -> PlayerState {
    if jump_honored(p, input) {
        PlayerState {
            velocity: Vec3 {
                x: p.velocity.x,
                y: sat_add(p.velocity.y as int, p.jump_force as int) as i64,
                z: p.velocity.z,
            },
            can_jump: false,
            ..p
        }
    } else {
        p
    }
}

/// One axis of the boundary clamp: position forced into `[min, max]`, and
/// the velocity component zeroed exactly when the position was outside.
pub open spec fn clamp_axis(pos: int, vel: int, min: int, max: int) -> (int, int) {
    if pos > max {
        (max, 0)
    } else if pos < min {
        (min, 0)
    } else {
        (pos, vel)
    }
}

/// The floor clamp: position forced up to `floor`, velocity zeroed on clamp.
pub open spec fn clamp_floor(pos: int, vel: int, floor: int) -> (int, int) {
    if pos < floor {
        (floor, 0)
    } else {
        (pos, vel)
    }
}

/// The containment phase: the inelastic arena walls and floor.
pub open spec fn clamp_player_spec(c: ArenaConfig, p: PlayerState) -> PlayerState {
    let xc = clamp_axis(p.position.x as int, p.velocity.x as int, -c.half_length, c.half_length as int);
    let zc = clamp_axis(p.position.z as int, p.velocity.z as int, -c.half_width, c.half_width as int);
    let yc = clamp_floor(p.position.y as int, p.velocity.y as int, c.floor_y as int);
    PlayerState {
        position: Vec3 { x: xc.0 as i64, y: yc.0 as i64, z: zc.0 as i64 },
        velocity: Vec3 { x: xc.1 as i64, y: yc.1 as i64, z: zc.1 as i64 },
        ..p
    }
}

/// One player's frame step: movement impulse, then jump, then containment.
pub open spec fn step_player_spec(c: ArenaConfig, p: PlayerState, input: FrameInput) -> PlayerState {
    clamp_player_spec(c, apply_jump_spec(apply_movement_spec(p, input), input))
}

/// The whole frame: every seat stepped independently, in seat-index order.
pub open spec fn step_spec(c: ArenaConfig, players: Seq<PlayerState>, inputs: Seq<FrameInput>) -> Seq<PlayerState> {
    Seq::new(players.len(), |i: int| step_player_spec(c, players[i], inputs[i]))
}

/// The containment phase alone, on one player.
pub fn clamp_player(c: &ArenaConfig, p: &PlayerState) -> (r: PlayerState)
    requires
        c.wf(),
    ensures
        r == clamp_player_spec(*c, *p),
{
    let mut q = *p;
    if q.position.x > c.half_length {
        q.position.x = c.half_length;
        q.velocity.x = 0;
    } else if q.position.x < -c.half_length {
        q.position.x = -c.half_length;
        q.velocity.x = 0;
    }
    if q.position.z > c.half_width {
        q.position.z = c.half_width;
        q.velocity.z = 0;
    } else if q.position.z < -c.half_width {
        q.position.z = -c.half_width;
        q.velocity.z = 0;
    }
    if q.position.y < c.floor_y {
        q.position.y = c.floor_y;
        q.velocity.y = 0;
    }
    q
}

/// One player's frame step.
pub fn step_player(c: &ArenaConfig, p: &PlayerState, input: &FrameInput) -> (r: PlayerState)
    requires
        c.wf(),
        p.wf(),
    ensures
        r == step_player_spec(*c, *p, *input),
        r.wf(),
{
    let mut q = *p;

    // Movement impulse, from a well-formed input only.
    let input_ok = -UNIT <= input.movement_x && input.movement_x <= UNIT
        && -UNIT <= input.movement_y && input.movement_y <= UNIT;
    let fx: i64 = if input_ok {
        scale_by_speed_exec(input.movement_x, q.movement_speed)
    } else {
        0
    };
    let fz: i64 = if input_ok {
        let m = scale_by_speed_exec(input.movement_y, q.movement_speed);
        -m
    } else {
        0
    };
    proof {
        assert(fx as int == force_x(*input, p.movement_speed as int));
        assert(fz as int == force_z(*input, p.movement_speed as int));
        assert(0 <= fx * fx <= MAX_IMPULSE * MAX_IMPULSE && 0 <= fz * fz <= MAX_IMPULSE * MAX_IMPULSE)
            by (nonlinear_arith)
            requires
                -MAX_IMPULSE <= fx <= MAX_IMPULSE,
                -MAX_IMPULSE <= fz <= MAX_IMPULSE,
        ;
    }
    if fx * fx + fz * fz > DEADZONE * DEADZONE {
        q.velocity.x = sat_add_i64(q.velocity.x, fx);
        q.velocity.z = sat_add_i64(q.velocity.z, fz);
    }
    assert(q == apply_movement_spec(*p, *input));

    // Jump impulse, gated on grounded contact not yet spent.
    let ghost after_movement = q;
    if input.jump && q.can_jump && q.is_grounded {
        q.velocity.y = sat_add_i64(q.velocity.y, q.jump_force);
        q.can_jump = false;
    }
    assert(q == apply_jump_spec(after_movement, *input));

    // Boundary containment.
    clamp_player(c, &q)
}

/// One simulation frame over every player. Seats are stepped in index
/// order, never in the iteration order of an unordered structure, so every
/// peer advances identically.
pub fn step(c: &ArenaConfig, players: &Vec<PlayerState>, inputs: &Vec<FrameInput>) -> (r: Vec<PlayerState>)
    requires
        c.wf(),
        players@.len() == inputs@.len(),
        forall|i: int| 0 <= i < players@.len() ==> (#[trigger] players@[i]).wf(),
    ensures
        r@ == step_spec(*c, players@, inputs@),
        r@.len() == players@.len(),
        forall|i: int| 0 <= i < r@.len() ==> (#[trigger] r@[i]).wf(),
{
    let mut out: Vec<PlayerState> = Vec::new();
    let n = players.len();
    for k in 0..n
        invariant
            n == players@.len(),
            players@.len() == inputs@.len(),
            forall|i: int| 0 <= i < players@.len() ==> (#[trigger] players@[i]).wf(),
            c.wf(),
            out@.len() == k,
            forall|i: int| 0 <= i < k ==> #[trigger] out@[i] == step_player_spec(*c, players@[i], inputs@[i]),
            forall|i: int| 0 <= i < k ==> (#[trigger] out@[i]).wf(),
    {
        let next = step_player(c, &players[k], &inputs[k]);
        out.push(next);
    }
    proof {
        assert(out@ =~= step_spec(*c, players@, inputs@));
    }
    out
}

/// The boundary clamp over every player, in place.
pub fn handle_boundaries(c: &ArenaConfig, players: &mut Vec<PlayerState>)
    requires
        c.wf(),
    ensures
        final(players)@.len() == old(players)@.len(),
        forall|i: int| 0 <= i < final(players)@.len()
            ==> #[trigger] final(players)@[i] == clamp_player_spec(*c, old(players)@[i]),
{
    let n = players.len();
    for k in 0..n
        invariant
            n == players@.len(),
            players@.len() == old(players)@.len(),
            c.wf(),
            forall|i: int| k <= i < players@.len() ==> #[trigger] players@[i] == old(players)@[i],
            forall|i: int| 0 <= i < k
                ==> #[trigger] players@[i] == clamp_player_spec(*c, old(players)@[i]),
    {
        let clamped = clamp_player(c, &players[k]);
        players.set(k, clamped);
    }
}

/// Determinism: the frame step is a function of its declared arguments
/// alone, so any two runs on equal arguments produce equal states.
pub proof fn lemma_step_deterministic(
    c: ArenaConfig,
    players: Seq<PlayerState>,
    inputs: Seq<FrameInput>,
    r1: Seq<PlayerState>,
    r2: Seq<PlayerState>,
)
    requires
        r1 == step_spec(c, players, inputs),
        r2 == step_spec(c, players, inputs),
    ensures
        r1 == r2,
{
}

/// Jump gating: a jump is honored exactly when it is asked for while the
/// player is grounded with jump eligibility; an honored jump adds the jump
/// force to the vertical velocity (unless the floor clamp then zeroes it)
/// and consumes eligibility, which nothing in the step re-grants.
pub proof fn lemma_jump_gating(c: ArenaConfig, p: PlayerState, input: FrameInput)
    ensures
        jump_honored(p, input) <==> (input.jump && p.is_grounded && p.can_jump),
        step_player_spec(c, p, input).can_jump == (p.can_jump && !jump_honored(p, input)),
        jump_honored(p, input) && p.position.y >= c.floor_y
            ==> step_player_spec(c, p, input).velocity.y as int
                == sat_add(p.velocity.y as int, p.jump_force as int),
        !jump_honored(p, input) && p.position.y >= c.floor_y
            ==> step_player_spec(c, p, input).velocity.y == p.velocity.y,
{
}

/// Boundary containment: one step leaves the position inside the arena and
/// above the floor, and a position that was outside is moved exactly onto
/// the wall it violated, with that velocity component zeroed.
pub proof fn lemma_boundary_containment(c: ArenaConfig, p: PlayerState, input: FrameInput)
    requires
        c.wf(),
    ensures
        -c.half_length <= step_player_spec(c, p, input).position.x <= c.half_length,
        -c.half_width <= step_player_spec(c, p, input).position.z <= c.half_width,
        step_player_spec(c, p, input).position.y >= c.floor_y,
        p.position.x > c.half_length
            ==> step_player_spec(c, p, input).position.x == c.half_length
                && step_player_spec(c, p, input).velocity.x == 0,
        p.position.x < -c.half_length
            ==> step_player_spec(c, p, input).position.x == -c.half_length
                && step_player_spec(c, p, input).velocity.x == 0,
        p.position.z > c.half_width
            ==> step_player_spec(c, p, input).position.z == c.half_width
                && step_player_spec(c, p, input).velocity.z == 0,
        p.position.z < -c.half_width
            ==> step_player_spec(c, p, input).position.z == -c.half_width
                && step_player_spec(c, p, input).velocity.z == 0,
        p.position.y < c.floor_y
            ==> step_player_spec(c, p, input).position.y == c.floor_y
                && step_player_spec(c, p, input).velocity.y == 0,
{
}

/// The boundary clamp is idempotent: clamping a clamped state changes
/// nothing.
pub proof fn lemma_containment_idempotent(c: ArenaConfig, p: PlayerState)
    requires
        c.wf(),
    ensures
        clamp_player_spec(c, clamp_player_spec(c, p)) == clamp_player_spec(c, p),
{
}

/// A step on an already-contained position, at rest, with neutral movement
/// and no jump asked, leaves the player unchanged.
pub proof fn lemma_step_neutral_fixpoint(c: ArenaConfig, p: PlayerState, input: FrameInput)
    requires
        c.wf(),
        -c.half_length <= p.position.x <= c.half_length,
        -c.half_width <= p.position.z <= c.half_width,
        p.position.y >= c.floor_y,
        p.velocity == (Vec3 { x: 0, y: 0, z: 0 }),
        input.movement_x == 0,
        input.movement_y == 0,
        !input.jump,
    ensures
        step_player_spec(c, p, input) == p,
{
    assert(scale_by_speed(0, p.movement_speed as int) == 0) by {
        lemma_div_multiples_vanish(0, UNIT as int);
    }
}

} // verus!
