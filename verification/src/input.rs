//! Turning pressed direction keys into one frame's input.
//!
//! Normalization happens here, before the input is transmitted: a diagonal
//! is scaled to unit length in fixed point, so every peer resimulating the
//! input works from the identical vector and diagonal movement is no faster
//! than movement along an axis.

use vstd::prelude::*;
use crate::config::UNIT;
use crate::player::FrameInput;

verus! {

/// One fixed-point component of a unit diagonal (1/sqrt 2, rounded).
pub const DIAGONAL_UNIT: i64 = 707;

/// An axis deflection from its two keys: `-1`, `0` or `1`.
pub open spec fn axis_value(neg: bool, pos: bool) -> int {
    (if pos { 1int } else { 0int }) - (if neg { 1int } else { 0int })
}

/// The normalized fixed-point movement vector for key-driven deflections
/// in `{-1, 0, 1}`: diagonals scale by the diagonal component, everything
/// else by full deflection.
pub open spec fn normalized_movement(x: int, y: int) -> (int, int) {
    if x != 0 && y != 0 {
        (x * DIAGONAL_UNIT, y * DIAGONAL_UNIT)
    } else {
        (x * UNIT, y * UNIT)
    }
}

/// One frame's input from the pressed keys: forward/back drive the y axis,
/// left/right the x axis; opposite keys cancel.
pub fn gather_input(
    forward: bool,
    back: bool,
    left: bool,
    right: bool,
    jump: bool,
    shoot: bool,
) -> (r: FrameInput)
    ensures
        r.wf(),
        r.movement_x == normalized_movement(
            axis_value(left, right),
            axis_value(back, forward),
        ).0,
        r.movement_y == normalized_movement(
            axis_value(left, right),
            axis_value(back, forward),
        ).1,
        r.jump == jump,
        r.shoot == shoot,
{
    let x: i64 = (if right { 1i64 } else { 0i64 }) - (if left { 1i64 } else { 0i64 });
    let y: i64 = (if forward { 1i64 } else { 0i64 }) - (if back { 1i64 } else { 0i64 });
    let (mx, my): (i64, i64) = if x != 0 && y != 0 {
        (x * DIAGONAL_UNIT, y * DIAGONAL_UNIT)
    } else {
        (x * UNIT, y * UNIT)
    };
    FrameInput { movement_x: mx, movement_y: my, jump, shoot }
}

} // verus!
