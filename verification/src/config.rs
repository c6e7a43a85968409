//! Per-session configuration: arena extents and rollback-network policy.
//!
//! All distances and speeds in this crate are fixed-point integers in
//! thousandths of a world unit, so that every participant of a rollback
//! session computes bit-identical results.

use vstd::prelude::*;

verus! {

/// Fixed-point scale: one world unit, in crate units.
pub const UNIT: i64 = 1000;

/// Largest half-extent or floor offset a well-formed arena may have.
pub const MAX_EXTENT: i64 = 1_000_000_000;

/// Default arena half-length (75 world units).
pub const DEFAULT_HALF_LENGTH: i64 = 75_000;

/// Default arena half-width (25 world units).
pub const DEFAULT_HALF_WIDTH: i64 = 25_000;

/// Default minimum floor offset (0.1 world units).
pub const DEFAULT_FLOOR_Y: i64 = 100;

/// Immutable arena geometry, set once at arena load.
///
/// Positions are clamped componentwise to `[-half_length, half_length]`
/// along x, `[-half_width, half_width]` along z, and to at least `floor_y`
/// along y.
pub struct ArenaConfig {
    pub half_length: i64,
    pub half_width: i64,
    pub floor_y: i64,
}

impl ArenaConfig {
    /// Extents are non-negative and small enough that all boundary
    /// arithmetic stays well inside `i64`.
    pub open spec fn wf(self) -> bool {
        &&& 0 <= self.half_length <= MAX_EXTENT
        &&& 0 <= self.half_width <= MAX_EXTENT
        &&& 0 <= self.floor_y <= MAX_EXTENT
    }

    /// The default arena: 150 x 50 world units, floor offset 0.1.
    pub fn new() -> (c: ArenaConfig)
        ensures
            c.wf(),
            c.half_length == DEFAULT_HALF_LENGTH,
            c.half_width == DEFAULT_HALF_WIDTH,
            c.floor_y == DEFAULT_FLOOR_Y,
    {
        ArenaConfig {
            half_length: DEFAULT_HALF_LENGTH,
            half_width: DEFAULT_HALF_WIDTH,
            floor_y: DEFAULT_FLOOR_Y,
        }
    }
}

impl Default for ArenaConfig {
    fn default() -> (c: ArenaConfig)
        ensures
            c.wf(),
            c.half_length == DEFAULT_HALF_LENGTH,
            c.half_width == DEFAULT_HALF_WIDTH,
            c.floor_y == DEFAULT_FLOOR_Y,
    {
        ArenaConfig::new()
    }
}

/// Rollback-network policy: how many frames of input delay are applied and
/// how far prediction may run ahead of confirmed remote input.
pub struct NetworkConfig {
    pub input_delay: usize,
    pub check_distance: u32,
    pub max_prediction: usize,
}

impl Default for NetworkConfig {
    fn default() -> (c: NetworkConfig)
        ensures
            c.input_delay == 2,
            c.check_distance == 3,
            c.max_prediction == 8,
    {
        NetworkConfig { input_delay: 2, check_distance: 3, max_prediction: 8 }
    }
}

} // verus!
