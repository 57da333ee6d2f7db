//! Fixed-point conventions and tuning constants.
//!
//! Every continuous quantity in the crate is an `i64` in thousandths of its
//! natural unit:
//!
//! * lengths and positions: thousandths of a world unit,
//! * velocities: thousandths of a world unit per second,
//! * times: milliseconds,
//! * angles: milliradians,
//! * the input axis: thousandths, so the full stick range is about
//!   `-1000 ..= 1000`.

use vstd::prelude::*;

verus! {

/// Thousandths per whole unit: the scale of the fixed-point representation.
pub const MILLI: i64 = 1000;

/// Axis samples with magnitude at or below this dead zone leave the
/// character standing (0.2 of full deflection).
pub const AXIS_DEAD_ZONE: i64 = 200;

/// A jump charge held this long (1.0 s) overcharges and exhausts the meter.
pub const CHARGE_CAP: i64 = 1000;

/// A charge released before this hold time (0.15 s) launches nothing:
/// a tap does not jump.
pub const MIN_LAUNCH_CHARGE: i64 = 150;

/// Power floor added to the accumulated charge (0.1 s) when a jump fires.
pub const CHARGE_POWER_BASE: i64 = 100;

/// Upward displacement (20 world units) applied when a jump fires, so the
/// body clears the ground instead of re-colliding in the same step.
pub const JUMP_CLEARANCE_NUDGE: i64 = 20_000;

/// Downward speed (100 world units per second) from which a landing counts
/// as a hard fall and the body becomes fully elastic.
pub const FAST_FALL_THRESHOLD: i64 = 100_000;

/// Gravity magnitude of the level (2048 world units per second squared);
/// the default tuning is derived from it.
pub const GRAVITY: i64 = 2_048_000;

/// Default horizontal acceleration: a fifth of [`GRAVITY`].
pub const DEFAULT_ACCELERATION: i64 = 409_600;

/// Default jump impulse: 0.65 of [`GRAVITY`].
pub const DEFAULT_JUMP_IMPULSE: i64 = 1_331_200;

/// Default walkable-slope limit: 0.45 pi radians, in milliradians.
pub const DEFAULT_MAX_SLOPE_ANGLE: i64 = 1414;

/// Largest accepted jump impulse.  Together with [`STEP_LIMIT`] it keeps the
/// jump-power products inside `i64`.
pub const TUNING_LIMIT: i64 = 2_000_000_000_000;

/// Longest accepted simulation step, in milliseconds.
pub const STEP_LIMIT: i64 = 60_000;

/// Largest grid coordinate magnitude a tile marker may carry.
pub const GRID_COORD_LIMIT: i64 = 1_000_000;

/// Largest accepted tile edge length, in thousandths of a world unit.
pub const TILE_SIZE_LIMIT: i64 = 1_000_000_000;

/// Largest accepted display scale factor, in thousandths.
pub const SCALE_LIMIT: i64 = 1_000_000;

} // verus!
