//! The controlled body and its tuning data.
//!
//! A [`CharacterController`] is the single player-controlled dynamic body:
//! position, linear velocity, the tuning record, the jump-charge meter, the
//! per-step ground fact and the current bounce coefficient.  Rotation is
//! considered locked by the physics engine, so no orientation angle is kept;
//! the facing scalar in [`LastDirection`] orients the sprite instead.

use crate::units::{
    CHARGE_CAP, DEFAULT_ACCELERATION, DEFAULT_JUMP_IMPULSE, DEFAULT_MAX_SLOPE_ANGLE, TUNING_LIMIT,
};
use vstd::prelude::*;

verus! {

/// A 2D quantity in fixed-point thousandths (a position or a velocity).
#[derive(Clone, Copy, Debug, PartialEq, Eq, Structural)]
pub struct Vector2 {
    pub x: i64,
    pub y: i64,
}

/// The horizontal acceleration used for character movement,
/// in thousandths of a world unit per second.
#[derive(Clone, Copy, Debug, PartialEq, Eq, Structural)]
pub struct MovementSpeed(pub i64);

/// The strength of a jump, in thousandths of a world unit per second.
#[derive(Clone, Copy, Debug, PartialEq, Eq, Structural)]
pub struct JumpImpulse(pub i64);

/// The last direction the player faced when moving: `1` or `-1`.
#[derive(Clone, Copy, Debug, PartialEq, Eq, Structural)]
pub struct LastDirection(pub i64);

/// The maximum angle a slope can have, in milliradians, for the character
/// to count as standing on it.  On steeper ground the character slides.
#[derive(Clone, Copy, Debug, PartialEq, Eq, Structural)]
pub struct MaxSlopeAngle(pub i64);

/// The jump-charge meter.
///
/// `Idle` holds no charge; `Charging(elapsed)` accumulates the hold time in
/// milliseconds since the jump input was pressed while grounded; `Exhausted`
/// means the input was held past [`CHARGE_CAP`] and must be released before
/// a new charge can begin.
#[derive(Clone, Copy, Debug, PartialEq, Eq, Structural)]
pub enum JuiceMeter {
    Idle,
    Charging(i64),
    Exhausted,
}

impl Default for JuiceMeter {
    /// A fresh meter holds no charge.
    fn default() -> (r: Self)
        ensures
            r == JuiceMeter::Idle,
    {
        JuiceMeter::Idle
    }
}

/// The bounce coefficient the elasticity stage assigns each step.
#[derive(Clone, Copy, Debug, PartialEq, Eq, Structural)]
pub enum Restitution {
    PerfectlyInelastic,
    PerfectlyElastic,
}

/// Immutable movement tuning of a controlled body, plus the facing scalar.
#[derive(Clone, Copy, Debug, PartialEq, Eq, Structural)]
pub struct MovementBundle {
    pub speed: MovementSpeed,
    pub jump_impulse: JumpImpulse,
    pub max_slope_angle: MaxSlopeAngle,
    pub last_direction: LastDirection,
}

impl MovementBundle {
    /// Well-formed tuning: non-negative magnitudes, a jump impulse small
    /// enough for the jump-power products to stay in `i64`, and a facing
    /// scalar of `1` or `-1`.  The slope limit being non-negative is a
    /// precondition owed by whoever constructs the tuning.
    pub open spec fn wf(self) -> bool {
        &&& 0 <= self.speed.0
        &&& 0 <= self.jump_impulse.0 <= TUNING_LIMIT
        &&& 0 <= self.max_slope_angle.0
        &&& (self.last_direction.0 == 1 || self.last_direction.0 == -1)
    }

    /// Tuning with the given magnitudes, facing right.
    pub fn new(acceleration: i64, jump_impulse: i64, max_slope_angle: i64) -> (r: Self)
        ensures
            r.speed.0 == acceleration,
            r.jump_impulse.0 == jump_impulse,
            r.max_slope_angle.0 == max_slope_angle,
            r.last_direction.0 == 1,
            (0 <= acceleration && 0 <= jump_impulse <= TUNING_LIMIT && 0 <= max_slope_angle)
                ==> r.wf(),
    {
        MovementBundle {
            speed: MovementSpeed(acceleration),
            jump_impulse: JumpImpulse(jump_impulse),
            max_slope_angle: MaxSlopeAngle(max_slope_angle),
            last_direction: LastDirection(1),
        }
    }
}

impl Default for MovementBundle {
    /// The default tuning, derived from the level's gravity.
    fn default() -> (r: Self)
        ensures
            r.speed.0 == DEFAULT_ACCELERATION,
            r.jump_impulse.0 == DEFAULT_JUMP_IMPULSE,
            r.max_slope_angle.0 == DEFAULT_MAX_SLOPE_ANGLE,
            r.last_direction.0 == 1,
            r.wf(),
    {
        MovementBundle::new(DEFAULT_ACCELERATION, DEFAULT_JUMP_IMPULSE, DEFAULT_MAX_SLOPE_ANGLE)
    }
}

/// The player-controlled body as the movement pipeline sees it.
#[derive(Clone, Copy, Debug, PartialEq, Eq, Structural)]
pub struct CharacterController {
    /// World position, in thousandths of a world unit.
    pub position: Vector2,
    /// Linear velocity, in thousandths of a world unit per second.
    pub linear_velocity: Vector2,
    /// Movement tuning and facing.
    pub movement: MovementBundle,
    /// The jump-charge meter.
    pub juice: JuiceMeter,
    /// Ground fact of the current step; recomputed every step.
    pub grounded: bool,
    /// Bounce coefficient, reassigned every step by the elasticity stage.
    pub restitution: Restitution,
}

impl CharacterController {
    /// Well-formed body: sound tuning, and a charge that never reaches the
    /// cap while the meter is still `Charging`.
    pub open spec fn wf(self) -> bool {
        &&& self.movement.wf()
        &&& match self.juice {
            JuiceMeter::Charging(elapsed) => 0 <= elapsed < CHARGE_CAP,
            _ => true,
        }
    }

    /// A body at the origin, at rest, with default tuning, airborne and
    /// inelastic until the first step says otherwise.
    pub fn new() -> (r: Self)
        ensures
            r.position == (Vector2 { x: 0, y: 0 }),
            r.linear_velocity == (Vector2 { x: 0, y: 0 }),
            r.movement.speed.0 == DEFAULT_ACCELERATION,
            r.movement.jump_impulse.0 == DEFAULT_JUMP_IMPULSE,
            r.movement.max_slope_angle.0 == DEFAULT_MAX_SLOPE_ANGLE,
            r.movement.last_direction.0 == 1,
            r.juice == JuiceMeter::Idle,
            !r.grounded,
            r.restitution == Restitution::PerfectlyInelastic,
            r.wf(),
    {
        CharacterController {
            position: Vector2 { x: 0, y: 0 },
            linear_velocity: Vector2 { x: 0, y: 0 },
            movement: MovementBundle::default(),
            juice: JuiceMeter::Idle,
            grounded: false,
            restitution: Restitution::PerfectlyInelastic,
        }
    }

    /// The same body with replaced movement tuning.
    pub fn with_movement(self, acceleration: i64, jump_impulse: i64, max_slope_angle: i64) -> (r: Self)
        ensures
            r.movement.speed.0 == acceleration,
            r.movement.jump_impulse.0 == jump_impulse,
            r.movement.max_slope_angle.0 == max_slope_angle,
            r.movement.last_direction.0 == 1,
            r.position == self.position,
            r.linear_velocity == self.linear_velocity,
            r.juice == self.juice,
            r.grounded == self.grounded,
            r.restitution == self.restitution,
    {
        CharacterController {
            movement: MovementBundle::new(acceleration, jump_impulse, max_slope_angle),
            ..self
        }
    }
}

} // verus!
