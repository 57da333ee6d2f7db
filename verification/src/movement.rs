//! The per-step movement pipeline.
//!
//! Each fixed simulation step runs four stages over the controlled body, in
//! this order and no other: the grounding detector, the horizontal movement
//! resolver, the jump-charge state machine, and the elasticity modulator.
//! Each stage consumes state the previous one just wrote, so [`tick`] invokes
//! them as an explicit sequence.  Every stage is a pure recomputation from
//! the body and this step's inputs; nothing is cached across steps.

use crate::player::{CharacterController, JuiceMeter, LastDirection, MovementBundle, Restitution, Vector2};
use crate::units::{
    AXIS_DEAD_ZONE, CHARGE_CAP, CHARGE_POWER_BASE, FAST_FALL_THRESHOLD, JUMP_CLEARANCE_NUDGE,
    MILLI, MIN_LAUNCH_CHARGE, STEP_LIMIT, TUNING_LIMIT,
};
use vstd::prelude::*;

verus! {

/// One contact reported by the downward shape-cast probe.
#[derive(Clone, Copy, Debug, PartialEq, Eq, Structural)]
pub struct ShapeHit {
    /// Signed angle, in milliradians, between the contact normal (rotated
    /// into world space and pointed away from the surface) and world "up".
    pub deviation: i64,
    /// Travel of the probe until this contact, in thousandths of a world
    /// unit.  Carried through for collaborators; grounding ignores it.
    pub time_of_impact: i64,
}

/// The input collaborator's samples for one step.
#[derive(Clone, Copy, Debug, PartialEq, Eq, Structural)]
pub struct StepInput {
    /// Continuous horizontal movement axis, in thousandths (about
    /// `-1000 ..= 1000`).
    pub axis: i64,
    /// The jump input went down this step.
    pub jump_just_pressed: bool,
    /// The jump input went up this step.
    pub jump_just_released: bool,
}

// ---------------------------------------------------------------------------
// Grounding detector
// ---------------------------------------------------------------------------

/// A hit counts as standing ground when no slope limit is configured, or
/// when its normal deviates from world "up" by no more than the limit.
pub open spec fn hit_is_walkable(hit: ShapeHit, max_slope_angle: Option<i64>) -> bool {
    match max_slope_angle {
        Option::None => true,
        Option::Some(limit) => -limit <= hit.deviation <= limit,
    }
}

/// The body is grounded exactly when some hit counts as standing ground;
/// an empty hit set is never grounded.
pub open spec fn grounded_after(hits: Seq<ShapeHit>, max_slope_angle: Option<i64>) -> bool {
    exists|i: int| 0 <= i < hits.len() && #[trigger] hit_is_walkable(hits[i], max_slope_angle)
}

/// Classifies this step's shape-cast hits against the slope limit.
pub fn grounded_from_hits(hits: &Vec<ShapeHit>, max_slope_angle: Option<i64>) -> (grounded: bool)
    requires
        max_slope_angle matches Some(limit) ==> limit >= 0,
    ensures
        grounded == grounded_after(hits@, max_slope_angle),
{
    let mut i: usize = 0;
    while i < hits.len()
        invariant
            i <= hits.len(),
            max_slope_angle matches Some(limit) ==> limit >= 0,
            forall|j: int| 0 <= j < i ==> !(#[trigger] hit_is_walkable(hits@[j], max_slope_angle)),
        decreases hits.len() - i,
    {
        let hit = hits[i];
        let walkable = match max_slope_angle {
            None => true,
            Some(limit) => -limit <= hit.deviation && hit.deviation <= limit,
        };
        if walkable {
            assert(hit_is_walkable(hits@[i as int], max_slope_angle));
            return true;
        }
        i = i + 1;
    }
    false
}

/// The body after the grounding stage: only the ground fact changes.
pub open spec fn grounded_spec(b: CharacterController, hits: Seq<ShapeHit>) -> CharacterController {
    CharacterController {
        grounded: grounded_after(hits, Option::Some(b.movement.max_slope_angle.0)),
        ..b
    }
}

/// Grounding stage: recompute the ground fact from this step's hits and the
/// body's slope limit.
pub fn update_grounded(body: &mut CharacterController, hits: &Vec<ShapeHit>)
    requires
        old(body).movement.max_slope_angle.0 >= 0,
    ensures
        *final(body) == grounded_spec(*old(body), hits@),
{
    let limit = body.movement.max_slope_angle.0;
    body.grounded = grounded_from_hits(hits, Some(limit));
}

// ---------------------------------------------------------------------------
// Horizontal movement resolver
// ---------------------------------------------------------------------------

/// The body after the movement stage.
///
/// Airborne bodies are left untouched (no air control).  On the ground, a
/// charging meter locks the body in place; otherwise an axis sample beyond
/// the dead zone sets the horizontal velocity to the acceleration magnitude
/// and records the facing, and a sample inside the dead zone stops the body.
/// While grounded, any residual downward velocity is clamped to zero.
pub open spec fn movement_spec(b: CharacterController, axis: i64) -> CharacterController {
    if !b.grounded {
        b
    } else {
        let charging = b.juice is Charging;
        let vx: i64 = if charging {
            0
        } else if axis > AXIS_DEAD_ZONE {
            b.movement.speed.0
        } else if axis < -AXIS_DEAD_ZONE {
            (-b.movement.speed.0) as i64
        } else {
            0
        };
        let facing: i64 = if charging {
            b.movement.last_direction.0
        } else if axis > AXIS_DEAD_ZONE {
            1
        } else if axis < -AXIS_DEAD_ZONE {
            -1i64
        } else {
            b.movement.last_direction.0
        };
        let vy: i64 = if b.linear_velocity.y < 0 {
            0
        } else {
            b.linear_velocity.y
        };
        CharacterController {
            linear_velocity: Vector2 { x: vx, y: vy },
            movement: MovementBundle {
                last_direction: LastDirection(facing),
                ..b.movement
            },
            ..b
        }
    }
}

/// Movement stage: resolve the axis sample into horizontal velocity and
/// facing, gated by the ground fact and the charge state.
pub fn movement(body: &mut CharacterController, axis: i64)
    requires
        old(body).wf(),
    ensures
        *final(body) == movement_spec(*old(body), axis),
        final(body).wf(),
{
    if body.grounded {
        let charging = match body.juice {
            JuiceMeter::Charging(_) => true,
            _ => false,
        };
        if charging {
            body.linear_velocity.x = 0;
        } else if axis > AXIS_DEAD_ZONE {
            body.movement.last_direction = LastDirection(1);
            body.linear_velocity.x = body.movement.speed.0;
        } else if axis < -AXIS_DEAD_ZONE {
            body.movement.last_direction = LastDirection(-1);
            body.linear_velocity.x = -body.movement.speed.0;
        } else {
            body.linear_velocity.x = 0;
        }
        if body.linear_velocity.y < 0 {
            body.linear_velocity.y = 0;
        }
    }
}

// ---------------------------------------------------------------------------
// Jump-charge state machine
// ---------------------------------------------------------------------------

/// The accumulated charge plus the power floor, in milliseconds.
pub open spec fn charged_power(charge: i64) -> int {
    CHARGE_POWER_BASE + charge
}

/// Vertical launch velocity of a jump released at the given charge.
pub open spec fn jump_vertical_velocity(impulse: i64, charge: i64) -> int {
    impulse * charged_power(charge) / (MILLI as int)
}

/// Horizontal launch velocity: half the vertical magnitude, signed by the
/// facing scalar.
pub open spec fn jump_horizontal_velocity(impulse: i64, facing: i64, charge: i64) -> int {
    let magnitude = impulse * charged_power(charge) / (2 * MILLI as int);
    if facing >= 0 {
        magnitude
    } else {
        -magnitude
    }
}

/// The body after the jump stage.
///
/// `Idle` begins a charge when grounded and the input was just pressed.
/// `Charging(elapsed)` first accumulates this step's duration; a release
/// returns the meter to `Idle`, reaching the cap exhausts it, and otherwise
/// it keeps charging.  On the release-or-overcharge step, a charge of at
/// least [`MIN_LAUNCH_CHARGE`] fires the jump if the body is grounded: the
/// launch velocities replace the current ones and the body is nudged up by
/// [`JUMP_CLEARANCE_NUDGE`].  `Exhausted` waits for a full release.
pub open spec fn handle_jump_spec(
    b: CharacterController,
    just_pressed: bool,
    just_released: bool,
    dt: i64,
) -> CharacterController {
    match b.juice {
        JuiceMeter::Idle => {
            if b.grounded && just_pressed {
                CharacterController { juice: JuiceMeter::Charging(0), ..b }
            } else {
                b
            }
        }
        JuiceMeter::Charging(elapsed) => {
            let charge: i64 = (elapsed + dt) as i64;
            let overcharged = charge >= CHARGE_CAP;
            let juice = if just_released {
                JuiceMeter::Idle
            } else if overcharged {
                JuiceMeter::Exhausted
            } else {
                JuiceMeter::Charging(charge)
            };
            let launched = charge >= MIN_LAUNCH_CHARGE && (just_released || overcharged)
                && b.grounded;
            if launched {
                CharacterController {
                    position: Vector2 {
                        x: b.position.x,
                        y: (b.position.y + JUMP_CLEARANCE_NUDGE) as i64,
                    },
                    linear_velocity: Vector2 {
                        x: jump_horizontal_velocity(
                            b.movement.jump_impulse.0,
                            b.movement.last_direction.0,
                            charge,
                        ) as i64,
                        y: jump_vertical_velocity(b.movement.jump_impulse.0, charge) as i64,
                    },
                    juice,
                    ..b
                }
            } else {
                CharacterController { juice, ..b }
            }
        }
        JuiceMeter::Exhausted => {
            if just_released {
                CharacterController { juice: JuiceMeter::Idle, ..b }
            } else {
                b
            }
        }
    }
}

/// Jump stage: advance the juice meter by this step's edge events and fire
/// the impulse on a sufficient release or overcharge.
pub fn handle_jump(body: &mut CharacterController, just_pressed: bool, just_released: bool, dt: i64)
    requires
        old(body).wf(),
        1 <= dt <= STEP_LIMIT,
        old(body).juice is Charging
            ==> old(body).position.y + JUMP_CLEARANCE_NUDGE <= i64::MAX,
    ensures
        *final(body) == handle_jump_spec(*old(body), just_pressed, just_released, dt),
        final(body).wf(),
{
    let juice = body.juice;
    match juice {
        JuiceMeter::Idle => {
            if body.grounded && just_pressed {
                body.juice = JuiceMeter::Charging(0);
            }
        }
        JuiceMeter::Charging(elapsed) => {
            let charge: i64 = elapsed + dt;
            let overcharged = charge >= CHARGE_CAP;
            if just_released {
                body.juice = JuiceMeter::Idle;
            } else if overcharged {
                body.juice = JuiceMeter::Exhausted;
            } else {
                body.juice = JuiceMeter::Charging(charge);
            }
            if charge >= MIN_LAUNCH_CHARGE && (just_released || overcharged) {
                if body.grounded {
                    let impulse: i64 = body.movement.jump_impulse.0;
                    let power: i64 = CHARGE_POWER_BASE + charge;
                    proof {
                        assert(0 <= impulse * power
                            <= TUNING_LIMIT * (CHARGE_POWER_BASE + CHARGE_CAP + STEP_LIMIT))
                            by (nonlinear_arith)
                            requires
                                0 <= impulse <= TUNING_LIMIT,
                                0 <= power <= CHARGE_POWER_BASE + CHARGE_CAP + STEP_LIMIT,
                        ;
                    }
                    let magnitude: i64 = impulse * power / (2 * MILLI);
                    body.linear_velocity.x = if body.movement.last_direction.0 >= 0 {
                        magnitude
                    } else {
                        -magnitude
                    };
                    body.linear_velocity.y = impulse * power / MILLI;
                    body.position.y = body.position.y + JUMP_CLEARANCE_NUDGE;
                }
            }
        }
        JuiceMeter::Exhausted => {
            if just_released {
                body.juice = JuiceMeter::Idle;
            }
        }
    }
}

// ---------------------------------------------------------------------------
// Elasticity modulator
// ---------------------------------------------------------------------------

/// The body after the elasticity stage.
///
/// An airborne body falling at or beyond [`FAST_FALL_THRESHOLD`] becomes
/// fully elastic; every other body becomes fully inelastic.  The boundary is
/// pinned inclusive: a downward speed exactly at the threshold is elastic.
pub open spec fn elasticity_spec(b: CharacterController) -> CharacterController {
    let fast_falling = !b.grounded && b.linear_velocity.y <= -FAST_FALL_THRESHOLD;
    CharacterController {
        restitution: if fast_falling {
            Restitution::PerfectlyElastic
        } else {
            Restitution::PerfectlyInelastic
        },
        ..b
    }
}

/// Elasticity stage: reassign the bounce coefficient from the finalized
/// velocity and ground fact.
pub fn handle_elasticity(body: &mut CharacterController)
    ensures
        *final(body) == elasticity_spec(*old(body)),
{
    if !body.grounded && body.linear_velocity.y <= -FAST_FALL_THRESHOLD {
        body.restitution = Restitution::PerfectlyElastic;
    } else {
        body.restitution = Restitution::PerfectlyInelastic;
    }
}

// ---------------------------------------------------------------------------
// The per-step pipeline
// ---------------------------------------------------------------------------

/// The body after one whole step: grounding, then (when the input
/// collaborator delivered samples) movement and jump, then elasticity.
///
/// The downward-velocity clamp of the movement stage runs before the jump
/// stage, so it never suppresses a jump fired in the same step: the launch
/// velocity overwrites the clamped one.
pub open spec fn tick_spec(
    b: CharacterController,
    hits: Seq<ShapeHit>,
    input: Option<StepInput>,
    dt: i64,
) -> CharacterController {
    let grounded_body = grounded_spec(b, hits);
    let moved_body = match input {
        Option::Some(sample) => handle_jump_spec(
            movement_spec(grounded_body, sample.axis),
            sample.jump_just_pressed,
            sample.jump_just_released,
            dt,
        ),
        Option::None => grounded_body,
    };
    elasticity_spec(moved_body)
}

/// One fixed simulation step over the controlled body.
///
/// A missing input singleton (`input == None`) skips the movement and jump
/// stages for this step; grounding and elasticity still run.
pub fn tick(body: &mut CharacterController, hits: &Vec<ShapeHit>, input: Option<StepInput>, dt: i64)
    requires
        old(body).wf(),
        1 <= dt <= STEP_LIMIT,
        old(body).juice is Charging
            ==> old(body).position.y + JUMP_CLEARANCE_NUDGE <= i64::MAX,
    ensures
        *final(body) == tick_spec(*old(body), hits@, input, dt),
        final(body).wf(),
{
    update_grounded(body, hits);
    if let Some(sample) = input {
        movement(body, sample.axis);
        handle_jump(body, sample.jump_just_pressed, sample.jump_just_released, dt);
    }
    handle_elasticity(body);
}

/// One fixed simulation step over whatever set of controlled bodies exists.
///
/// The step expects exactly one controlled body; when zero or several are
/// present the step skips silently, leaving every body untouched.
pub fn tick_controllers(
    controllers: &mut Vec<CharacterController>,
    hits: &Vec<ShapeHit>,
    input: Option<StepInput>,
    dt: i64,
)
    requires
        1 <= dt <= STEP_LIMIT,
        old(controllers)@.len() == 1 ==> old(controllers)@[0].wf(),
        old(controllers)@.len() == 1 && old(controllers)@[0].juice is Charging
            ==> old(controllers)@[0].position.y + JUMP_CLEARANCE_NUDGE <= i64::MAX,
    ensures
        old(controllers)@.len() != 1 ==> final(controllers)@ == old(controllers)@,
        old(controllers)@.len() == 1 ==> final(controllers)@ == seq![
            tick_spec(old(controllers)@[0], hits@, input, dt),
        ],
{
    if controllers.len() == 1 {
        let mut body = controllers[0];
        tick(&mut body, hits, input, dt);
        controllers.set(0, body);
        assert(controllers@ =~= seq![tick_spec(old(controllers)@[0], hits@, input, dt)]);
    }
}

// ---------------------------------------------------------------------------
// Laws
// ---------------------------------------------------------------------------

/// Law: a hit set with some hit whose normal deviates from "up" by no more
/// than the slope limit grounds the body; a hit set where every hit exceeds
/// the limit does not; an empty hit set never does.
pub proof fn lemma_grounding_classification(hits: Seq<ShapeHit>, max_slope_angle: Option<i64>)
    ensures
        (exists|i: int| 0 <= i < hits.len() && #[trigger] hit_is_walkable(hits[i], max_slope_angle))
            ==> grounded_after(hits, max_slope_angle),
        (forall|i: int| 0 <= i < hits.len()
            ==> !(#[trigger] hit_is_walkable(hits[i], max_slope_angle)))
            ==> !grounded_after(hits, max_slope_angle),
        hits.len() == 0 ==> !grounded_after(hits, max_slope_angle),
{
}

/// Law: while the jump input stays held, a charging meter strictly gains
/// this step's duration, up to the cap: below the cap it keeps charging
/// with the larger elapsed time, at or past the cap it exhausts.  A
/// well-formed meter never carries a charge at or beyond the cap while
/// still `Charging`.
pub proof fn lemma_charge_monotone(
    b: CharacterController,
    just_pressed: bool,
    charge: i64,
    dt: i64,
)
    requires
        b.wf(),
        b.juice == JuiceMeter::Charging(charge),
        1 <= dt <= STEP_LIMIT,
    ensures
        0 <= charge < CHARGE_CAP,
        charge + dt < CHARGE_CAP ==> handle_jump_spec(b, just_pressed, false, dt).juice
            == JuiceMeter::Charging((charge + dt) as i64) && charge + dt > charge,
        charge + dt >= CHARGE_CAP ==> handle_jump_spec(b, just_pressed, false, dt).juice
            == JuiceMeter::Exhausted,
{
}

/// Law: releasing the jump input with an accumulated charge below the
/// launch threshold returns the meter to `Idle` and changes neither the
/// velocity nor the position, grounded or not.
pub proof fn lemma_no_impulse_below_threshold(
    b: CharacterController,
    just_pressed: bool,
    charge: i64,
    dt: i64,
)
    requires
        b.wf(),
        b.juice == JuiceMeter::Charging(charge),
        1 <= dt <= STEP_LIMIT,
        charge + dt < MIN_LAUNCH_CHARGE,
    ensures
        handle_jump_spec(b, just_pressed, true, dt).linear_velocity == b.linear_velocity,
        handle_jump_spec(b, just_pressed, true, dt).position == b.position,
        handle_jump_spec(b, just_pressed, true, dt).juice == JuiceMeter::Idle,
{
}

} // verus!
