use jump_wiz::movement::{
    grounded_from_hits, handle_elasticity, handle_jump, movement, tick, tick_controllers,
    update_grounded, ShapeHit, StepInput,
};
use jump_wiz::player::{
    CharacterController, JuiceMeter, JumpImpulse, LastDirection, MaxSlopeAngle, MovementBundle,
    MovementSpeed, Restitution, Vector2,
};

fn hit(deviation: i64) -> ShapeHit {
    ShapeHit { deviation, time_of_impact: 100 }
}

fn body() -> CharacterController {
    CharacterController::new()
}

fn grounded_body() -> CharacterController {
    let mut b = CharacterController::new();
    b.grounded = true;
    b
}

fn tuned(jump_impulse: i64, facing: i64) -> CharacterController {
    let mut b = CharacterController::new().with_movement(409_600, jump_impulse, 1414);
    b.movement.last_direction = LastDirection(facing);
    b.grounded = true;
    b
}

#[test]
fn grounding_accepts_walkable_hit() {
    assert!(grounded_from_hits(&vec![hit(1400)], Some(1414)));
    assert!(grounded_from_hits(&vec![hit(-1400)], Some(1414)));
    assert!(grounded_from_hits(&vec![hit(0)], Some(0)));
    assert!(grounded_from_hits(&vec![hit(3000), hit(10)], Some(1414)));
}

#[test]
fn grounding_rejects_all_steep_hits() {
    assert!(!grounded_from_hits(&vec![hit(1500)], Some(1414)));
    assert!(!grounded_from_hits(&vec![hit(-1500), hit(2000)], Some(1414)));
}

#[test]
fn grounding_empty_hits_is_airborne() {
    assert!(!grounded_from_hits(&vec![], Some(1414)));
    assert!(!grounded_from_hits(&vec![], None));
}

#[test]
fn grounding_without_limit_takes_any_hit() {
    assert!(grounded_from_hits(&vec![hit(3000)], None));
}

#[test]
fn update_grounded_writes_the_flag() {
    let mut b = body();
    update_grounded(&mut b, &vec![hit(100)]);
    assert!(b.grounded);
    update_grounded(&mut b, &vec![hit(3000)]);
    assert!(!b.grounded);
}

#[test]
fn movement_axis_sets_velocity_and_facing() {
    let mut b = grounded_body();
    b.movement.last_direction = LastDirection(-1);
    movement(&mut b, 500);
    assert_eq!(b.linear_velocity.x, 409_600);
    assert_eq!(b.movement.last_direction.0, 1);
}

#[test]
fn movement_while_charging_locks_in_place() {
    let mut b = grounded_body();
    b.juice = JuiceMeter::Charging(300);
    b.linear_velocity.x = 777;
    movement(&mut b, 500);
    assert_eq!(b.linear_velocity.x, 0);
    assert_eq!(b.movement.last_direction.0, 1);
}

#[test]
fn movement_negative_axis_faces_left() {
    let mut b = grounded_body();
    movement(&mut b, -500);
    assert_eq!(b.linear_velocity.x, -409_600);
    assert_eq!(b.movement.last_direction.0, -1);
}

#[test]
fn movement_dead_zone_stops_the_body() {
    let mut b = grounded_body();
    b.linear_velocity.x = 321;
    movement(&mut b, 200);
    assert_eq!(b.linear_velocity.x, 0);
    assert_eq!(b.movement.last_direction.0, 1);
    b.linear_velocity.x = -321;
    movement(&mut b, -200);
    assert_eq!(b.linear_velocity.x, 0);
}

#[test]
fn movement_airborne_is_untouched() {
    let mut b = body();
    b.linear_velocity = Vector2 { x: 123, y: -456 };
    movement(&mut b, 900);
    assert_eq!(b.linear_velocity, Vector2 { x: 123, y: -456 });
    assert_eq!(b.movement.last_direction.0, 1);
}

#[test]
fn movement_grounded_clamps_downward_velocity() {
    let mut b = grounded_body();
    b.linear_velocity.y = -500;
    movement(&mut b, 0);
    assert_eq!(b.linear_velocity.y, 0);
    b.linear_velocity.y = 500;
    movement(&mut b, 0);
    assert_eq!(b.linear_velocity.y, 500);
}

#[test]
fn jump_press_on_ground_starts_charging() {
    let mut b = grounded_body();
    handle_jump(&mut b, true, false, 100);
    assert_eq!(b.juice, JuiceMeter::Charging(0));
}

#[test]
fn jump_press_in_the_air_stays_idle() {
    let mut b = body();
    handle_jump(&mut b, true, false, 100);
    assert_eq!(b.juice, JuiceMeter::Idle);
}

#[test]
fn jump_hold_accumulates_charge() {
    let mut b = grounded_body();
    b.juice = JuiceMeter::Charging(0);
    handle_jump(&mut b, false, false, 100);
    assert_eq!(b.juice, JuiceMeter::Charging(100));
    handle_jump(&mut b, false, false, 250);
    assert_eq!(b.juice, JuiceMeter::Charging(350));
}

#[test]
fn jump_release_after_half_second_launches() {
    // jump_impulse 100 units, facing +1, 0.4 s charged plus a 0.1 s step:
    // horizontal 100 * 1 * 0.5 * (0.1 + 0.5) = 30, vertical 100 * 0.6 = 60.
    let mut b = tuned(100_000, 1);
    b.juice = JuiceMeter::Charging(400);
    handle_jump(&mut b, false, true, 100);
    assert_eq!(b.linear_velocity.x, 30_000);
    assert_eq!(b.linear_velocity.y, 60_000);
    assert_eq!(b.position.y, 20_000);
    assert_eq!(b.juice, JuiceMeter::Idle);
}

#[test]
fn jump_launch_follows_facing() {
    let mut b = tuned(100_000, -1);
    b.juice = JuiceMeter::Charging(400);
    handle_jump(&mut b, false, true, 100);
    assert_eq!(b.linear_velocity.x, -30_000);
    assert_eq!(b.linear_velocity.y, 60_000);
}

#[test]
fn jump_tap_below_threshold_launches_nothing() {
    let mut b = tuned(100_000, 1);
    b.linear_velocity = Vector2 { x: 11, y: 22 };
    b.juice = JuiceMeter::Charging(49);
    handle_jump(&mut b, false, true, 100);
    assert_eq!(b.juice, JuiceMeter::Idle);
    assert_eq!(b.linear_velocity, Vector2 { x: 11, y: 22 });
    assert_eq!(b.position, Vector2 { x: 0, y: 0 });
}

#[test]
fn jump_overcharge_exhausts_and_launches() {
    let mut b = tuned(100_000, 1);
    b.juice = JuiceMeter::Charging(950);
    handle_jump(&mut b, false, false, 100);
    assert_eq!(b.juice, JuiceMeter::Exhausted);
    // charge 1.05 s: vertical 100 * (0.1 + 1.05) = 115 units.
    assert_eq!(b.linear_velocity.y, 115_000);
    assert_eq!(b.linear_velocity.x, 57_500);
}

#[test]
fn jump_release_in_the_air_launches_nothing() {
    let mut b = tuned(100_000, 1);
    b.grounded = false;
    b.juice = JuiceMeter::Charging(400);
    handle_jump(&mut b, false, true, 100);
    assert_eq!(b.juice, JuiceMeter::Idle);
    assert_eq!(b.linear_velocity, Vector2 { x: 0, y: 0 });
    assert_eq!(b.position, Vector2 { x: 0, y: 0 });
}

#[test]
fn jump_exhausted_waits_for_full_release() {
    let mut b = grounded_body();
    b.juice = JuiceMeter::Exhausted;
    handle_jump(&mut b, true, false, 100);
    assert_eq!(b.juice, JuiceMeter::Exhausted);
    handle_jump(&mut b, false, true, 100);
    assert_eq!(b.juice, JuiceMeter::Idle);
    assert_eq!(b.linear_velocity, Vector2 { x: 0, y: 0 });
}

#[test]
fn charge_rises_strictly_each_held_step_until_the_cap() {
    let mut b = grounded_body();
    handle_jump(&mut b, true, false, 100);
    let mut previous: i64 = -1;
    let mut steps: usize = 0;
    loop {
        match b.juice {
            JuiceMeter::Charging(elapsed) => {
                assert!(elapsed > previous);
                assert!(elapsed < 1000);
                previous = elapsed;
            }
            JuiceMeter::Exhausted => break,
            JuiceMeter::Idle => panic!("the meter fell idle while held"),
        }
        handle_jump(&mut b, false, false, 100);
        steps += 1;
        assert!(steps < 50, "the cap never exhausted the meter");
    }
    // 0.9 s accumulated, one more 0.1 s step reaches the 1.0 s cap.
    assert_eq!(previous, 900);
}

#[test]
fn elasticity_pins_the_fast_fall_boundary() {
    // The boundary is inclusive: exactly 100 units per second downward,
    // while airborne, already bounces.
    let mut b = body();
    b.linear_velocity.y = -100_000;
    handle_elasticity(&mut b);
    assert_eq!(b.restitution, Restitution::PerfectlyElastic);
    b.linear_velocity.y = -99_999;
    handle_elasticity(&mut b);
    assert_eq!(b.restitution, Restitution::PerfectlyInelastic);
    b.linear_velocity.y = -100_001;
    handle_elasticity(&mut b);
    assert_eq!(b.restitution, Restitution::PerfectlyElastic);
}

#[test]
fn elasticity_on_the_ground_is_inelastic() {
    let mut b = grounded_body();
    b.linear_velocity.y = -200_000;
    b.restitution = Restitution::PerfectlyElastic;
    handle_elasticity(&mut b);
    assert_eq!(b.restitution, Restitution::PerfectlyInelastic);
}

#[test]
fn elasticity_rising_fast_is_inelastic() {
    let mut b = body();
    b.linear_velocity.y = 200_000;
    handle_elasticity(&mut b);
    assert_eq!(b.restitution, Restitution::PerfectlyInelastic);
}

#[test]
fn tick_clamp_does_not_suppress_a_same_step_jump() {
    // The movement stage clamps residual downward velocity before the jump
    // stage runs, so a jump fired in the same step keeps its full launch
    // velocity.
    let mut b = tuned(100_000, 1);
    b.linear_velocity.y = -50_000;
    b.juice = JuiceMeter::Charging(400);
    let input = StepInput { axis: 0, jump_just_pressed: false, jump_just_released: true };
    tick(&mut b, &vec![hit(0)], Some(input), 100);
    assert_eq!(b.linear_velocity.y, 60_000);
    assert_eq!(b.linear_velocity.x, 30_000);
}

#[test]
fn tick_without_input_still_grounds_and_relaxes() {
    let mut b = body();
    b.linear_velocity = Vector2 { x: 55, y: -66 };
    b.restitution = Restitution::PerfectlyElastic;
    tick(&mut b, &vec![hit(0)], None, 100);
    assert!(b.grounded);
    assert_eq!(b.linear_velocity, Vector2 { x: 55, y: -66 });
    assert_eq!(b.restitution, Restitution::PerfectlyInelastic);
}

#[test]
fn tick_full_hold_and_release_sequence() {
    let ground = vec![hit(0)];
    let mut b = tuned(100_000, 1);
    let press = StepInput { axis: 0, jump_just_pressed: true, jump_just_released: false };
    let hold = StepInput { axis: 0, jump_just_pressed: false, jump_just_released: false };
    let release = StepInput { axis: 0, jump_just_pressed: false, jump_just_released: true };
    tick(&mut b, &ground, Some(press), 100);
    assert_eq!(b.juice, JuiceMeter::Charging(0));
    for _ in 0..4 {
        tick(&mut b, &ground, Some(hold), 100);
    }
    assert_eq!(b.juice, JuiceMeter::Charging(400));
    tick(&mut b, &ground, Some(release), 100);
    assert_eq!(b.juice, JuiceMeter::Idle);
    assert_eq!(b.linear_velocity.x, 30_000);
    assert_eq!(b.linear_velocity.y, 60_000);
    assert_eq!(b.position.y, 20_000);
}

#[test]
fn tick_controllers_needs_exactly_one_body() {
    let ground = vec![hit(0)];
    let input = StepInput { axis: 500, jump_just_pressed: false, jump_just_released: false };

    let mut none: Vec<CharacterController> = Vec::new();
    tick_controllers(&mut none, &ground, Some(input), 100);
    assert!(none.is_empty());

    let mut two = vec![body(), body()];
    tick_controllers(&mut two, &ground, Some(input), 100);
    assert_eq!(two[0], body());
    assert_eq!(two[1], body());

    let mut one = vec![body()];
    tick_controllers(&mut one, &ground, Some(input), 100);
    assert!(one[0].grounded);
    assert_eq!(one[0].linear_velocity.x, 409_600);
}

#[test]
fn defaults_match_the_gravity_derived_tuning() {
    let tuning = MovementBundle::default();
    assert_eq!(tuning.speed, MovementSpeed(409_600));
    assert_eq!(tuning.jump_impulse, JumpImpulse(1_331_200));
    assert_eq!(tuning.max_slope_angle, MaxSlopeAngle(1414));
    assert_eq!(tuning.last_direction, LastDirection(1));
    assert_eq!(JuiceMeter::default(), JuiceMeter::Idle);

    let b = CharacterController::new();
    assert!(!b.grounded);
    assert_eq!(b.juice, JuiceMeter::Idle);
    assert_eq!(b.restitution, Restitution::PerfectlyInelastic);
    assert_eq!(b.position, Vector2 { x: 0, y: 0 });
    assert_eq!(b.linear_velocity, Vector2 { x: 0, y: 0 });
}
