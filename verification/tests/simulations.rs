use space_computation::{
    CollisionType, ControllableAcceleration, MovementType, Real, Simulation, SpaceObject, Vector2,
};

fn number(x: f64) -> Real {
    Real::from_bits(x.to_bits())
}

fn body(name: &str, kind: MovementType) -> SpaceObject {
    SpaceObject::new(
        name,
        number(1.0),
        number(1.0),
        Vector2::new(number(0.0), number(0.0)),
        Vector2::new(number(1.0), number(2.0)),
        kind,
    )
    .unwrap()
}

fn bodies(kinds: &[MovementType]) -> Vec<SpaceObject> {
    kinds.iter().map(|kind| body("b", *kind)).collect()
}

fn simulation(
    kinds: &[MovementType],
    time_delta: f64,
    simulation_time: f64,
    g: f64,
    acceleration_rate: f64,
    elasticity: f64,
) -> Result<Simulation, String> {
    Simulation::new(
        bodies(kinds),
        number(time_delta),
        number(simulation_time),
        number(g),
        CollisionType::Elastic,
        number(acceleration_rate),
        number(elasticity),
    )
}

const S: MovementType = MovementType::Static;
const O: MovementType = MovementType::Ordinary;
const C: MovementType = MovementType::Controllable;

#[test]
fn two_controllable_bodies_are_refused() {
    let refused = simulation(&[C, C], 0.1, 1.0, 1.0, 1.0, 0.5);
    assert_eq!(refused.err().unwrap(), "Multiple controllable objects are not supported");
}

#[test]
fn more_controllable_bodies_are_refused_wherever_they_stand() {
    for kinds in [vec![C, O, C], vec![O, C, S, C], vec![C, C, C], vec![S, S, C, O, O, C]] {
        let refused = simulation(&kinds, 0.1, 1.0, 1.0, 1.0, 0.5);
        assert_eq!(refused.err().unwrap(), "Multiple controllable objects are not supported");
    }
}

#[test]
fn no_controllable_body_gives_no_live_input() {
    let made = simulation(&[S, O, O], 0.1, 1.0, 1.0, 1.0, 0.5).unwrap();
    assert_eq!(made.controllable_acceleration, None);
    assert_eq!(made.space_objects.len(), 3);
}

#[test]
fn one_controllable_body_gives_a_live_input_with_nothing_held() {
    for kinds in [vec![C], vec![O, C], vec![C, S, O], vec![S, O, C]] {
        let made = simulation(&kinds, 0.1, 1.0, 1.0, 1.0, 0.5).unwrap();
        assert_eq!(made.controllable_acceleration, Some(ControllableAcceleration::default()));
    }
}

#[test]
fn a_simulation_without_bodies_is_made() {
    let made = simulation(&[], 0.1, 1.0, 1.0, 1.0, 0.5).unwrap();
    assert!(made.space_objects.is_empty());
    assert_eq!(made.controllable_acceleration, None);
}

#[test]
fn a_simulation_keeps_its_parameters_and_bodies() {
    let made = Simulation::new(
        vec![body("first", O), body("second", S)],
        number(0.25),
        number(8.0),
        number(6.5),
        CollisionType::Traversing,
        number(3.0),
        number(0.75),
    )
    .unwrap();
    assert_eq!(f64::from_bits(made.time_delta.to_bits()), 0.25);
    assert_eq!(f64::from_bits(made.simulation_time.to_bits()), 8.0);
    assert_eq!(f64::from_bits(made.g.to_bits()), 6.5);
    assert_eq!(made.collision_type, CollisionType::Traversing);
    assert_eq!(f64::from_bits(made.acceleration_rate.to_bits()), 3.0);
    assert_eq!(f64::from_bits(made.elasticity_coefficient.to_bits()), 0.75);
    assert_eq!(made.space_objects[0].name, "first");
    assert_eq!(made.space_objects[1].name, "second");
    assert_eq!(made.space_objects[0].movement_type, O);
    assert_eq!(made.space_objects[1].movement_type, S);
}

#[test]
fn a_time_delta_that_is_not_positive_is_refused() {
    for bad in [0.0, -0.0, -0.1, f64::NAN, f64::NEG_INFINITY] {
        let refused = simulation(&[O], bad, 1.0, 1.0, 1.0, 0.5);
        assert_eq!(refused.err().unwrap(), "Time delta must be positive");
    }
}

#[test]
fn a_simulation_time_that_is_not_positive_is_refused() {
    for bad in [0.0, -0.0, -10.0, f64::NAN] {
        let refused = simulation(&[O], 0.1, bad, 1.0, 1.0, 0.5);
        assert_eq!(refused.err().unwrap(), "Simulation time must be positive");
    }
}

#[test]
fn a_gravity_constant_that_is_not_positive_is_refused() {
    for bad in [0.0, -0.0, -9.81, f64::NAN] {
        let refused = simulation(&[O], 0.1, 1.0, bad, 1.0, 0.5);
        assert_eq!(refused.err().unwrap(), "Gravity constant must be positive");
    }
}

#[test]
fn an_acceleration_rate_that_is_not_positive_is_refused() {
    for bad in [0.0, -0.0, -1.0, f64::NAN] {
        let refused = simulation(&[O], 0.1, 1.0, 1.0, bad, 0.5);
        assert_eq!(refused.err().unwrap(), "Acceleration rate must be positive");
    }
}

#[test]
fn an_elasticity_outside_the_unit_interval_is_refused() {
    for bad in [-0.1, 1.1, 1.0 + f64::EPSILON, -f64::MIN_POSITIVE, f64::INFINITY, f64::NAN, 2.0] {
        let refused = simulation(&[O], 0.1, 1.0, 1.0, 1.0, bad);
        assert_eq!(refused.err().unwrap(), "Elasticity coefficient must be in [0, 1]");
    }
}

#[test]
fn an_elasticity_within_the_unit_interval_is_accepted() {
    for good in [0.0, -0.0, 0.5, 1.0, f64::MIN_POSITIVE, 1.0 - f64::EPSILON] {
        assert!(simulation(&[O], 0.1, 1.0, 1.0, 1.0, good).is_ok());
    }
}

#[test]
fn the_rules_are_looked_at_in_order() {
    let all_wrong = simulation(&[C, C], 0.0, 0.0, 0.0, 0.0, 2.0);
    assert_eq!(all_wrong.err().unwrap(), "Multiple controllable objects are not supported");
    let from_time_delta = simulation(&[C], 0.0, 0.0, 0.0, 0.0, 2.0);
    assert_eq!(from_time_delta.err().unwrap(), "Time delta must be positive");
    let from_simulation_time = simulation(&[C], 1.0, 0.0, 0.0, 0.0, 2.0);
    assert_eq!(from_simulation_time.err().unwrap(), "Simulation time must be positive");
    let from_gravity = simulation(&[C], 1.0, 1.0, 0.0, 0.0, 2.0);
    assert_eq!(from_gravity.err().unwrap(), "Gravity constant must be positive");
    let from_rate = simulation(&[C], 1.0, 1.0, 1.0, 0.0, 2.0);
    assert_eq!(from_rate.err().unwrap(), "Acceleration rate must be positive");
    let from_elasticity = simulation(&[C], 1.0, 1.0, 1.0, 1.0, 2.0);
    assert_eq!(from_elasticity.err().unwrap(), "Elasticity coefficient must be in [0, 1]");
    assert!(simulation(&[C], 1.0, 1.0, 1.0, 1.0, 1.0).is_ok());
}

#[test]
fn the_default_simulation() {
    let made = Simulation::default();
    assert!(made.space_objects.is_empty());
    assert_eq!(f64::from_bits(made.time_delta.to_bits()), 10e-5);
    assert_eq!(f64::from_bits(made.simulation_time.to_bits()), 10.0);
    assert_eq!(f64::from_bits(made.g.to_bits()), 10.0);
    assert_eq!(made.collision_type, CollisionType::Elastic);
    assert_eq!(f64::from_bits(made.acceleration_rate.to_bits()), 1.0);
    assert_eq!(f64::from_bits(made.elasticity_coefficient.to_bits()), 0.5);
    assert_eq!(made.controllable_acceleration, None);
}

#[test]
fn the_default_simulation_is_what_construction_gives_for_the_defaults() {
    let made = Simulation::new(
        vec![],
        number(10e-5),
        number(10.0),
        number(10.0),
        CollisionType::Elastic,
        number(1.0),
        number(0.5),
    )
    .unwrap();
    let default = Simulation::default();
    assert_eq!(made.time_delta.to_bits(), default.time_delta.to_bits());
    assert_eq!(made.simulation_time.to_bits(), default.simulation_time.to_bits());
    assert_eq!(made.g.to_bits(), default.g.to_bits());
    assert_eq!(made.collision_type, default.collision_type);
    assert_eq!(made.acceleration_rate.to_bits(), default.acceleration_rate.to_bits());
    assert_eq!(made.elasticity_coefficient.to_bits(), default.elasticity_coefficient.to_bits());
    assert_eq!(made.controllable_acceleration, default.controllable_acceleration);
}

#[test]
fn a_clone_is_a_simulation_of_its_own() {
    let made = simulation(&[C, O], 0.1, 1.0, 1.0, 1.0, 0.5).unwrap();
    let mut copy = made.clone();
    copy.handle_button_press("up", true);
    assert_eq!(made.controllable_acceleration, Some(ControllableAcceleration::default()));
    assert_eq!(copy.controllable_acceleration.unwrap().up, true);
    assert_eq!(copy.space_objects.len(), 2);
}
