//! The simulation: its bodies, its physical parameters, and the rules that a
//! new simulation has to meet.

use crate::body::{SpaceObject, SpaceObjectView};
use crate::control::ControllableAcceleration;
use crate::kinds::{CollisionType, MovementType};
use crate::number::Real;
use vstd::prelude::*;

verus! {

/// The encoding of the default step size, one ten-thousandth.
pub const DEFAULT_TIME_DELTA_BITS: u64 = 0x3F1A_36E2_EB1C_432D;

/// The encoding of the default simulated duration, ten.
pub const DEFAULT_SIMULATION_TIME_BITS: u64 = 0x4024_0000_0000_0000;

/// The encoding of the default gravitational constant, ten.
pub const DEFAULT_G_BITS: u64 = 0x4024_0000_0000_0000;

/// The encoding of the default acceleration rate, one.
pub const DEFAULT_ACCELERATION_RATE_BITS: u64 = 0x3FF0_0000_0000_0000;

/// The encoding of the default elasticity coefficient, one half.
pub const DEFAULT_ELASTICITY_BITS: u64 = 0x3FE0_0000_0000_0000;

/// An ordered set of bodies and the parameters that govern them.
#[derive(Clone)]
pub struct Simulation {
    /// The bodies. Their order only numbers them for snapshots.
    pub space_objects: Vec<SpaceObject>,
    /// The size of one step.
    pub time_delta: Real,
    /// The simulated duration.
    pub simulation_time: Real,
    /// The gravitational constant.
    pub g: Real,
    pub collision_type: CollisionType,
    /// The acceleration that each held direction gives the controllable body.
    pub acceleration_rate: Real,
    /// The restitution factor of a collision.
    pub elasticity_coefficient: Real,
    /// The live input; present exactly when one body is controllable.
    pub controllable_acceleration: Option<ControllableAcceleration>,
}

/// A simulation as a mathematical value.
pub struct SimulationView {
    pub space_objects: Seq<SpaceObjectView>,
    pub time_delta: Real,
    pub simulation_time: Real,
    pub g: Real,
    pub collision_type: CollisionType,
    pub acceleration_rate: Real,
    pub elasticity_coefficient: Real,
    pub controllable_acceleration: Option<ControllableAcceleration>,
}

/// The bodies of a vector as mathematical values, in order.
pub open spec fn bodies_of(space_objects: Seq<SpaceObject>) -> Seq<SpaceObjectView> {
    Seq::new(space_objects.len(), |i: int| space_objects[i]@)
}

impl View for Simulation {
    type V = SimulationView;

    open spec fn view(&self) -> SimulationView {
        SimulationView {
            space_objects: bodies_of(self.space_objects@),
            time_delta: self.time_delta,
            simulation_time: self.simulation_time,
            g: self.g,
            collision_type: self.collision_type,
            acceleration_rate: self.acceleration_rate,
            elasticity_coefficient: self.elasticity_coefficient,
            controllable_acceleration: self.controllable_acceleration,
        }
    }
}

/// How many of the bodies are controllable.
pub open spec fn controllable_count(bodies: Seq<SpaceObjectView>) -> nat
    decreases bodies.len(),
{
    if bodies.len() == 0 {
        0
    } else {
        controllable_count(bodies.drop_last()) + if bodies.last().movement_type
            == MovementType::Controllable {
            1nat
        } else {
            0nat
        }
    }
}

/// Why a simulation could not be made.
pub enum ParameterFault {
    Controllables,
    TimeDelta,
    SimulationTime,
    Gravity,
    AccelerationRate,
    Elasticity,
}

impl ParameterFault {
    /// The reason in words.
    pub open spec fn text(self) -> Seq<char> {
        match self {
            ParameterFault::Controllables => "Multiple controllable objects are not supported"@,
            ParameterFault::TimeDelta => "Time delta must be positive"@,
            ParameterFault::SimulationTime => "Simulation time must be positive"@,
            ParameterFault::Gravity => "Gravity constant must be positive"@,
            ParameterFault::AccelerationRate => "Acceleration rate must be positive"@,
            ParameterFault::Elasticity => "Elasticity coefficient must be in [0, 1]"@,
        }
    }
}

impl SimulationView {
    /// The rules of a simulation: at most one body is controllable, the live
    /// input is there exactly when one is, the step, the duration, the
    /// gravitational constant and the acceleration rate are positive, and the
    /// elasticity lies between zero and one.
    pub open spec fn wf(self) -> bool {
        &&& controllable_count(self.space_objects) <= 1
        &&& self.controllable_acceleration is Some <==> controllable_count(self.space_objects) == 1
        &&& self.time_delta.positive()
        &&& self.simulation_time.positive()
        &&& self.g.positive()
        &&& self.acceleration_rate.positive()
        &&& self.elasticity_coefficient.unit()
    }

    /// Every body is well formed.
    pub open spec fn bodies_wf(self) -> bool {
        forall|i: int| 0 <= i < self.space_objects.len() ==> (#[trigger] self.space_objects[i]).wf()
    }

    /// The first rule that the given bodies and parameters break, in the
    /// order in which construction looks at them.
    pub open spec fn fault(
        bodies: Seq<SpaceObjectView>,
        time_delta: Real,
        simulation_time: Real,
        g: Real,
        acceleration_rate: Real,
        elasticity_coefficient: Real,
    ) -> Option<ParameterFault> {
        if controllable_count(bodies) > 1 {
            Some(ParameterFault::Controllables)
        } else if !time_delta.positive() {
            Some(ParameterFault::TimeDelta)
        } else if !simulation_time.positive() {
            Some(ParameterFault::SimulationTime)
        } else if !g.positive() {
            Some(ParameterFault::Gravity)
        } else if !acceleration_rate.positive() {
            Some(ParameterFault::AccelerationRate)
        } else if !elasticity_coefficient.unit() {
            Some(ParameterFault::Elasticity)
        } else {
            None
        }
    }

    /// The simulation that construction yields: the bodies and parameters as
    /// given, and a live input with nothing held down if a body is
    /// controllable.
    pub open spec fn fresh(
        bodies: Seq<SpaceObjectView>,
        time_delta: Real,
        simulation_time: Real,
        g: Real,
        collision_type: CollisionType,
        acceleration_rate: Real,
        elasticity_coefficient: Real,
    ) -> SimulationView {
        SimulationView {
            space_objects: bodies,
            time_delta,
            simulation_time,
            g,
            collision_type,
            acceleration_rate,
            elasticity_coefficient,
            controllable_acceleration: if controllable_count(bodies) > 0 {
                Some(ControllableAcceleration::released())
            } else {
                None
            },
        }
    }

    /// The simulation without bodies and with the default parameters.
    pub open spec fn initial() -> SimulationView {
        SimulationView::fresh(
            Seq::empty(),
            Real { bits: DEFAULT_TIME_DELTA_BITS },
            Real { bits: DEFAULT_SIMULATION_TIME_BITS },
            Real { bits: DEFAULT_G_BITS },
            CollisionType::Elastic,
            Real { bits: DEFAULT_ACCELERATION_RATE_BITS },
            Real { bits: DEFAULT_ELASTICITY_BITS },
        )
    }
}

/// Counts the controllable bodies.
fn count_controllable(space_objects: &Vec<SpaceObject>) -> (count: usize)
    ensures
        count == controllable_count(bodies_of(space_objects@)),
{
    let mut count: usize = 0;
    let mut i: usize = 0;
    while i < space_objects.len()
        invariant
            i <= space_objects.len(),
            count <= i,
            count == controllable_count(bodies_of(space_objects@).take(i as int)),
        decreases space_objects.len() - i,
    {
        proof {
            let bodies = bodies_of(space_objects@);
            assert(bodies.take(i + 1).drop_last() == bodies.take(i as int));
        }
        if space_objects[i].movement_type == MovementType::Controllable {
            count = count + 1;
        }
        i = i + 1;
    }
    proof {
        let bodies = bodies_of(space_objects@);
        assert(bodies.take(i as int) == bodies);
    }
    count
}

impl Simulation {
    /// The rules of a simulation hold.
    pub open spec fn wf(self) -> bool {
        self@.wf()
    }

    /// Makes a simulation. The rules are looked at in a fixed order, and the
    /// first that is broken refuses the simulation with its reason in words:
    /// more than one controllable body, then a step, a duration, a
    /// gravitational constant or an acceleration rate that is not positive,
    /// then an elasticity outside `[0, 1]`.
    pub fn new(
        space_objects: Vec<SpaceObject>,
        time_delta: Real,
        simulation_time: Real,
        g: Real,
        collision_type: CollisionType,
        acceleration_rate: Real,
        elasticity_coefficient: Real,
    ) -> (r: Result<Simulation, String>)
        ensures
            match SimulationView::fault(
                bodies_of(space_objects@),
                time_delta,
                simulation_time,
                g,
                acceleration_rate,
                elasticity_coefficient,
            ) {
                Some(fault) => r is Err && r->Err_0@ == fault.text(),
                None => r is Ok && r->Ok_0.wf() && r->Ok_0@ == SimulationView::fresh(
                    bodies_of(space_objects@),
                    time_delta,
                    simulation_time,
                    g,
                    collision_type,
                    acceleration_rate,
                    elasticity_coefficient,
                ),
            },
    {
        let controllables = count_controllable(&space_objects);
        if controllables > 1 {
            return Err("Multiple controllable objects are not supported".to_owned());
        }
        if !time_delta.is_positive() {
            return Err("Time delta must be positive".to_owned());
        }
        if !simulation_time.is_positive() {
            return Err("Simulation time must be positive".to_owned());
        }
        if !g.is_positive() {
            return Err("Gravity constant must be positive".to_owned());
        }
        if !acceleration_rate.is_positive() {
            return Err("Acceleration rate must be positive".to_owned());
        }
        if !elasticity_coefficient.is_unit() {
            return Err("Elasticity coefficient must be in [0, 1]".to_owned());
        }
        let controllable_acceleration = if controllables > 0 {
            Some(ControllableAcceleration::default())
        } else {
            None
        };
        Ok(
            Simulation {
                space_objects,
                time_delta,
                simulation_time,
                g,
                collision_type,
                acceleration_rate,
                elasticity_coefficient,
                controllable_acceleration,
            },
        )
    }
}

/// The count of controllable bodies is at least the number of controllable
/// bodies among any two places, and nothing where no body is controllable.
proof fn counted_controllables(bodies: Seq<SpaceObjectView>, i: int, j: int)
    requires
        0 <= i < j < bodies.len(),
    ensures
        controllable_count(bodies) >= (if bodies[i].movement_type == MovementType::Controllable {
            1nat
        } else {
            0nat
        }) + (if bodies[j].movement_type == MovementType::Controllable {
            1nat
        } else {
            0nat
        }),
    decreases bodies.len(),
{
    let rest = bodies.drop_last();
    if j < rest.len() {
        counted_controllables(rest, i, j);
    } else if rest.len() >= 2 {
        if i == 0 {
            counted_controllables(rest, i, rest.len() - 1);
        } else {
            counted_controllables(rest, 0, i);
        }
    } else {
        assert(rest.len() == 1 && i == 0);
        assert(rest.drop_last().len() == 0);
        assert(controllable_count(rest) == controllable_count(rest.drop_last()) + (
        if rest.last().movement_type == MovementType::Controllable {
            1nat
        } else {
            0nat
        }));
    }
}

/// No body but possibly the one at place `i` is controllable: then the count
/// is one if that body is, and nothing if it is not.
proof fn counted_single(bodies: Seq<SpaceObjectView>, i: int)
    requires
        forall|k: int|
            0 <= k < bodies.len() && k != i ==> (#[trigger] bodies[k]).movement_type
                != MovementType::Controllable,
    ensures
        controllable_count(bodies) == (if 0 <= i < bodies.len() && bodies[i].movement_type
            == MovementType::Controllable {
            1nat
        } else {
            0nat
        }),
    decreases bodies.len(),
{
    if bodies.len() > 0 {
        let rest = bodies.drop_last();
        assert forall|k: int| 0 <= k < rest.len() && k != i implies (#[trigger] rest[k]).movement_type
            != MovementType::Controllable by {
            assert(rest[k] == bodies[k]);
        }
        counted_single(rest, i);
    }
}

/// Two controllable bodies refuse a simulation, whatever its parameters are:
/// where the bodies at two different places are both controllable, the first
/// rule that is broken is the one on controllable bodies.
pub proof fn two_controllables_are_refused(
    bodies: Seq<SpaceObjectView>,
    i: int,
    j: int,
    time_delta: Real,
    simulation_time: Real,
    g: Real,
    acceleration_rate: Real,
    elasticity_coefficient: Real,
)
    requires
        0 <= i < j < bodies.len(),
        bodies[i].movement_type == MovementType::Controllable,
        bodies[j].movement_type == MovementType::Controllable,
    ensures
        SimulationView::fault(
            bodies,
            time_delta,
            simulation_time,
            g,
            acceleration_rate,
            elasticity_coefficient,
        ) == Some(ParameterFault::Controllables),
{
    counted_controllables(bodies, i, j);
}

/// With no controllable body, or with one only, the bodies break no rule:
/// whether the simulation is made depends on its parameters alone, and it
/// has a live input exactly if it has the one controllable body.
pub proof fn one_controllable_is_accepted(
    bodies: Seq<SpaceObjectView>,
    i: int,
    time_delta: Real,
    simulation_time: Real,
    g: Real,
    collision_type: CollisionType,
    acceleration_rate: Real,
    elasticity_coefficient: Real,
)
    requires
        forall|k: int|
            0 <= k < bodies.len() && k != i ==> (#[trigger] bodies[k]).movement_type
                != MovementType::Controllable,
        time_delta.positive(),
        simulation_time.positive(),
        g.positive(),
        acceleration_rate.positive(),
        elasticity_coefficient.unit(),
    ensures
        SimulationView::fault(
            bodies,
            time_delta,
            simulation_time,
            g,
            acceleration_rate,
            elasticity_coefficient,
        ) is None,
        SimulationView::fresh(
            bodies,
            time_delta,
            simulation_time,
            g,
            collision_type,
            acceleration_rate,
            elasticity_coefficient,
        ).controllable_acceleration is Some <==> (0 <= i < bodies.len() && bodies[i].movement_type
            == MovementType::Controllable),
{
    counted_single(bodies, i);
}

impl Default for Simulation {
    /// No bodies, and the default parameters: a step of one ten-thousandth, a
    /// duration of ten, a gravitational constant of ten, elastic collisions,
    /// an acceleration rate of one and an elasticity of one half.
    fn default() -> (r: Simulation)
        ensures
            r@ == SimulationView::initial(),
            r.wf(),
    {
        let r = Simulation {
            space_objects: Vec::new(),
            time_delta: Real::from_bits(DEFAULT_TIME_DELTA_BITS),
            simulation_time: Real::from_bits(DEFAULT_SIMULATION_TIME_BITS),
            g: Real::from_bits(DEFAULT_G_BITS),
            collision_type: CollisionType::Elastic,
            acceleration_rate: Real::from_bits(DEFAULT_ACCELERATION_RATE_BITS),
            elasticity_coefficient: Real::from_bits(DEFAULT_ELASTICITY_BITS),
            controllable_acceleration: None,
        };
        assert(bodies_of(r.space_objects@) == Seq::<SpaceObjectView>::empty());
        r
    }
}

} // verus!
