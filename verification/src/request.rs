//! A request to launch a simulation.
//!
//! A request may leave out any field, and a field that cannot be read counts
//! as left out: each then takes its default. The bodies are made first, in
//! order, then the simulation; the first fault refuses the request with its
//! reason in words.

use crate::body::{BodyFault, SpaceObject, SpaceObjectView};
use crate::kinds::{CollisionType, MovementType};
use crate::number::{Real, Vector2, ONE_BITS};
use crate::simulation::{bodies_of, Simulation, SimulationView};
use vstd::prelude::*;

verus! {

/// One body of a request. `None` stands for a field that was left out.
#[derive(Debug, Clone)]
pub struct BodyRequest {
    pub name: Option<String>,
    pub mass: Option<Real>,
    pub radius: Option<Real>,
    pub position_x: Option<Real>,
    pub position_y: Option<Real>,
    pub velocity_x: Option<Real>,
    pub velocity_y: Option<Real>,
    /// The kind by its number.
    pub movement_type: Option<i64>,
}

/// A request. `None` stands for a field that was left out.
#[derive(Debug, Clone)]
pub struct LaunchRequest {
    pub time_delta: Option<Real>,
    pub simulation_time: Option<Real>,
    pub g: Option<Real>,
    pub acceleration_rate: Option<Real>,
    pub elasticity_coefficient: Option<Real>,
    /// The collision mode by its number.
    pub collision_type: Option<i64>,
    pub space_objects: Vec<BodyRequest>,
}

/// One body of a request as a mathematical value.
pub struct BodyRequestView {
    pub name: Option<Seq<char>>,
    pub mass: Option<Real>,
    pub radius: Option<Real>,
    pub position_x: Option<Real>,
    pub position_y: Option<Real>,
    pub velocity_x: Option<Real>,
    pub velocity_y: Option<Real>,
    pub movement_type: Option<i64>,
}

/// A request as a mathematical value.
pub struct LaunchRequestView {
    pub time_delta: Option<Real>,
    pub simulation_time: Option<Real>,
    pub g: Option<Real>,
    pub acceleration_rate: Option<Real>,
    pub elasticity_coefficient: Option<Real>,
    pub collision_type: Option<i64>,
    pub space_objects: Seq<BodyRequestView>,
}

impl View for BodyRequest {
    type V = BodyRequestView;

    open spec fn view(&self) -> BodyRequestView {
        BodyRequestView {
            name: match self.name {
                Some(name) => Some(name@),
                None => None,
            },
            mass: self.mass,
            radius: self.radius,
            position_x: self.position_x,
            position_y: self.position_y,
            velocity_x: self.velocity_x,
            velocity_y: self.velocity_y,
            movement_type: self.movement_type,
        }
    }
}

impl View for LaunchRequest {
    type V = LaunchRequestView;

    open spec fn view(&self) -> LaunchRequestView {
        LaunchRequestView {
            time_delta: self.time_delta,
            simulation_time: self.simulation_time,
            g: self.g,
            acceleration_rate: self.acceleration_rate,
            elasticity_coefficient: self.elasticity_coefficient,
            collision_type: self.collision_type,
            space_objects: Seq::new(self.space_objects@.len(), |i: int| self.space_objects@[i]@),
        }
    }
}

/// The value of a field, or its default where it was left out.
pub open spec fn or_default(field: Option<Real>, default: Real) -> Real {
    match field {
        Some(value) => value,
        None => default,
    }
}

impl BodyRequestView {
    /// The name; `Unnamed` where none was given.
    pub open spec fn name_or_default(self) -> Seq<char> {
        match self.name {
            Some(name) => name,
            None => "Unnamed"@,
        }
    }

    /// The mass; one where none was given.
    pub open spec fn mass_or_default(self) -> Real {
        or_default(self.mass, Real { bits: ONE_BITS })
    }

    /// The radius; one where none was given.
    pub open spec fn radius_or_default(self) -> Real {
        or_default(self.radius, Real { bits: ONE_BITS })
    }

    /// The position; a coordinate that was not given is zero.
    pub open spec fn position(self) -> Vector2 {
        Vector2 {
            x: or_default(self.position_x, Real { bits: 0 }),
            y: or_default(self.position_y, Real { bits: 0 }),
        }
    }

    /// The velocity; a coordinate that was not given is zero.
    pub open spec fn velocity(self) -> Vector2 {
        Vector2 {
            x: or_default(self.velocity_x, Real { bits: 0 }),
            y: or_default(self.velocity_y, Real { bits: 0 }),
        }
    }

    /// The kind; static where none was given or the number stands for none.
    pub open spec fn kind(self) -> MovementType {
        match self.movement_type {
            Some(number) => match MovementType::of_number(number as int) {
                Some(kind) => kind,
                None => MovementType::Static,
            },
            None => MovementType::Static,
        }
    }

    /// What is wrong with the body, if anything.
    pub open spec fn fault(self) -> Option<BodyFault> {
        SpaceObjectView::fault(self.mass_or_default(), self.radius_or_default())
    }

    /// The body that the request describes.
    pub open spec fn body(self) -> SpaceObjectView {
        SpaceObjectView::fresh(
            self.name_or_default(),
            self.mass_or_default(),
            self.radius_or_default(),
            self.position(),
            self.velocity(),
            self.kind(),
        )
    }
}

/// The index of the first faulty body at or after `from`; the number of
/// bodies if there is none.
pub open spec fn first_faulty(bodies: Seq<BodyRequestView>, from: int) -> int
    decreases bodies.len() - from,
{
    if from < 0 || from >= bodies.len() {
        bodies.len() as int
    } else if bodies[from].fault() is Some {
        from
    } else {
        first_faulty(bodies, from + 1)
    }
}

impl LaunchRequestView {
    /// The collision mode; elastic where none was given or the number stands
    /// for none.
    pub open spec fn mode(self) -> CollisionType {
        match self.collision_type {
            Some(number) => match CollisionType::of_number(number as int) {
                Some(mode) => mode,
                None => SimulationView::initial().collision_type,
            },
            None => SimulationView::initial().collision_type,
        }
    }

    /// The bodies that the request describes, in order.
    pub open spec fn bodies(self) -> Seq<SpaceObjectView> {
        Seq::new(self.space_objects.len(), |i: int| self.space_objects[i].body())
    }

    /// The step size; the default where none was given.
    pub open spec fn step(self) -> Real {
        or_default(self.time_delta, SimulationView::initial().time_delta)
    }

    /// The simulated duration; the default where none was given.
    pub open spec fn duration(self) -> Real {
        or_default(self.simulation_time, SimulationView::initial().simulation_time)
    }

    /// The gravitational constant; the default where none was given.
    pub open spec fn gravity(self) -> Real {
        or_default(self.g, SimulationView::initial().g)
    }

    /// The acceleration rate; the default where none was given.
    pub open spec fn rate(self) -> Real {
        or_default(self.acceleration_rate, SimulationView::initial().acceleration_rate)
    }

    /// The elasticity; the default where none was given.
    pub open spec fn elasticity(self) -> Real {
        or_default(self.elasticity_coefficient, SimulationView::initial().elasticity_coefficient)
    }

    /// Why the request is refused, in words: the fault of the first faulty
    /// body, or else the first rule that the simulation would break. `None`
    /// where the request is in order.
    pub open spec fn refusal(self) -> Option<Seq<char>> {
        let faulty = first_faulty(self.space_objects, 0);
        if faulty < self.space_objects.len() {
            Some(self.space_objects[faulty].fault()->Some_0.text())
        } else {
            match SimulationView::fault(
                self.bodies(),
                self.step(),
                self.duration(),
                self.gravity(),
                self.rate(),
                self.elasticity(),
            ) {
                Some(fault) => Some(fault.text()),
                None => None,
            }
        }
    }

    /// The simulation that the request describes.
    pub open spec fn simulation(self) -> SimulationView {
        SimulationView::fresh(
            self.bodies(),
            self.step(),
            self.duration(),
            self.gravity(),
            self.mode(),
            self.rate(),
            self.elasticity(),
        )
    }
}

/// The value of a field, or its default where it was left out.
fn value_or(field: Option<Real>, default: Real) -> (r: Real)
    ensures
        r == or_default(field, default),
{
    match field {
        Some(value) => value,
        None => default,
    }
}

impl BodyRequest {
    /// The kind of the body.
    fn kind(&self) -> (kind: MovementType)
        ensures
            kind == self@.kind(),
    {
        match self.movement_type {
            Some(number) => match MovementType::try_from(number) {
                Ok(kind) => kind,
                Err(_) => MovementType::Static,
            },
            None => MovementType::Static,
        }
    }

    /// Makes the body that the request describes, each missing field at its
    /// default: the name `Unnamed`, mass and radius one, position and
    /// velocity zero, the kind static. A body whose mass or radius is not
    /// positive is refused.
    pub fn build(&self) -> (r: Result<SpaceObject, String>)
        ensures
            match self@.fault() {
                Some(fault) => r is Err && r->Err_0@ == fault.text(),
                None => r is Ok && r->Ok_0@ == self@.body() && r->Ok_0.wf(),
            },
    {
        let position = Vector2::new(
            value_or(self.position_x, Real::zero()),
            value_or(self.position_y, Real::zero()),
        );
        let velocity = Vector2::new(
            value_or(self.velocity_x, Real::zero()),
            value_or(self.velocity_y, Real::zero()),
        );
        let mass = value_or(self.mass, Real::from_bits(ONE_BITS));
        let radius = value_or(self.radius, Real::from_bits(ONE_BITS));
        let kind = self.kind();
        match &self.name {
            Some(name) => SpaceObject::new(name.as_str(), mass, radius, position, velocity, kind),
            None => SpaceObject::new("Unnamed", mass, radius, position, velocity, kind),
        }
    }
}

impl LaunchRequest {
    /// The collision mode of the request.
    fn mode(&self, default: CollisionType) -> (mode: CollisionType)
        requires
            default == SimulationView::initial().collision_type,
        ensures
            mode == self@.mode(),
    {
        match self.collision_type {
            Some(number) => match CollisionType::try_from(number) {
                Ok(mode) => mode,
                Err(_) => default,
            },
            None => default,
        }
    }

    /// Makes the simulation that the request describes, each missing
    /// parameter at its default. The bodies are made first, in order, and the
    /// first faulty one refuses the request; then the rules of the simulation
    /// are looked at. A refusal carries its reason in words.
    pub fn build(&self) -> (r: Result<Simulation, String>)
        ensures
            match self@.refusal() {
                Some(reason) => r is Err && r->Err_0@ == reason,
                None => r is Ok && r->Ok_0@ == self@.simulation() && r->Ok_0.wf()
                    && r->Ok_0@.bodies_wf(),
            },
    {
        let defaults = Simulation::default();
        let mut space_objects: Vec<SpaceObject> = Vec::new();
        let mut i: usize = 0;
        while i < self.space_objects.len()
            invariant
                i <= self.space_objects.len(),
                space_objects@.len() == i,
                first_faulty(self@.space_objects, 0) == first_faulty(self@.space_objects, i as int),
                forall|k: int|
                    0 <= k < i ==> (#[trigger] space_objects@[k])@ == self@.space_objects[k].body(),
                forall|k: int| 0 <= k < i ==> (#[trigger] space_objects@[k]).wf(),
            decreases self.space_objects.len() - i,
        {
            match self.space_objects[i].build() {
                Ok(body) => {
                    space_objects.push(body);
                },
                Err(reason) => {
                    return Err(reason);
                },
            }
            i = i + 1;
        }
        assert(bodies_of(space_objects@) =~= self@.bodies());
        Simulation::new(
            space_objects,
            value_or(self.time_delta, defaults.time_delta),
            value_or(self.simulation_time, defaults.simulation_time),
            value_or(self.g, defaults.g),
            self.mode(defaults.collision_type),
            value_or(self.acceleration_rate, defaults.acceleration_rate),
            value_or(self.elasticity_coefficient, defaults.elasticity_coefficient),
        )
    }
}

} // verus!
