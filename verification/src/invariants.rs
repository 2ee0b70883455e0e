//! What no step and no input event can change.
//!
//! A simulation changes in three ways only: collision outcomes are applied,
//! a step ends and the bodies take their new motions, or an input event
//! arrives. Whatever the numbers handed in, and however many such changes
//! follow each other, the bodies keep their number, names, masses, radii
//! and kinds, a static body keeps its whole state, and the rules of the
//! simulation go on holding.

use crate::body::SpaceObjectView;
use crate::engine::{Motion, Rebound};
use crate::kinds::{CollisionType, MovementType};
use crate::number::Vector2;
use crate::simulation::{controllable_count, SimulationView};
use vstd::prelude::*;

verus! {

/// One change of a simulation.
pub enum Change {
    /// Collision outcomes are applied in order.
    Rebounds(Seq<Rebound>),
    /// A step ends: every body takes its new motion.
    Motions(Seq<Motion>),
    /// An input event arrives: a direction by name, pressed or released.
    Input(Seq<char>, bool),
}

impl SimulationView {
    /// The simulation after one change.
    pub open spec fn changed(self, change: Change) -> SimulationView {
        match change {
            Change::Rebounds(outcomes) => self.rebounds(outcomes),
            Change::Motions(motions) => self.moved(motions),
            Change::Input(direction, is_pressed) => self.steered(direction, is_pressed),
        }
    }

    /// The simulation after a list of changes, in order.
    pub open spec fn changed_by(self, changes: Seq<Change>) -> SimulationView
        decreases changes.len(),
    {
        if changes.len() == 0 {
            self
        } else {
            self.changed_by(changes.drop_last()).changed(changes.last())
        }
    }

    /// `other` has the same bodies as `self` but for their motion: as many,
    /// each with the name, mass, radius and kind it had, and each static body
    /// exactly as it was. The parameters are the same, and a live input is
    /// there in both or in neither.
    pub open spec fn same_frame(self, other: SimulationView) -> bool {
        &&& other.space_objects.len() == self.space_objects.len()
        &&& forall|i: int|
            0 <= i < self.space_objects.len() ==> {
                let before = #[trigger] self.space_objects[i];
                let after = other.space_objects[i];
                &&& after.name == before.name
                &&& after.mass == before.mass
                &&& after.radius == before.radius
                &&& after.movement_type == before.movement_type
                &&& before.movement_type == MovementType::Static ==> after == before
            }
        &&& other.time_delta == self.time_delta
        &&& other.simulation_time == self.simulation_time
        &&& other.g == self.g
        &&& other.collision_type == self.collision_type
        &&& other.acceleration_rate == self.acceleration_rate
        &&& other.elasticity_coefficient == self.elasticity_coefficient
        &&& other.controllable_acceleration is Some <==> self.controllable_acceleration is Some
    }
}

/// Two lists of bodies with the same kinds, place by place, hold as many
/// controllable bodies.
proof fn count_depends_on_kinds_only(a: Seq<SpaceObjectView>, b: Seq<SpaceObjectView>)
    requires
        a.len() == b.len(),
        forall|i: int| 0 <= i < a.len() ==> (#[trigger] a[i]).movement_type == b[i].movement_type,
    ensures
        controllable_count(a) == controllable_count(b),
    decreases a.len(),
{
    if a.len() > 0 {
        count_depends_on_kinds_only(a.drop_last(), b.drop_last());
    }
}

/// Setting one velocity keeps the frame.
proof fn velocity_keeps_frame(sim: SimulationView, i: int, velocity: Vector2)
    ensures
        sim.same_frame(sim.with_velocity(i, velocity)),
{
}

/// Having the same frame carries over from change to change.
proof fn frame_carries_over(a: SimulationView, b: SimulationView, c: SimulationView)
    requires
        a.same_frame(b),
        b.same_frame(c),
    ensures
        a.same_frame(c),
{
    assert forall|i: int| 0 <= i < a.space_objects.len() implies {
        let before = #[trigger] a.space_objects[i];
        let after = c.space_objects[i];
        &&& after.name == before.name
        &&& after.mass == before.mass
        &&& after.radius == before.radius
        &&& after.movement_type == before.movement_type
        &&& before.movement_type == MovementType::Static ==> after == before
    } by {
        let middle = b.space_objects[i];
    }
}

/// Collision outcomes keep the frame.
proof fn rebounds_keep_frame(sim: SimulationView, outcomes: Seq<Rebound>)
    ensures
        sim.same_frame(sim.rebounds(outcomes)),
    decreases outcomes.len(),
{
    if outcomes.len() > 0 {
        let before = sim.rebounds(outcomes.drop_last());
        let outcome = outcomes.last();
        rebounds_keep_frame(sim, outcomes.drop_last());
        let middle = before.with_velocity(outcome.first as int, outcome.first_velocity);
        velocity_keeps_frame(before, outcome.first as int, outcome.first_velocity);
        velocity_keeps_frame(middle, outcome.second as int, outcome.second_velocity);
        frame_carries_over(before, middle, before.rebound(outcome));
        frame_carries_over(sim, before, before.rebound(outcome));
    }
}

/// One change keeps the frame.
proof fn change_keeps_frame(sim: SimulationView, change: Change)
    ensures
        sim.same_frame(sim.changed(change)),
{
    match change {
        Change::Rebounds(outcomes) => rebounds_keep_frame(sim, outcomes),
        Change::Motions(motions) => {},
        Change::Input(direction, is_pressed) => {},
    }
}

/// Whatever changes a simulation goes through, its bodies keep their number,
/// names, masses, radii and kinds, its parameters stay, and a live input is
/// neither gained nor lost.
pub proof fn changes_keep_the_frame(sim: SimulationView, changes: Seq<Change>)
    ensures
        sim.same_frame(sim.changed_by(changes)),
    decreases changes.len(),
{
    if changes.len() > 0 {
        let before = sim.changed_by(changes.drop_last());
        changes_keep_the_frame(sim, changes.drop_last());
        change_keeps_frame(before, changes.last());
        frame_carries_over(sim, before, before.changed(changes.last()));
    }
}

/// A static body is never changed: after any list of collision outcomes,
/// steps and input events, whatever numbers they carry, its position,
/// velocity and acceleration are what they were.
pub proof fn static_body_never_changes(sim: SimulationView, changes: Seq<Change>, i: int)
    requires
        0 <= i < sim.space_objects.len(),
        sim.space_objects[i].movement_type == MovementType::Static,
    ensures
        sim.changed_by(changes).space_objects.len() == sim.space_objects.len(),
        sim.changed_by(changes).space_objects[i] == sim.space_objects[i],
{
    changes_keep_the_frame(sim, changes);
}

/// The rules of a simulation go on holding through every change.
pub proof fn changes_keep_the_rules(sim: SimulationView, changes: Seq<Change>)
    requires
        sim.wf(),
    ensures
        sim.changed_by(changes).wf(),
{
    changes_keep_the_frame(sim, changes);
    count_depends_on_kinds_only(sim.space_objects, sim.changed_by(changes).space_objects);
}

/// Well-formed bodies stay well formed through every change: mass and radius
/// stay positive, and a static body stays at rest.
pub proof fn bodies_stay_well_formed(sim: SimulationView, changes: Seq<Change>)
    requires
        sim.bodies_wf(),
    ensures
        sim.changed_by(changes).bodies_wf(),
{
    changes_keep_the_frame(sim, changes);
    let after = sim.changed_by(changes);
    assert forall|i: int| 0 <= i < after.space_objects.len() implies (
    #[trigger] after.space_objects[i]).wf() by {
        assert(sim.space_objects[i].wf());
    }
}

/// An input event whose direction is none of `up`, `down`, `left`, `right`
/// leaves the simulation as it was, and so does any input event for a
/// simulation without a live input.
pub proof fn stray_input_changes_nothing(sim: SimulationView, direction: Seq<char>, is_pressed: bool)
    requires
        sim.controllable_acceleration is None || (direction != "up"@ && direction != "down"@
            && direction != "left"@ && direction != "right"@),
    ensures
        sim.steered(direction, is_pressed) == sim,
{
}

/// Where bodies traverse each other, collision outcomes change nothing.
pub proof fn traversing_bodies_never_rebound(sim: SimulationView, outcomes: Seq<Rebound>)
    requires
        sim.collision_type == CollisionType::Traversing,
    ensures
        sim.rebounds(outcomes) == sim,
    decreases outcomes.len(),
{
    if outcomes.len() > 0 {
        traversing_bodies_never_rebound(sim, outcomes.drop_last());
    }
}

} // verus!
