//! One simulated body.

use crate::kinds::MovementType;
use crate::number::{Real, Vector2};
use vstd::prelude::*;

verus! {

/// The physical state of one body.
#[derive(Debug, Clone)]
pub struct SpaceObject {
    /// A label; it has no part in the physics.
    pub name: String,
    pub mass: Real,
    /// Used for the collision test and for rendering only.
    pub radius: Real,
    pub position: Vector2,
    pub velocity: Vector2,
    /// The acceleration computed in the latest step; it acts on the velocity
    /// in the step after.
    pub acceleration: Vector2,
    pub movement_type: MovementType,
}

/// A body as a mathematical value: the name is a sequence of characters.
pub struct SpaceObjectView {
    pub name: Seq<char>,
    pub mass: Real,
    pub radius: Real,
    pub position: Vector2,
    pub velocity: Vector2,
    pub acceleration: Vector2,
    pub movement_type: MovementType,
}

impl View for SpaceObject {
    type V = SpaceObjectView;

    open spec fn view(&self) -> SpaceObjectView {
        SpaceObjectView {
            name: self.name@,
            mass: self.mass,
            radius: self.radius,
            position: self.position,
            velocity: self.velocity,
            acceleration: self.acceleration,
            movement_type: self.movement_type,
        }
    }
}

/// Why a body could not be made.
pub enum BodyFault {
    Mass,
    Radius,
}

impl BodyFault {
    /// The reason in words.
    pub open spec fn text(self) -> Seq<char> {
        match self {
            BodyFault::Mass => "Mass must be positive"@,
            BodyFault::Radius => "Radius must be positive"@,
        }
    }
}

impl SpaceObjectView {
    /// Mass and radius are positive, and a static body is at rest.
    pub open spec fn wf(self) -> bool {
        &&& self.mass.positive()
        &&& self.radius.positive()
        &&& self.movement_type == MovementType::Static ==> self.velocity == Vector2::zero()
    }

    /// What is wrong with a mass and a radius. The mass is looked at first.
    pub open spec fn fault(mass: Real, radius: Real) -> Option<BodyFault> {
        if !mass.positive() {
            Some(BodyFault::Mass)
        } else if !radius.positive() {
            Some(BodyFault::Radius)
        } else {
            None
        }
    }

    /// The body that construction yields: a static body's velocity is
    /// discarded, and every body starts without acceleration.
    pub open spec fn fresh(
        name: Seq<char>,
        mass: Real,
        radius: Real,
        position: Vector2,
        velocity: Vector2,
        movement_type: MovementType,
    ) -> SpaceObjectView {
        SpaceObjectView {
            name,
            mass,
            radius,
            position,
            velocity: if movement_type == MovementType::Static {
                Vector2::zero()
            } else {
                velocity
            },
            acceleration: Vector2::zero(),
            movement_type,
        }
    }
}

impl SpaceObject {
    /// Mass and radius are positive, and a static body is at rest.
    pub open spec fn wf(self) -> bool {
        self@.wf()
    }

    /// Makes a body. A mass that is not positive is refused, then a radius
    /// that is not positive, each with its reason in words; otherwise the
    /// body is made as `SpaceObjectView::fresh` says.
    pub fn new(
        name: &str,
        mass: Real,
        radius: Real,
        position: Vector2,
        velocity: Vector2,
        movement_type: MovementType,
    ) -> (r: Result<SpaceObject, String>)
        ensures
            match SpaceObjectView::fault(mass, radius) {
                Some(fault) => r is Err && r->Err_0@ == fault.text(),
                None => r is Ok && r->Ok_0@ == SpaceObjectView::fresh(
                    name@,
                    mass,
                    radius,
                    position,
                    velocity,
                    movement_type,
                ) && r->Ok_0.wf(),
            },
    {
        if !mass.is_positive() {
            return Err("Mass must be positive".to_owned());
        }
        if !radius.is_positive() {
            return Err("Radius must be positive".to_owned());
        }
        let velocity = match movement_type {
            MovementType::Static => Vector2::zeros(),
            _ => velocity,
        };
        Ok(
            SpaceObject {
                name: name.to_owned(),
                mass,
                radius,
                position,
                velocity,
                acceleration: Vector2::zeros(),
                movement_type,
            },
        )
    }
}

} // verus!
