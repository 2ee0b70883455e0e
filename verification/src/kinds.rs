//! The two classifications of the engine, and their numbering on the wire.

use vstd::prelude::*;
use vstd::std_specs::convert::TryFromSpecImpl;

verus! {

/// How a body moves.
#[derive(Debug, Clone, Copy, PartialEq, Eq, Structural)]
pub enum MovementType {
    /// Immovable: nothing ever changes its position or velocity.
    Static,
    /// Moved by gravitation and collisions.
    Ordinary,
    /// Moved by gravitation and collisions, and steered by live input.
    Controllable,
}

/// What happens when two bodies overlap.
#[derive(Debug, Clone, Copy, PartialEq, Eq, Structural)]
pub enum CollisionType {
    /// Bodies pass through each other.
    Traversing,
    /// Bodies bounce off each other.
    Elastic,
}

/// The number that was offered for a classification and names none.
#[derive(Debug, Clone, Copy, PartialEq, Eq, Structural)]
pub struct TryFromPrimitiveError {
    pub number: i64,
}

impl MovementType {
    /// The number that stands for the kind.
    pub open spec fn number(self) -> int {
        match self {
            MovementType::Static => 0,
            MovementType::Ordinary => 1,
            MovementType::Controllable => 2,
        }
    }

    /// The kind that a number stands for, if any.
    pub open spec fn of_number(number: int) -> Option<MovementType> {
        if number == 0 {
            Some(MovementType::Static)
        } else if number == 1 {
            Some(MovementType::Ordinary)
        } else if number == 2 {
            Some(MovementType::Controllable)
        } else {
            None
        }
    }

    /// The number that stands for the kind.
    pub fn to_primitive(self) -> (number: i64)
        ensures
            number == self.number(),
    {
        match self {
            MovementType::Static => 0,
            MovementType::Ordinary => 1,
            MovementType::Controllable => 2,
        }
    }
}

impl TryFrom<i64> for MovementType {
    type Error = TryFromPrimitiveError;

    /// The kind that `number` stands for; the number comes back where it
    /// stands for none.
    fn try_from(number: i64) -> (r: Result<MovementType, TryFromPrimitiveError>) {
        if number == 0 {
            Ok(MovementType::Static)
        } else if number == 1 {
            Ok(MovementType::Ordinary)
        } else if number == 2 {
            Ok(MovementType::Controllable)
        } else {
            Err(TryFromPrimitiveError { number })
        }
    }
}

impl TryFromSpecImpl<i64> for MovementType {
    open spec fn obeys_try_from_spec() -> bool {
        true
    }

    open spec fn try_from_spec(number: i64) -> Result<MovementType, TryFromPrimitiveError> {
        match MovementType::of_number(number as int) {
            Some(kind) => Ok(kind),
            None => Err(TryFromPrimitiveError { number }),
        }
    }
}

impl CollisionType {
    /// The number that stands for the mode.
    pub open spec fn number(self) -> int {
        match self {
            CollisionType::Traversing => 0,
            CollisionType::Elastic => 1,
        }
    }

    /// The mode that a number stands for, if any.
    pub open spec fn of_number(number: int) -> Option<CollisionType> {
        if number == 0 {
            Some(CollisionType::Traversing)
        } else if number == 1 {
            Some(CollisionType::Elastic)
        } else {
            None
        }
    }

    /// The number that stands for the mode.
    pub fn to_primitive(self) -> (number: i64)
        ensures
            number == self.number(),
    {
        match self {
            CollisionType::Traversing => 0,
            CollisionType::Elastic => 1,
        }
    }
}

impl TryFrom<i64> for CollisionType {
    type Error = TryFromPrimitiveError;

    /// The mode that `number` stands for; the number comes back where it
    /// stands for none.
    fn try_from(number: i64) -> (r: Result<CollisionType, TryFromPrimitiveError>) {
        if number == 0 {
            Ok(CollisionType::Traversing)
        } else if number == 1 {
            Ok(CollisionType::Elastic)
        } else {
            Err(TryFromPrimitiveError { number })
        }
    }
}

impl TryFromSpecImpl<i64> for CollisionType {
    open spec fn obeys_try_from_spec() -> bool {
        true
    }

    open spec fn try_from_spec(number: i64) -> Result<CollisionType, TryFromPrimitiveError> {
        match CollisionType::of_number(number as int) {
            Some(mode) => Ok(mode),
            None => Err(TryFromPrimitiveError { number }),
        }
    }
}

/// Every kind is the kind that its own number stands for, and a number that
/// stands for a kind is that kind's number.
pub proof fn movement_numbering_is_one_to_one(kind: MovementType, number: int)
    ensures
        MovementType::of_number(kind.number()) == Some(kind),
        MovementType::of_number(number) is Some ==> MovementType::of_number(number)->Some_0.number()
            == number,
{
}

/// Every mode is the mode that its own number stands for, and a number that
/// stands for a mode is that mode's number.
pub proof fn collision_numbering_is_one_to_one(mode: CollisionType, number: int)
    ensures
        CollisionType::of_number(mode.number()) == Some(mode),
        CollisionType::of_number(number) is Some ==> CollisionType::of_number(number)->Some_0.number()
            == number,
{
}

} // verus!
