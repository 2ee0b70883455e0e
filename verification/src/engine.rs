//! What a step does to the bodies.
//!
//! The numbers of a step (distances, rebound velocities, accelerations, new
//! positions) are computed by the caller in floating point. The engine
//! decides what is done with them: which pairs of bodies are looked at, in
//! which order outcomes are applied, and which bodies they may touch. A
//! static body is never touched.

use crate::body::SpaceObjectView;
use crate::kinds::{CollisionType, MovementType};
use crate::number::{Real, Vector2};
use crate::simulation::{Simulation, SimulationView};
use vstd::prelude::*;

verus! {

/// The outcome of one collision: the two bodies by their indices, and the
/// velocity of each after it.
#[derive(Debug, Clone, Copy)]
pub struct Rebound {
    pub first: usize,
    pub second: usize,
    pub first_velocity: Vector2,
    pub second_velocity: Vector2,
}

/// What a step gives one body: where it is and how fast it moves after the
/// step, and the acceleration that was computed in it.
#[derive(Debug, Clone, Copy)]
pub struct Motion {
    pub position: Vector2,
    pub velocity: Vector2,
    pub acceleration: Vector2,
}

/// What an observer is shown of one body.
#[derive(Debug, Clone, Copy)]
pub struct BodySnapshot {
    pub index: usize,
    pub x: Real,
    pub y: Real,
    pub radius: Real,
}

/// `pairs` lists the pairs `(i, j)` with `i < j < n`, each once, ordered by
/// `i` and then by `j`.
pub open spec fn lists_all_pairs(pairs: Seq<(usize, usize)>, n: nat) -> bool {
    &&& forall|k: int| 0 <= k < pairs.len() ==> (#[trigger] pairs[k]).0 < pairs[k].1 < n
    &&& forall|k: int, l: int|
        0 <= k < l < pairs.len() ==> (#[trigger] pairs[k]).0 < (#[trigger] pairs[l]).0 || (
        pairs[k].0 == pairs[l].0 && pairs[k].1 < pairs[l].1)
    &&& forall|i: usize, j: usize| i < j < n ==> pairs.contains((i, j))
}

/// A body alone has no partner to collide with: for fewer than two bodies the
/// list of pairs is empty.
pub proof fn a_lone_body_has_no_partner(pairs: Seq<(usize, usize)>, n: nat)
    requires
        lists_all_pairs(pairs, n),
        n < 2,
    ensures
        pairs.len() == 0,
{
    if pairs.len() > 0 {
        assert(pairs[0].0 < pairs[0].1 < n);
    }
}

/// There is one list of all pairs only: two lists that both hold every pair
/// once and in order are the same list.
pub proof fn the_pairs_are_determined(a: Seq<(usize, usize)>, b: Seq<(usize, usize)>, n: nat)
    requires
        lists_all_pairs(a, n),
        lists_all_pairs(b, n),
    ensures
        a == b,
{
    prefixes_agree(a, b, n, a.len() as int);
    prefixes_agree(b, a, n, b.len() as int);
    if a.len() < b.len() {
        let extra = b[a.len() as int];
        assert(a.contains(extra));
        let k = choose|k: int| 0 <= k < a.len() && a[k] == extra;
        assert(b[k] == extra);
    } else if b.len() < a.len() {
        let extra = a[b.len() as int];
        assert(b.contains(extra));
        let k = choose|k: int| 0 <= k < b.len() && b[k] == extra;
        assert(a[k] == extra);
    }
    assert(a =~= b);
}

/// Two lists of all pairs agree on every place that both have, up to `upto`.
proof fn prefixes_agree(a: Seq<(usize, usize)>, b: Seq<(usize, usize)>, n: nat, upto: int)
    requires
        lists_all_pairs(a, n),
        lists_all_pairs(b, n),
        0 <= upto <= a.len(),
    ensures
        forall|k: int| 0 <= k < upto && k < b.len() ==> a[k] == b[k],
    decreases upto,
{
    if upto > 0 {
        prefixes_agree(a, b, n, upto - 1);
        let last = upto - 1;
        if last < b.len() {
            // Each list holds the other's entry at this place; as both are in
            // order and agree before it, neither entry can stand later.
            assert(a.contains(b[last]));
            let in_a = choose|k: int| 0 <= k < a.len() && a[k] == b[last];
            assert(b.contains(a[last]));
            let in_b = choose|k: int| 0 <= k < b.len() && b[k] == a[last];
            if in_a < last {
                assert(a[in_a] == b[in_a]);
            }
            if in_b < last {
                assert(b[in_b] == a[in_b]);
            }
        }
    }
}

impl SimulationView {
    /// The simulation in which body `i` has the given velocity. A static body
    /// keeps its own, and an index that names no body changes nothing.
    pub open spec fn with_velocity(self, i: int, velocity: Vector2) -> SimulationView {
        if 0 <= i < self.space_objects.len() && self.space_objects[i].movement_type
            != MovementType::Static {
            SimulationView {
                space_objects: self.space_objects.update(
                    i,
                    SpaceObjectView { velocity, ..self.space_objects[i] },
                ),
                ..self
            }
        } else {
            self
        }
    }

    /// The simulation after one collision outcome. Only elastic collisions
    /// have outcomes: a traversing simulation stays as it is.
    pub open spec fn rebound(self, outcome: Rebound) -> SimulationView {
        if self.collision_type == CollisionType::Elastic {
            self.with_velocity(outcome.first as int, outcome.first_velocity).with_velocity(
                outcome.second as int,
                outcome.second_velocity,
            )
        } else {
            self
        }
    }

    /// The simulation after a list of collision outcomes, applied in order.
    pub open spec fn rebounds(self, outcomes: Seq<Rebound>) -> SimulationView
        decreases outcomes.len(),
    {
        if outcomes.len() == 0 {
            self
        } else {
            self.rebounds(outcomes.drop_last()).rebound(outcomes.last())
        }
    }

    /// Body `i` after a step that gives it `motion`: a static body stays as
    /// it is, any other takes position, velocity and acceleration from it.
    pub open spec fn moved_body(self, i: int, motion: Motion) -> SpaceObjectView {
        if self.space_objects[i].movement_type == MovementType::Static {
            self.space_objects[i]
        } else {
            SpaceObjectView {
                position: motion.position,
                velocity: motion.velocity,
                acceleration: motion.acceleration,
                ..self.space_objects[i]
            }
        }
    }

    /// The simulation after a step: body `i` takes `motions[i]`, all bodies
    /// at once. A body for which the list is too short stays as it is.
    pub open spec fn moved(self, motions: Seq<Motion>) -> SimulationView {
        SimulationView {
            space_objects: Seq::new(
                self.space_objects.len(),
                |i: int|
                    if i < motions.len() {
                        self.moved_body(i, motions[i])
                    } else {
                        self.space_objects[i]
                    },
            ),
            ..self
        }
    }

    /// The simulation after an input event. Without a live input there is
    /// nothing to set.
    pub open spec fn steered(self, direction: Seq<char>, is_pressed: bool) -> SimulationView {
        match self.controllable_acceleration {
            Some(input) => SimulationView {
                controllable_acceleration: Some(input.pressed(direction, is_pressed)),
                ..self
            },
            None => self,
        }
    }

    /// The direction in which the live input pushes body `i`: the net
    /// direction of the input for the controllable body, nothing for any
    /// other body and without a live input.
    pub open spec fn steering(self, i: int) -> (int, int) {
        if self.space_objects[i].movement_type == MovementType::Controllable {
            match self.controllable_acceleration {
                Some(input) => input.net(),
                None => (0, 0),
            }
        } else {
            (0, 0)
        }
    }

    /// What an observer is shown of body `i`.
    pub open spec fn shown(self, i: int) -> BodySnapshot {
        BodySnapshot {
            index: i as usize,
            x: self.space_objects[i].position.x,
            y: self.space_objects[i].position.y,
            radius: self.space_objects[i].radius,
        }
    }
}

impl Simulation {
    /// The pairs of bodies that a step has to test for a collision: every
    /// pair once, in order, where collisions are elastic; none where bodies
    /// traverse each other.
    pub fn collision_pairs(&self) -> (pairs: Vec<(usize, usize)>)
        ensures
            self.collision_type == CollisionType::Traversing ==> pairs@.len() == 0,
            self.collision_type == CollisionType::Elastic ==> lists_all_pairs(
                pairs@,
                self.space_objects@.len(),
            ),
    {
        let mut pairs: Vec<(usize, usize)> = Vec::new();
        if self.collision_type == CollisionType::Traversing {
            return pairs;
        }
        let n = self.space_objects.len();
        let mut i: usize = 0;
        while i < n
            invariant
                i <= n,
                forall|k: int| 0 <= k < pairs@.len() ==> (#[trigger] pairs@[k]).0 < pairs@[k].1 < n,
                forall|k: int| 0 <= k < pairs@.len() ==> (#[trigger] pairs@[k]).0 < i,
                forall|k: int, l: int|
                    0 <= k < l < pairs@.len() ==> (#[trigger] pairs@[k]).0 < (#[trigger] pairs@[l]).0
                        || (pairs@[k].0 == pairs@[l].0 && pairs@[k].1 < pairs@[l].1),
                forall|a: usize, b: usize| a < b < n && a < i ==> pairs@.contains((a, b)),
            decreases n - i,
        {
            let mut j: usize = i + 1;
            while j < n
                invariant
                    i < n,
                    i < j <= n,
                    forall|k: int|
                        0 <= k < pairs@.len() ==> (#[trigger] pairs@[k]).0 < pairs@[k].1 < n,
                    forall|k: int|
                        0 <= k < pairs@.len() ==> (#[trigger] pairs@[k]).0 < i || (pairs@[k].0 == i
                            && pairs@[k].1 < j),
                    forall|k: int, l: int|
                        0 <= k < l < pairs@.len() ==> (#[trigger] pairs@[k]).0 < (
                        #[trigger] pairs@[l]).0 || (pairs@[k].0 == pairs@[l].0 && pairs@[k].1
                            < pairs@[l].1),
                    forall|a: usize, b: usize|
                        a < b < n && (a < i || (a == i && b < j)) ==> pairs@.contains((a, b)),
                decreases n - j,
            {
                let ghost before = pairs@;
                pairs.push((i, j));
                proof {
                    assert forall|a: usize, b: usize|
                        a < b < n && (a < i || (a == i && b < j + 1)) implies pairs@.contains(
                        (a, b),
                    ) by {
                        if a == i && b == j {
                            assert(pairs@[before.len() as int] == (a, b));
                        } else {
                            assert(before.contains((a, b)));
                            let k = choose|k: int| 0 <= k < before.len() && before[k] == (a, b);
                            assert(pairs@[k] == (a, b));
                        }
                    }
                }
                j = j + 1;
            }
            i = i + 1;
        }
        pairs
    }

    /// Gives body `i` the velocity, unless the body is static or there is no
    /// such body.
    fn set_velocity(&mut self, i: usize, velocity: Vector2)
        ensures
            final(self)@ == old(self)@.with_velocity(i as int, velocity),
    {
        if i < self.space_objects.len() {
            if self.space_objects[i].movement_type != MovementType::Static {
                self.space_objects[i].velocity = velocity;
                assert(self@.space_objects =~= old(self)@.with_velocity(
                    i as int,
                    velocity,
                ).space_objects);
            }
        }
    }

    /// Applies the outcomes of the collisions of a step, in order: each gives
    /// its two bodies their velocities after the collision. A static body
    /// keeps its velocity whatever the outcome says, and where bodies
    /// traverse each other nothing is applied at all.
    pub fn apply_rebounds(&mut self, outcomes: &Vec<Rebound>)
        ensures
            final(self)@ == old(self)@.rebounds(outcomes@),
    {
        let mut k: usize = 0;
        while k < outcomes.len()
            invariant
                k <= outcomes.len(),
                self@ == old(self)@.rebounds(outcomes@.take(k as int)),
            decreases outcomes.len() - k,
        {
            proof {
                assert(outcomes@.take(k + 1).drop_last() == outcomes@.take(k as int));
            }
            if self.collision_type == CollisionType::Elastic {
                let outcome = outcomes[k];
                self.set_velocity(outcome.first, outcome.first_velocity);
                self.set_velocity(outcome.second, outcome.second_velocity);
            }
            k = k + 1;
        }
        proof {
            assert(outcomes@.take(k as int) == outcomes@);
        }
    }

    /// Ends a step: body `i` takes its new position, velocity and
    /// acceleration from `motions[i]`, all bodies at once. A static body
    /// stays as it is.
    pub fn apply_motions(&mut self, motions: &Vec<Motion>)
        ensures
            final(self)@ == old(self)@.moved(motions@),
    {
        let mut i: usize = 0;
        while i < self.space_objects.len() && i < motions.len()
            invariant
                i <= self.space_objects@.len() == old(self).space_objects@.len(),
                i <= motions@.len(),
                self.time_delta == old(self).time_delta,
                self.simulation_time == old(self).simulation_time,
                self.g == old(self).g,
                self.collision_type == old(self).collision_type,
                self.acceleration_rate == old(self).acceleration_rate,
                self.elasticity_coefficient == old(self).elasticity_coefficient,
                self.controllable_acceleration == old(self).controllable_acceleration,
                forall|k: int|
                    0 <= k < i ==> (#[trigger] self.space_objects@[k])@ == old(self)@.moved_body(
                        k,
                        motions@[k],
                    ),
                forall|k: int|
                    i <= k < self.space_objects@.len() ==> #[trigger] self.space_objects@[k] == old(
                        self,
                    ).space_objects@[k],
            decreases self.space_objects.len() - i,
        {
            if self.space_objects[i].movement_type != MovementType::Static {
                let motion = motions[i];
                self.space_objects[i].position = motion.position;
                self.space_objects[i].velocity = motion.velocity;
                self.space_objects[i].acceleration = motion.acceleration;
            }
            i = i + 1;
        }
        proof {
            assert(self@.space_objects =~= old(self)@.moved(motions@).space_objects);
        }
    }

    /// Applies an input event: the named direction of the live input is set
    /// to `is_pressed`. A name that is none of `up`, `down`, `left`, `right`
    /// changes nothing, and neither does an event for a simulation without a
    /// controllable body.
    pub fn handle_button_press(&mut self, direction: &str, is_pressed: bool)
        ensures
            final(self)@ == old(self)@.steered(direction@, is_pressed),
    {
        match self.controllable_acceleration {
            Some(input) => {
                let mut input = input;
                input.press(direction, is_pressed);
                self.controllable_acceleration = Some(input);
            },
            None => {},
        }
    }

    /// The direction in which the live input pushes body `i`, each coordinate
    /// one of -1, 0, 1.
    pub fn control_direction(&self, i: usize) -> (d: (i8, i8))
        requires
            i < self.space_objects@.len(),
        ensures
            (d.0 as int, d.1 as int) == self@.steering(i as int),
    {
        if self.space_objects[i].movement_type == MovementType::Controllable {
            match self.controllable_acceleration {
                Some(input) => input.direction(),
                None => (0, 0),
            }
        } else {
            (0, 0)
        }
    }

    /// What an observer is shown: index, position and radius of every body,
    /// in order.
    pub fn snapshot(&self) -> (shown: Vec<BodySnapshot>)
        ensures
            shown@.len() == self@.space_objects.len(),
            forall|i: int| 0 <= i < shown@.len() ==> #[trigger] shown@[i] == self@.shown(i),
    {
        let mut shown: Vec<BodySnapshot> = Vec::new();
        let mut i: usize = 0;
        while i < self.space_objects.len()
            invariant
                i <= self.space_objects.len(),
                shown@.len() == i,
                forall|k: int| 0 <= k < i ==> #[trigger] shown@[k] == self@.shown(k),
            decreases self.space_objects.len() - i,
        {
            shown.push(
                BodySnapshot {
                    index: i,
                    x: self.space_objects[i].position.x,
                    y: self.space_objects[i].position.y,
                    radius: self.space_objects[i].radius,
                },
            );
            i = i + 1;
        }
        shown
    }
}

} // verus!
