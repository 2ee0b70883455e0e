//! The pacing of a session's loop.
//!
//! A session advances its simulation in ticks. In each tick it takes a batch
//! of steps, then publishes one snapshot and sleeps for what is left of the
//! tick. Between any two steps it looks at the stop flag and at the budget of
//! steps. What the loop does next is decided here, from where it stands and
//! from the stop flag as just read; taking the step, publishing and sleeping
//! are the caller's work.

use crate::number::Real;
use vstd::prelude::*;

verus! {

/// The two numbers that pace a loop. They are derived once, when it starts.
#[derive(Debug, Clone, Copy, PartialEq, Eq, Structural)]
pub struct Pace {
    /// How many steps are taken between two snapshots, at least one.
    pub steps_per_emit: usize,
    /// How many steps the whole simulated duration holds.
    pub total_steps: usize,
}

/// Where a loop stands.
#[derive(Debug, Clone, Copy, PartialEq, Eq, Structural)]
pub enum Phase {
    /// Between two ticks: the next tick has not begun.
    Between,
    /// Within a tick: steps are being taken.
    Stepping,
    /// The loop has ended.
    Ended,
}

/// The state of a loop.
#[derive(Debug, Clone, Copy, PartialEq, Eq, Structural)]
pub struct Progress {
    pub phase: Phase,
    /// The steps taken since the loop started.
    pub step_count: usize,
    /// The steps taken in the tick that is under way.
    pub batch: usize,
}

/// What the loop has to do next.
#[derive(Debug, Clone, Copy, PartialEq, Eq, Structural)]
pub enum Action {
    /// A tick begins: note the time.
    BeginTick,
    /// Advance the simulation by one step.
    Step,
    /// The tick's steps are done: publish a snapshot, then sleep for the rest
    /// of the tick.
    Publish,
    /// Leave the loop.
    Exit,
}

impl Progress {
    /// A loop that has not begun.
    pub open spec fn initial() -> Progress {
        Progress { phase: Phase::Between, step_count: 0, batch: 0 }
    }

    /// A loop that has not begun.
    pub fn start() -> (progress: Progress)
        ensures
            progress == Progress::initial(),
    {
        Progress { phase: Phase::Between, step_count: 0, batch: 0 }
    }
}

impl Pace {
    /// The pace for a tick that holds `steps_per_tick` whole steps and a
    /// duration that holds `total_steps`: a tick takes at least one step.
    pub open spec fn of(steps_per_tick: usize, total_steps: usize) -> Pace {
        Pace {
            steps_per_emit: if steps_per_tick < 1 {
                1
            } else {
                steps_per_tick
            },
            total_steps,
        }
    }

    /// The pace for a tick that holds `steps_per_tick` whole steps and a
    /// duration that holds `total_steps`.
    pub fn new(steps_per_tick: usize, total_steps: usize) -> (pace: Pace)
        ensures
            pace == Pace::of(steps_per_tick, total_steps),
    {
        let steps_per_emit: usize = if steps_per_tick < 1 {
            1
        } else {
            steps_per_tick
        };
        Pace { steps_per_emit, total_steps }
    }

    /// The pace of a simulation from its two quotients: the length of a tick
    /// by the step size, and the simulated duration by the step size. Each
    /// counts by its whole part.
    pub fn from_quotients(steps_per_tick: Real, total_steps: Real) -> (pace: Pace)
        ensures
            pace == Pace::of(steps_per_tick.count(), total_steps.count()),
    {
        Pace::new(steps_per_tick.to_count(), total_steps.to_count())
    }

    /// What a loop does next, and where it stands afterwards. `stop` is the
    /// stop flag as read for this decision.
    ///
    /// Between ticks, the loop ends if it is to stop or the budget is used
    /// up, and begins a tick otherwise. Within a tick, the batch ends with a
    /// snapshot if it is full, if the loop is to stop, or if the budget is
    /// used up; otherwise one more step is taken. A loop that has ended stays
    /// ended.
    pub open spec fn next(self, progress: Progress, stop: bool) -> (Progress, Action) {
        match progress.phase {
            Phase::Between => if !stop && progress.step_count < self.total_steps {
                (Progress { phase: Phase::Stepping, batch: 0, ..progress }, Action::BeginTick)
            } else {
                (Progress { phase: Phase::Ended, ..progress }, Action::Exit)
            },
            Phase::Stepping => if progress.batch >= self.steps_per_emit || stop
                || progress.step_count >= self.total_steps {
                (Progress { phase: Phase::Between, ..progress }, Action::Publish)
            } else {
                (
                    Progress {
                        phase: Phase::Stepping,
                        step_count: (progress.step_count + 1) as usize,
                        batch: (progress.batch + 1) as usize,
                    },
                    Action::Step,
                )
            },
            Phase::Ended => (progress, Action::Exit),
        }
    }

    /// What every state of a loop meets: a tick takes at least one step, no
    /// more steps were taken than the budget holds, in the tick no more than
    /// a batch holds, and a tick has only begun if a step was left to take.
    pub open spec fn admits(self, progress: Progress) -> bool {
        &&& self.steps_per_emit >= 1
        &&& progress.step_count <= self.total_steps
        &&& progress.batch <= self.steps_per_emit
        &&& progress.phase == Phase::Stepping && progress.batch == 0 ==> progress.step_count
            < self.total_steps
    }

    /// How far a loop that is not stopped is from its end: it falls with
    /// every action but the last.
    pub open spec fn distance(self, progress: Progress) -> int {
        let left = self.total_steps - progress.step_count;
        match progress.phase {
            Phase::Between => 3 * left + 2,
            Phase::Stepping => if progress.batch == 0 {
                3 * left + 1
            } else {
                3 * left + 3
            },
            Phase::Ended => 0,
        }
    }

    /// Decides what the loop does next and moves `progress` on.
    pub fn advance(&self, progress: &mut Progress, stop: bool) -> (action: Action)
        ensures
            (*final(progress), action) == self.next(*old(progress), stop),
    {
        match progress.phase {
            Phase::Between => {
                if !stop && progress.step_count < self.total_steps {
                    progress.phase = Phase::Stepping;
                    progress.batch = 0;
                    Action::BeginTick
                } else {
                    progress.phase = Phase::Ended;
                    Action::Exit
                }
            },
            Phase::Stepping => {
                if progress.batch >= self.steps_per_emit || stop || progress.step_count
                    >= self.total_steps {
                    progress.phase = Phase::Between;
                    Action::Publish
                } else {
                    progress.step_count = progress.step_count + 1;
                    progress.batch = progress.batch + 1;
                    Action::Step
                }
            },
            Phase::Ended => Action::Exit,
        }
    }
}

/// A loop starts in a state that its pace admits, and every decision leads
/// to such a state again. So the budget of steps is never exceeded, and no
/// batch is longer than the pace allows.
pub proof fn every_state_is_admitted(pace: Pace, progress: Progress, stop: bool)
    requires
        pace.steps_per_emit >= 1,
    ensures
        pace.admits(Progress::initial()),
        pace.admits(progress) ==> pace.admits(pace.next(progress, stop).0),
{
}

/// Steps are counted one by one and never taken back: a decision leaves the
/// count as it is unless it asks for a step, and then the count grows by one.
pub proof fn steps_are_counted(pace: Pace, progress: Progress, stop: bool)
    requires
        pace.admits(progress),
    ensures
        pace.next(progress, stop).1 == Action::Step ==> pace.next(progress, stop).0.step_count
            == progress.step_count + 1,
        pace.next(progress, stop).1 != Action::Step ==> pace.next(progress, stop).0.step_count
            == progress.step_count,
{
}

/// Once the stop flag is seen set, no step is taken any more: the loop
/// publishes at most one snapshot, that of the tick under way, and ends with
/// the decision after it.
pub proof fn stopping_ends_the_loop(pace: Pace, progress: Progress)
    requires
        pace.admits(progress),
    ensures
        ({
            let (after, action) = pace.next(progress, true);
            &&& after.step_count == progress.step_count
            &&& action == Action::Publish || action == Action::Exit
            &&& action == Action::Publish ==> progress.phase == Phase::Stepping && pace.next(
                after,
                true,
            ).1 == Action::Exit
            &&& action == Action::Exit ==> after.phase == Phase::Ended
        }),
{
}

/// A loop that has ended does nothing more.
pub proof fn an_ended_loop_stays_ended(pace: Pace, progress: Progress, stop: bool)
    requires
        progress.phase == Phase::Ended,
    ensures
        pace.next(progress, stop) == (progress, Action::Exit),
{
}

/// A loop that is not stopped ends by itself, and exactly when its budget is
/// used up: every decision but the last brings it nearer to its end, and the
/// last is taken between two ticks with all steps done.
pub proof fn an_unstopped_loop_uses_its_budget(pace: Pace, progress: Progress)
    requires
        pace.admits(progress),
        progress.phase != Phase::Ended,
    ensures
        ({
            let (after, action) = pace.next(progress, false);
            &&& pace.distance(progress) > 0
            &&& action != Action::Exit ==> 0 < pace.distance(after) < pace.distance(progress)
            &&& action == Action::Exit ==> progress.phase == Phase::Between && progress.step_count
                == pace.total_steps
        }),
{
}

} // verus!
