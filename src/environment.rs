//! The reset/step protocol of an episode, and descriptions of observation and
//! action arrays.
use vstd::prelude::*;

verus! {

/// Where a time step stands in its episode.
#[derive(Clone, Copy, Debug, PartialEq, Eq, Structural)]
pub enum StepType {
    /// Returned by a reset: the first observation of a fresh trajectory.
    First,
    /// A step after which the episode goes on.
    Mid,
    /// The step that ended the episode.
    Last,
}

/// The element type and shape of an array of observations or actions.
#[derive(Clone, Copy, Debug, PartialEq, Eq, Structural)]
pub struct ArraySpec {
    pub dtype: DType,
    pub shape: Shape,
}

#[derive(Clone, Copy, Debug, PartialEq, Eq, Structural)]
pub enum DType {
    F64,
    I32,
    U8,
}

#[derive(Clone, Copy, Debug, PartialEq, Eq, Structural)]
pub enum Shape {
    Scaler,
    Vector(usize),
    Matrix(usize, usize),
    Tensor(usize, usize, usize),
}

/// The two states of the harness.
#[derive(Clone, Copy, Debug, PartialEq, Eq, Structural)]
pub enum Phase {
    BetweenEpisodes,
    MidEpisode,
}

/// The episode state machine: a reset starts a fresh trajectory, a step either
/// continues it or, when the task says so, ends it.
pub struct Episode {
    phase: Phase,
}

impl Episode {
    pub closed spec fn phase_spec(&self) -> Phase {
        self.phase
    }

    /// No episode has started yet.
    pub fn new() -> (r: Self)
        ensures
            r.phase_spec() == Phase::BetweenEpisodes,
    {
        Episode { phase: Phase::BetweenEpisodes }
    }

    pub fn phase(&self) -> (r: Phase)
        ensures
            r == self.phase_spec(),
    {
        self.phase
    }

    /// Starts a fresh trajectory, from either state.
    pub fn reset(&mut self) -> (r: StepType)
        ensures
            r == StepType::First,
            final(self).phase_spec() == Phase::MidEpisode,
    {
        self.phase = Phase::MidEpisode;
        StepType::First
    }

    /// Records one step; `finished` is the task's termination verdict on the
    /// new observation. The episode ends exactly when the task says so.
    pub fn step(&mut self, finished: bool) -> (r: StepType)
        ensures
            finished ==> r == StepType::Last && final(self).phase_spec() == Phase::BetweenEpisodes,
            !finished ==> r == StepType::Mid && final(self).phase_spec() == Phase::MidEpisode,
    {
        if finished {
            self.phase = Phase::BetweenEpisodes;
            StepType::Last
        } else {
            self.phase = Phase::MidEpisode;
            StepType::Mid
        }
    }
}

} // verus!
