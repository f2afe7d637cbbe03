use vstd::prelude::*;

use crate::error::HmmError;

verus! {

/// Where a training run stands.
#[derive(Debug, Clone, Copy, PartialEq, Eq, Structural)]
pub enum TrainingPhase {
    /// Another forward, backward and re-estimation pass is due.
    Iterating,
    /// The minimum number of iterations is done and the log-likelihood moved by no
    /// more than the threshold in the last one.
    Converged,
    /// The iteration budget is spent.
    Exhausted,
}

/// The phase a run enters once `iterations` passes are done, where `within_threshold`
/// tells whether the last one changed the log-likelihood by no more than the threshold.
/// Convergence is tested first; the budget caps the run either way.
pub open spec fn phase_after(iterations: nat, min_iterations: nat, max_iterations: nat, within_threshold: bool) -> TrainingPhase {
    if iterations >= min_iterations && within_threshold {
        TrainingPhase::Converged
    } else if iterations >= max_iterations {
        TrainingPhase::Exhausted
    } else {
        TrainingPhase::Iterating
    }
}

/// The stopping rule of one training run: counts the passes and decides, after each,
/// whether to go on.
pub struct TrainingControl {
    iterations: usize,
    min_iterations: usize,
    max_iterations: usize,
    phase: TrainingPhase,
}

/// The state of the stopping rule.
pub struct TrainingControlView {
    pub iterations: nat,
    pub min_iterations: nat,
    pub max_iterations: nat,
    pub phase: TrainingPhase,
}

impl TrainingControlView {
    /// What holds in every state a run reaches: the count never passes the budget, a run
    /// still iterating has budget left, a converged run did its minimum, and an exhausted
    /// run spent the whole budget.
    pub open spec fn consistent(&self) -> bool {
        &&& self.min_iterations <= self.max_iterations
        &&& self.iterations <= self.max_iterations
        &&& self.phase == TrainingPhase::Iterating ==> self.iterations < self.max_iterations
        &&& self.phase == TrainingPhase::Converged ==> self.iterations >= self.min_iterations
        &&& self.phase == TrainingPhase::Exhausted ==> self.iterations == self.max_iterations
    }
}

impl View for TrainingControl {
    type V = TrainingControlView;

    closed spec fn view(&self) -> TrainingControlView {
        TrainingControlView {
            iterations: self.iterations as nat,
            min_iterations: self.min_iterations as nat,
            max_iterations: self.max_iterations as nat,
            phase: self.phase,
        }
    }
}

impl TrainingControl {
    /// A run that has done no pass yet. With a budget of zero there is nothing to do.
    /// Fails with `InvalidConfiguration` exactly when the minimum exceeds the maximum.
    pub fn new(min_iterations: usize, max_iterations: usize) -> (r: Result<Self, HmmError>)
        ensures
            r is Err <==> min_iterations > max_iterations,
            r matches Err(e) ==> e == HmmError::InvalidConfiguration,
            r matches Ok(control) ==> control@ == (TrainingControlView {
                iterations: 0,
                min_iterations: min_iterations as nat,
                max_iterations: max_iterations as nat,
                phase: if max_iterations == 0 {
                    TrainingPhase::Exhausted
                } else {
                    TrainingPhase::Iterating
                },
            }) && control@.consistent(),
    {
        if min_iterations > max_iterations {
            return Err(HmmError::InvalidConfiguration);
        }
        Ok(TrainingControl {
            iterations: 0,
            min_iterations,
            max_iterations,
            phase: if max_iterations == 0 {
                TrainingPhase::Exhausted
            } else {
                TrainingPhase::Iterating
            },
        })
    }

    /// The number of passes done.
    pub fn iterations(&self) -> (r: usize)
        ensures
            r == self@.iterations,
    {
        self.iterations
    }

    /// The current phase.
    pub fn phase(&self) -> (r: TrainingPhase)
        ensures
            r == self@.phase,
    {
        self.phase
    }

    /// Whether another pass is due.
    pub fn is_iterating(&self) -> (r: bool)
        ensures
            r == (self@.phase == TrainingPhase::Iterating),
    {
        self.phase == TrainingPhase::Iterating
    }

    /// Records one more pass, whose change of the log-likelihood was within the threshold
    /// or not, and returns the phase the run enters.
    pub fn record_iteration(&mut self, within_threshold: bool) -> (r: TrainingPhase)
        requires
            old(self)@.consistent(),
            old(self)@.phase == TrainingPhase::Iterating,
        ensures
            final(self)@.consistent(),
            final(self)@.iterations == old(self)@.iterations + 1,
            final(self)@.min_iterations == old(self)@.min_iterations,
            final(self)@.max_iterations == old(self)@.max_iterations,
            final(self)@.phase == phase_after(
                final(self)@.iterations,
                old(self)@.min_iterations,
                old(self)@.max_iterations,
                within_threshold,
            ),
            r == final(self)@.phase,
    {
        self.iterations = self.iterations + 1;
        self.phase = if self.iterations >= self.min_iterations && within_threshold {
            TrainingPhase::Converged
        } else if self.iterations >= self.max_iterations {
            TrainingPhase::Exhausted
        } else {
            TrainingPhase::Iterating
        };
        self.phase
    }
}

} // verus!
