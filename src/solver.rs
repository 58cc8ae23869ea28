use vstd::prelude::*;

verus! {

/// Why the implied-volatility search gave up.
#[derive(Debug, Clone, Copy, PartialEq, Eq, Structural)]
pub enum ConvergenceFailure {
    /// The sensitivity of the price to volatility vanished at the current
    /// guess, so a Newton step is not defined.
    VegaTooSmall,
    /// The iteration budget ran out before the price was matched.
    FailedToConverge,
}

impl ConvergenceFailure {
    /// The human-readable reason.
    pub fn message(self) -> (r: &'static str)
        ensures
            self == ConvergenceFailure::VegaTooSmall ==> r@ == "Vega too small, cannot converge"@,
            self == ConvergenceFailure::FailedToConverge ==> r@ == "Failed to converge"@,
    {
        match self {
            ConvergenceFailure::VegaTooSmall => "Vega too small, cannot converge",
            ConvergenceFailure::FailedToConverge => "Failed to converge",
        }
    }
}

/// What the search does next.
#[derive(Debug, Clone, Copy, PartialEq, Eq, Structural)]
pub enum SolverAction {
    /// Price the option at the current guess and report the result.
    Evaluate,
    /// The current guess reproduces the market price: it is the answer.
    Accept,
    /// The search stops without an answer.
    Fail(ConvergenceFailure),
}

/// What one evaluation at the current guess found.
#[derive(Debug, Clone, Copy, PartialEq, Eq, Structural)]
pub struct Evaluation {
    /// The raw vega fell below the degeneracy threshold.
    pub vega_too_small: bool,
    /// The price difference fell below the requested tolerance.
    pub within_tolerance: bool,
}

/// The action that follows the evaluation made in round `iteration` of a
/// search allowed `max_iterations` rounds. A vanishing vega is checked
/// before the tolerance; a guess that is neither degenerate nor accepted is
/// followed by another round while the budget lasts.
pub open spec fn decide(iteration: nat, max_iterations: nat, e: Evaluation) -> SolverAction {
    if e.vega_too_small {
        SolverAction::Fail(ConvergenceFailure::VegaTooSmall)
    } else if e.within_tolerance {
        SolverAction::Accept
    } else if iteration + 1 < max_iterations {
        SolverAction::Evaluate
    } else {
        SolverAction::Fail(ConvergenceFailure::FailedToConverge)
    }
}

/// The action that a search in round `iteration` takes before evaluating.
pub open spec fn before_round(iteration: nat, max_iterations: nat) -> SolverAction {
    if iteration < max_iterations {
        SolverAction::Evaluate
    } else {
        SolverAction::Fail(ConvergenceFailure::FailedToConverge)
    }
}

/// The final action of a search that starts in round `iteration` and is fed
/// the evaluations `evals` in order; `None` when they run out first.
pub open spec fn outcome(iteration: nat, max_iterations: nat, evals: Seq<Evaluation>) -> Option<
    SolverAction,
>
    decreases evals.len(),
{
    if iteration >= max_iterations {
        Some(SolverAction::Fail(ConvergenceFailure::FailedToConverge))
    } else if evals.len() == 0 {
        None
    } else {
        match decide(iteration, max_iterations, evals[0]) {
            SolverAction::Evaluate => outcome(iteration + 1, max_iterations, evals.drop_first()),
            a => Some(a),
        }
    }
}

/// The control state of a Newton-Raphson implied-volatility search: the
/// number of evaluations made so far, and the budget.
pub struct SolverState {
    /// Evaluations made so far.
    pub iteration: usize,
    /// Evaluations allowed.
    pub max_iterations: usize,
}

impl SolverState {
    /// No more rounds have been made than the budget allows.
    pub open spec fn wf(&self) -> bool {
        self.iteration <= self.max_iterations
    }

    /// A fresh search allowed `max_iterations` rounds.
    pub fn new(max_iterations: usize) -> (s: SolverState)
        ensures
            s.wf(),
            s.iteration == 0,
            s.max_iterations == max_iterations,
    {
        SolverState { iteration: 0, max_iterations }
    }

    /// What the search does before its next evaluation: evaluate while the
    /// budget lasts, otherwise fail for want of convergence.
    pub fn next_action(&self) -> (r: SolverAction)
        ensures
            r == before_round(self.iteration as nat, self.max_iterations as nat),
    {
        if self.iteration < self.max_iterations {
            SolverAction::Evaluate
        } else {
            SolverAction::Fail(ConvergenceFailure::FailedToConverge)
        }
    }

    /// Records the evaluation of the current round and says what follows.
    /// `Evaluate` means: take the Newton step and evaluate again.
    pub fn record(&mut self, e: Evaluation) -> (r: SolverAction)
        requires
            old(self).iteration < old(self).max_iterations,
        ensures
            final(self).wf(),
            final(self).iteration == old(self).iteration + 1,
            final(self).max_iterations == old(self).max_iterations,
            r == decide(old(self).iteration as nat, old(self).max_iterations as nat, e),
    {
        self.iteration = self.iteration + 1;
        if e.vega_too_small {
            SolverAction::Fail(ConvergenceFailure::VegaTooSmall)
        } else if e.within_tolerance {
            SolverAction::Accept
        } else if self.iteration < self.max_iterations {
            SolverAction::Evaluate
        } else {
            SolverAction::Fail(ConvergenceFailure::FailedToConverge)
        }
    }
}

proof fn outcome_after_adjustments(iteration: nat, max_iterations: nat, evals: Seq<Evaluation>, k: nat)
    requires
        iteration + k < max_iterations,
        k < evals.len(),
        forall|i: int| 0 <= i < k ==> !(#[trigger] evals[i]).vega_too_small && !evals[i].within_tolerance,
    ensures
        outcome(iteration, max_iterations, evals) == (match decide(
            iteration + k,
            max_iterations,
            evals[k as int],
        ) {
            SolverAction::Evaluate => outcome(
                iteration + k + 1,
                max_iterations,
                evals.subrange((k + 1) as int, evals.len() as int),
            ),
            a => Some(a),
        }),
    decreases k,
{
    if k > 0 {
        let rest = evals.drop_first();
        assert forall|i: int| 0 <= i < k - 1 implies !(#[trigger] rest[i]).vega_too_small
            && !rest[i].within_tolerance by {
            assert(rest[i] == evals[i + 1]);
        }
        outcome_after_adjustments(iteration + 1, max_iterations, rest, (k - 1) as nat);
        assert(rest.subrange(k as int, rest.len() as int) =~= evals.subrange((k + 1) as int, evals.len() as int));
    } else {
        assert(evals.subrange(1, evals.len() as int) =~= evals.drop_first());
    }
}

/// A search allowed no rounds fails for want of convergence, whatever the
/// evaluations would have been: none is ever made.
pub proof fn lemma_zero_budget_fails(evals: Seq<Evaluation>)
    ensures
        outcome(0, 0, evals) == Some(SolverAction::Fail(ConvergenceFailure::FailedToConverge)),
        before_round(0, 0) == SolverAction::Fail(ConvergenceFailure::FailedToConverge),
{
}

/// A search whose first `k` guesses are neither degenerate nor accepted, and
/// whose next guess has a vanishing vega within the budget, fails for that
/// reason: no Newton step is taken with such a vega.
pub proof fn lemma_small_vega_fails(max_iterations: nat, evals: Seq<Evaluation>, k: nat)
    requires
        k < max_iterations,
        k < evals.len(),
        forall|i: int| 0 <= i < k ==> !(#[trigger] evals[i]).vega_too_small && !evals[i].within_tolerance,
        evals[k as int].vega_too_small,
    ensures
        outcome(0, max_iterations, evals) == Some(SolverAction::Fail(ConvergenceFailure::VegaTooSmall)),
{
    outcome_after_adjustments(0, max_iterations, evals, k);
}

proof fn decided_within_budget(iteration: nat, max_iterations: nat, evals: Seq<Evaluation>)
    requires
        iteration + evals.len() >= max_iterations,
    ensures
        outcome(iteration, max_iterations, evals) is Some,
    decreases evals.len(),
{
    if iteration < max_iterations && evals.len() > 0 {
        decided_within_budget(iteration + 1, max_iterations, evals.drop_first());
    }
}

/// A search ends after at most `max_iterations` evaluations: fed that many,
/// it has accepted a guess or failed, whatever they were.
pub proof fn lemma_search_terminates(max_iterations: nat, evals: Seq<Evaluation>)
    requires
        evals.len() >= max_iterations,
    ensures
        outcome(0, max_iterations, evals) is Some,
{
    decided_within_budget(0, max_iterations, evals);
}

} // verus!
