use vstd::prelude::*;

use crate::compartment::Compartment;
use crate::status::CallError;

verus! {

/// Which operation of a sequence failed, and why.
#[derive(Clone, Copy, Debug, PartialEq, Eq, Structural)]
pub struct SequenceError {
    /// The operation's position in the sequence, counted from zero.
    pub operation: usize,
    pub cause: CallError,
}

/// How far a sequence has got: the number of operations that have run, and
/// the failure that stopped it, if one did.
#[derive(Clone, Copy, Debug, PartialEq, Eq, Structural)]
pub struct Progress {
    pub completed: usize,
    pub failure: Option<SequenceError>,
}

/// The progress of a sequence before any operation runs.
pub open spec fn start() -> Progress {
    Progress { completed: 0, failure: None }
}

/// No further operation of a sequence of `total` runs once one has failed or
/// all have run.
pub open spec fn is_finished(total: usize, p: Progress) -> bool {
    p.failure is Some || p.completed >= total
}

/// The progress after the next operation ends with `outcome`.
pub open spec fn step(p: Progress, outcome: Result<(), CallError>) -> Progress {
    match outcome {
        Ok(()) => Progress { completed: (p.completed + 1) as usize, failure: None },
        Err(c) => Progress {
            completed: (p.completed + 1) as usize,
            failure: Some(SequenceError { operation: p.completed, cause: c }),
        },
    }
}

/// The progress reached from `p` when operation `k` ends with `outcomes[k]`,
/// running operations for as long as the sequence is not finished.
pub open spec fn drive(total: usize, outcomes: Seq<Result<(), CallError>>, p: Progress) -> Progress
    decreases total - p.completed,
{
    if is_finished(total, p) || p.completed >= outcomes.len() {
        p
    } else {
        drive(total, outcomes, step(p, outcomes[p.completed as int]))
    }
}

/// What a sequence ends with once it is finished.
pub open spec fn sequence_result(p: Progress) -> Result<(), SequenceError> {
    match p.failure {
        Some(e) => Err(e),
        None => Ok(()),
    }
}

/// Runs a sequence of boundary calls against one compartment, which it owns
/// for the sequence's duration. The caller asks for the next operation,
/// performs it, and records its outcome; the first failure ends the sequence.
#[derive(Debug)]
pub struct Gateway {
    compartment: Compartment,
    total: usize,
    progress: Progress,
}

impl Gateway {
    pub closed spec fn spec_compartment(&self) -> Compartment {
        self.compartment
    }

    pub closed spec fn spec_total(&self) -> usize {
        self.total
    }

    pub closed spec fn spec_progress(&self) -> Progress {
        self.progress
    }

    pub closed spec fn wf(&self) -> bool {
        self.progress.completed <= self.total
    }

    /// A gateway for a sequence of `total` operations on `compartment`.
    pub fn new(compartment: Compartment, total: usize) -> (r: Gateway)
        ensures
            r.wf(),
            r.spec_compartment() == compartment,
            r.spec_total() == total,
            r.spec_progress() == start(),
    {
        Gateway { compartment, total, progress: Progress { completed: 0, failure: None } }
    }

    /// The compartment that every call of the sequence addresses.
    pub fn compartment(&self) -> (r: &Compartment)
        ensures
            *r == self.spec_compartment(),
    {
        &self.compartment
    }

    pub fn progress(&self) -> (r: Progress)
        ensures
            r == self.spec_progress(),
    {
        self.progress
    }

    /// The position of the operation to run next, or `None` once the sequence
    /// is finished.
    pub fn next_operation(&self) -> (r: Option<usize>)
        requires
            self.wf(),
        ensures
            is_finished(self.spec_total(), self.spec_progress()) ==> r is None,
            !is_finished(self.spec_total(), self.spec_progress()) ==> r == Some(
                self.spec_progress().completed,
            ),
    {
        if self.progress.failure.is_some() || self.progress.completed >= self.total {
            None
        } else {
            Some(self.progress.completed)
        }
    }

    /// Records how the operation that `next_operation` named ended.
    pub fn record(&mut self, outcome: Result<(), CallError>)
        requires
            old(self).wf(),
            !is_finished(old(self).spec_total(), old(self).spec_progress()),
        ensures
            final(self).wf(),
            final(self).spec_compartment() == old(self).spec_compartment(),
            final(self).spec_total() == old(self).spec_total(),
            final(self).spec_progress() == step(old(self).spec_progress(), outcome),
    {
        let completed = self.progress.completed;
        let failure = match outcome {
            Ok(()) => None,
            Err(c) => Some(SequenceError { operation: completed, cause: c }),
        };
        self.progress = Progress { completed: completed + 1, failure };
    }

    /// Ends a finished sequence: hands the compartment back for teardown,
    /// with the sequence's result.
    pub fn finish(self) -> (r: (Compartment, Result<(), SequenceError>))
        requires
            self.wf(),
            is_finished(self.spec_total(), self.spec_progress()),
        ensures
            r.0 == self.spec_compartment(),
            r.1 == sequence_result(self.spec_progress()),
    {
        let result = match self.progress.failure {
            Some(e) => Err(e),
            None => Ok(()),
        };
        (self.compartment, result)
    }
}

proof fn lemma_drive_successes(
    total: usize,
    outcomes: Seq<Result<(), CallError>>,
    p: Progress,
    k: usize,
)
    requires
        p.failure is None,
        p.completed <= k <= total,
        k <= outcomes.len(),
        forall|j: int| p.completed <= j < k ==> outcomes[j] is Ok,
    ensures
        drive(total, outcomes, p) == drive(
            total,
            outcomes,
            Progress { completed: k, failure: None },
        ),
    decreases k - p.completed,
{
    if p.completed < k {
        let q = step(p, outcomes[p.completed as int]);
        lemma_drive_successes(total, outcomes, q, k);
    } else {
        assert(p == Progress { completed: k, failure: None });
    }
}

/// A sequence stops at its first failing operation: when operations before
/// position `k` succeed and operation `k` fails, exactly the operations up to
/// and including `k` run, none after it, and the sequence reports `k` with its
/// cause.
pub proof fn lemma_stops_at_first_failure(
    total: usize,
    outcomes: Seq<Result<(), CallError>>,
    k: usize,
)
    requires
        k < total,
        outcomes.len() == total,
        forall|j: int| 0 <= j < k ==> outcomes[j] is Ok,
        outcomes[k as int] is Err,
    ensures
        drive(total, outcomes, start()).completed == k + 1,
        sequence_result(drive(total, outcomes, start())) == Err::<(), SequenceError>(
            SequenceError { operation: k, cause: outcomes[k as int]->Err_0 },
        ),
{
    lemma_drive_successes(total, outcomes, start(), k);
    let p = Progress { completed: k, failure: None };
    let q = step(p, outcomes[k as int]);
    assert(drive(total, outcomes, p) == drive(total, outcomes, q));
    assert(drive(total, outcomes, q) == q);
}

/// A sequence whose operations all succeed runs every one of them and ends
/// in success.
pub proof fn lemma_all_succeed(total: usize, outcomes: Seq<Result<(), CallError>>)
    requires
        outcomes.len() == total,
        forall|j: int| 0 <= j < total ==> outcomes[j] is Ok,
    ensures
        drive(total, outcomes, start()).completed == total,
        sequence_result(drive(total, outcomes, start())) == Ok::<(), SequenceError>(()),
{
    lemma_drive_successes(total, outcomes, start(), total);
}

} // verus!
