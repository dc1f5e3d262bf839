//! The batch tally and its counting model.
//!
//! A batch's observable result is a single integer: how many tasks succeeded.
//! The model is a sequence of per-task outcomes (`true` for success) in input
//! order; the lemmas here state the containment guarantees of the
//! orchestrator: the count is bounded by the batch length, an all-success
//! batch counts fully, and one task's failure neither stops nor distorts the
//! count of the tasks around it.

use vstd::prelude::*;

use crate::errors::{Stage, TaskFailure};

verus! {

/// How many outcomes of `outcomes` are successes.
pub open spec fn successes(outcomes: Seq<bool>) -> int
    decreases outcomes.len(),
{
    if outcomes.len() == 0 {
        0
    } else {
        successes(outcomes.drop_last()) + if outcomes.last() {
            1int
        } else {
            0int
        }
    }
}

/// For every batch, the success count lies between zero and the number of
/// tasks processed.
pub proof fn lemma_successes_bounded(outcomes: Seq<bool>)
    ensures
        0 <= successes(outcomes) <= outcomes.len(),
    decreases outcomes.len(),
{
    if outcomes.len() > 0 {
        lemma_successes_bounded(outcomes.drop_last());
    }
}

/// A batch in which every task succeeds counts every task: the result equals
/// the batch length.
pub proof fn lemma_all_succeed(outcomes: Seq<bool>)
    requires
        forall|i: int| 0 <= i < outcomes.len() ==> outcomes[i],
    ensures
        successes(outcomes) == outcomes.len(),
    decreases outcomes.len(),
{
    if outcomes.len() > 0 {
        lemma_all_succeed(outcomes.drop_last());
    }
}

/// A batch in which every task fails counts nothing.
pub proof fn lemma_none_succeed(outcomes: Seq<bool>)
    requires
        forall|i: int| 0 <= i < outcomes.len() ==> !outcomes[i],
    ensures
        successes(outcomes) == 0,
    decreases outcomes.len(),
{
    if outcomes.len() > 0 {
        lemma_none_succeed(outcomes.drop_last());
    }
}

/// Success counting distributes over concatenation: the tasks of one part
/// never affect the count of the other.
pub proof fn lemma_successes_concat(left: Seq<bool>, right: Seq<bool>)
    ensures
        successes(left + right) == successes(left) + successes(right),
    decreases right.len(),
{
    if right.len() == 0 {
        assert(left + right =~= left);
    } else {
        lemma_successes_concat(left, right.drop_last());
        assert((left + right).drop_last() =~= left + right.drop_last());
    }
}

/// A failure at position `at` is contained: it contributes nothing, and the
/// tasks before and after it are counted exactly as they would be on their
/// own.
pub proof fn lemma_failure_isolated(outcomes: Seq<bool>, at: int)
    requires
        0 <= at < outcomes.len(),
        !outcomes[at],
    ensures
        successes(outcomes) == successes(outcomes.subrange(0, at)) + successes(
            outcomes.subrange(at + 1, outcomes.len() as int),
        ),
{
    let n = outcomes.len() as int;
    let before = outcomes.subrange(0, at);
    let failed = outcomes.subrange(at, at + 1);
    let after = outcomes.subrange(at + 1, n);
    assert(outcomes =~= before + failed + after);
    lemma_successes_concat(before + failed, after);
    lemma_successes_concat(before, failed);
    assert(failed.len() == 1 && !failed.last());
    assert(failed.drop_last() =~= Seq::<bool>::empty());
    assert(successes(Seq::<bool>::empty()) == 0);
    assert(successes(failed) == 0);
}

/// Running tally of one batch: the success count, the collected failures, and
/// (as a ghost history) the per-task outcomes in input order.
pub struct BatchReport {
    succeeded: i8,
    failures: Vec<TaskFailure>,
    outcomes: Ghost<Seq<bool>>,
}

impl BatchReport {
    /// The per-task outcome history, in input order.
    pub closed spec fn history(&self) -> Seq<bool> {
        self.outcomes@
    }

    /// The recorded failures.
    pub closed spec fn failures_seq(&self) -> Seq<TaskFailure> {
        self.failures@
    }

    /// The success count as recorded.
    pub closed spec fn count_spec(&self) -> int {
        self.succeeded as int
    }

    /// The tally is faithful to its history: the count equals the successes
    /// of the history, and every other outcome left a recorded failure.
    pub closed spec fn wf(&self) -> bool {
        &&& self.succeeded as int == successes(self.outcomes@)
        &&& self.failures@.len() + successes(self.outcomes@) == self.outcomes@.len()
    }

    /// The tally is faithful: its count equals the successes of its history,
    /// and so lies between zero and the number of tasks processed.
    pub proof fn lemma_count_faithful(&self)
        requires
            self.wf(),
        ensures
            self.count_spec() == successes(self.history()),
            0 <= self.count_spec() <= self.history().len(),
    {
        lemma_successes_bounded(self.outcomes@);
    }

    /// A fresh tally: no tasks processed, a count of zero, nothing written.
    pub fn new() -> (r: BatchReport)
        ensures
            r.wf(),
            r.history() == Seq::<bool>::empty(),
            r.count_spec() == 0,
            r.failures_seq() == Seq::<TaskFailure>::empty(),
    {
        BatchReport { succeeded: 0, failures: Vec::new(), outcomes: Ghost(Seq::empty()) }
    }

    /// Records one task that produced its output file.
    pub fn record_success(&mut self)
        requires
            old(self).wf(),
            old(self).count_spec() < 127,
        ensures
            final(self).wf(),
            final(self).history() == old(self).history().push(true),
            final(self).failures_seq() == old(self).failures_seq(),
            final(self).count_spec() == old(self).count_spec() + 1,
    {
        proof {
            lemma_successes_bounded(self.outcomes@);
        }
        self.succeeded = self.succeeded + 1;
        self.outcomes = Ghost(self.outcomes@.push(true));
        proof {
            assert(self.outcomes@.drop_last() =~= old(self).outcomes@);
        }
    }

    /// Records one task that failed at some stage: the count is untouched and
    /// the failure is kept for observability.
    pub fn record_failure(&mut self, name: String, stage: Stage, message: String)
        requires
            old(self).wf(),
        ensures
            final(self).wf(),
            final(self).history() == old(self).history().push(false),
            final(self).failures_seq() == old(self).failures_seq().push(
                TaskFailure { name: name, stage: stage, message: message },
            ),
            final(self).count_spec() == old(self).count_spec(),
    {
        self.failures.push(TaskFailure { name, stage, message });
        self.outcomes = Ghost(self.outcomes@.push(false));
        proof {
            assert(self.outcomes@.drop_last() =~= old(self).outcomes@);
        }
    }

    /// The number of tasks that succeeded so far.
    pub fn count(&self) -> (r: i8)
        requires
            self.wf(),
        ensures
            r as int == successes(self.history()),
            0 <= r <= self.history().len(),
    {
        proof {
            lemma_successes_bounded(self.outcomes@);
        }
        self.succeeded
    }

    /// The recorded failures, for diagnosis: the count alone cannot tell a
    /// decode failure from a write failure.
    pub fn failures(&self) -> (r: &Vec<TaskFailure>)
        ensures
            r@ == self.failures_seq(),
    {
        &self.failures
    }
}

} // verus!
