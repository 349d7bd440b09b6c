//! The bounded-retry policy of the task request wrapper: a failed completion
//! call is retried exactly once; a second failure is fatal.

use vstd::prelude::*;
use crate::llm::CompletionError;

verus! {

/// One decision of the task request wrapper after an underlying completion
/// call came back: call once more, hand the answer out, or give up for good.
#[derive(Debug)]
pub enum TaskStep {
    CallAgain,
    Deliver(String),
    FailFatal,
}

/// What the wrapper decides after its underlying call number `attempts`
/// (counted from zero) came back with `outcome`: a success is delivered as it
/// is, the first failure is retried once with the identical message, and a
/// failure on the retry is fatal.
pub open spec fn policy_step(attempts: int, outcome: Result<String, CompletionError>) -> TaskStep {
    match outcome {
        Ok(text) => TaskStep::Deliver(text),
        Err(_) => if attempts == 0 {
            TaskStep::CallAgain
        } else {
            TaskStep::FailFatal
        },
    }
}

/// How many underlying calls the wrapper makes when the service would answer
/// the successive calls with `outcomes`, having already made `attempts`
/// calls.
pub open spec fn wrapper_calls(
    outcomes: Seq<Result<String, CompletionError>>,
    attempts: int,
) -> int
    decreases outcomes.len(),
{
    if outcomes.len() == 0 {
        0
    } else {
        match policy_step(attempts, outcomes[0]) {
            TaskStep::CallAgain => 1 + wrapper_calls(outcomes.drop_first(), attempts + 1),
            _ => 1,
        }
    }
}

/// What the wrapper ends with on the successive answers `outcomes`: the
/// delivered text or the fatal stop, or nothing when the answers run out
/// before the policy concludes.
pub open spec fn wrapper_result(
    outcomes: Seq<Result<String, CompletionError>>,
    attempts: int,
) -> Option<TaskStep>
    decreases outcomes.len(),
{
    if outcomes.len() == 0 {
        None
    } else {
        match policy_step(attempts, outcomes[0]) {
            TaskStep::CallAgain => wrapper_result(outcomes.drop_first(), attempts + 1),
            step => Some(step),
        }
    }
}

/// The retry state of one task request: how many underlying completion calls
/// have been made so far.
#[derive(Debug)]
pub struct TaskRequestPolicy {
    pub attempts_made: u8,
}

impl TaskRequestPolicy {
    /// A fresh request: no underlying call made yet.
    pub fn new() -> (p: TaskRequestPolicy)
        ensures
            p.attempts_made == 0,
    {
        TaskRequestPolicy { attempts_made: 0 }
    }

    /// Records the outcome of one underlying completion call and decides the
    /// next move according to [`policy_step`].
    pub fn record_outcome(&mut self, outcome: Result<String, CompletionError>) -> (step: TaskStep)
        requires
            old(self).attempts_made < 2,
        ensures
            final(self).attempts_made == old(self).attempts_made + 1,
            step == policy_step(old(self).attempts_made as int, outcome),
    {
        self.attempts_made = self.attempts_made + 1;
        match outcome {
            Ok(text) => TaskStep::Deliver(text),
            Err(_) => if self.attempts_made == 1 {
                TaskStep::CallAgain
            } else {
                TaskStep::FailFatal
            },
        }
    }
}

/// The task request wrapper invokes the underlying completion exactly twice
/// when the first call fails and the second succeeds, delivering the second
/// answer; it surfaces the fatal stop when both calls fail; and it never
/// makes more than two underlying calls.
pub proof fn lemma_task_request_retry(outcomes: Seq<Result<String, CompletionError>>)
    ensures
        wrapper_calls(outcomes, 0) <= 2,
        outcomes.len() >= 1 && outcomes[0] is Ok ==> wrapper_calls(outcomes, 0) == 1
            && wrapper_result(outcomes, 0) == Some(TaskStep::Deliver(outcomes[0]->Ok_0)),
        outcomes.len() >= 2 && outcomes[0] is Err && outcomes[1] is Ok ==> wrapper_calls(
            outcomes,
            0,
        ) == 2 && wrapper_result(outcomes, 0) == Some(TaskStep::Deliver(outcomes[1]->Ok_0)),
        outcomes.len() >= 2 && outcomes[0] is Err && outcomes[1] is Err ==> wrapper_calls(
            outcomes,
            0,
        ) == 2 && wrapper_result(outcomes, 0) == Some(TaskStep::FailFatal),
{
    if outcomes.len() >= 1 {
        let rest = outcomes.drop_first();
        if outcomes[0] is Err {
            assert(wrapper_calls(outcomes, 0) == 1 + wrapper_calls(rest, 1));
            assert(wrapper_calls(rest, 1) <= 1);
            if rest.len() >= 1 {
                assert(rest[0] == outcomes[1]);
                assert(wrapper_result(outcomes, 0) == wrapper_result(rest, 1));
            }
        }
    }
}

} // verus!
