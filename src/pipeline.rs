//! The order of the steps of one run, and how a failed step is reported.

use vstd::prelude::*;

verus! {

/// A step of a run that can fail: the two queries, signing, and submission.
#[derive(Clone, Copy, Debug, PartialEq, Eq, Structural)]
pub enum Stage {
    QueryBalance,
    QueryAnchor,
    Sign,
    Submit,
}

/// The class of a fatal error.
#[derive(Clone, Copy, Debug, PartialEq, Eq, Structural)]
pub enum ErrorClass {
    Resolution,
    Query,
    Signing,
    Submission,
}

/// What follows a step: the next step, the end of a successful run, or a halt
/// with an error of a class.
#[derive(Clone, Copy, Debug, PartialEq, Eq, Structural)]
pub enum Next {
    Run(Stage),
    Finished,
    Halt(ErrorClass),
}

/// The class of the error that a failure at `stage` is reported as.
pub open spec fn class_of(stage: Stage) -> ErrorClass {
    match stage {
        Stage::QueryBalance | Stage::QueryAnchor => ErrorClass::Query,
        Stage::Sign => ErrorClass::Signing,
        Stage::Submit => ErrorClass::Submission,
    }
}

/// The step that follows `stage` when it succeeds.
pub open spec fn successor(stage: Stage) -> Next {
    match stage {
        Stage::QueryBalance => Next::Run(Stage::QueryAnchor),
        Stage::QueryAnchor => Next::Run(Stage::Sign),
        Stage::Sign => Next::Run(Stage::Submit),
        Stage::Submit => Next::Finished,
    }
}

/// The class of the error that a failure at `stage` is reported as.
pub fn failure_class(stage: Stage) -> (r: ErrorClass)
    ensures
        r == class_of(stage),
{
    match stage {
        Stage::QueryBalance | Stage::QueryAnchor => ErrorClass::Query,
        Stage::Sign => ErrorClass::Signing,
        Stage::Submit => ErrorClass::Submission,
    }
}

/// What a run does after `stage` has succeeded or failed: a failure halts it,
/// with no later step.
pub fn after(stage: Stage, succeeded: bool) -> (r: Next)
    ensures
        succeeded ==> r == successor(stage),
        !succeeded ==> r == Next::Halt(class_of(stage)),
{
    if !succeeded {
        return Next::Halt(failure_class(stage));
    }
    match stage {
        Stage::QueryBalance => Next::Run(Stage::QueryAnchor),
        Stage::QueryAnchor => Next::Run(Stage::Sign),
        Stage::Sign => Next::Run(Stage::Submit),
        Stage::Submit => Next::Finished,
    }
}

/// The words that introduce the report of a failure at `stage`.
pub fn failure_context(stage: Stage) -> (r: &'static str)
    ensures
        stage == Stage::QueryBalance ==> r@ == "unable to get balance"@,
        stage == Stage::QueryAnchor ==> r@ == "unable to get latest blockhash"@,
        stage == Stage::Sign ==> r@ == "failed to sign transaction"@,
        stage == Stage::Submit ==> r@ == "send transaction"@,
{
    match stage {
        Stage::QueryBalance => "unable to get balance",
        Stage::QueryAnchor => "unable to get latest blockhash",
        Stage::Sign => "failed to sign transaction",
        Stage::Submit => "send transaction",
    }
}

/// Whether `stage` queries the ledger.
pub open spec fn is_query(stage: Stage) -> bool {
    stage == Stage::QueryBalance || stage == Stage::QueryAnchor
}

/// The position of a step in a run.
pub open spec fn rank(stage: Stage) -> int {
    match stage {
        Stage::QueryBalance => 0,
        Stage::QueryAnchor => 1,
        Stage::Sign => 2,
        Stage::Submit => 3,
    }
}

/// Failures at two stages are reported in one class exactly when the stages
/// are the same or both are queries: a failed query never reads as a failed
/// signing or submission.
pub proof fn lemma_failure_classes_apart(a: Stage, b: Stage)
    ensures
        class_of(a) == class_of(b) <==> (a == b || (is_query(a) && is_query(b))),
{
}

/// Only a successful submission finishes a run, and no step leads back to an
/// earlier one.
pub proof fn lemma_runs_move_forward(stage: Stage)
    ensures
        successor(stage) == Next::Finished <==> stage == Stage::Submit,
        successor(stage) is Run ==> rank(successor(stage)->Run_0) == rank(stage) + 1,
{
}

} // verus!
