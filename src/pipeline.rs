//! The command-line pipeline as a state machine.
//!
//! A run reads its inputs, computes the summary and prints it, in that order,
//! and stops at the first stage that fails. The stages themselves do I/O and
//! floating-point work and are performed by the caller; this module decides
//! where the input data and the assumptions come from and what happens after
//! each stage.

use vstd::prelude::*;
use crate::error::AppError;

verus! {

/// One stage of a run.
#[derive(Debug, Clone, Copy, PartialEq, Eq, Structural)]
pub enum Stage {
    ReadInputs,
    Compute,
    Print,
}

/// What the caller does next.
pub enum Step {
    /// Perform this stage and report how it went.
    Perform(Stage),
    /// The run is over, with this result.
    Finish(Result<(), AppError>),
}

/// The stage that follows a successful one; `None` after the last.
pub open spec fn stage_after(done: Stage) -> Option<Stage> {
    match done {
        Stage::ReadInputs => Some(Stage::Compute),
        Stage::Compute => Some(Stage::Print),
        Stage::Print => None,
    }
}

/// The step taken once stage `done` ended with `outcome`.
pub open spec fn step_spec(done: Stage, outcome: Result<(), AppError>) -> Step {
    match outcome {
        Err(e) => Step::Finish(Err(e)),
        Ok(()) => match stage_after(done) {
            Some(next) => Step::Perform(next),
            None => Step::Finish(Ok(())),
        },
    }
}

/// The result of a whole run that starts at `stage`, where `outcomes[i]` is
/// how the `i`-th performed stage ended.
pub open spec fn run_from(stage: Stage, outcomes: Seq<Result<(), AppError>>) -> Option<Result<(), AppError>>
    decreases outcomes.len(),
{
    if outcomes.len() == 0 {
        None
    } else {
        match step_spec(stage, outcomes[0]) {
            Step::Finish(r) => Some(r),
            Step::Perform(next) => run_from(next, outcomes.drop_first()),
        }
    }
}

/// The first step of every run.
pub fn first_step() -> (r: Step)
    ensures
        r == Step::Perform(Stage::ReadInputs),
{
    Step::Perform(Stage::ReadInputs)
}

/// Decides what follows once stage `done` ended with `outcome`: a failure
/// ends the run with that very error, a success moves on to the next stage,
/// and success of the last stage ends the run successfully.
pub fn run(done: Stage, outcome: Result<(), AppError>) -> (r: Step)
    ensures
        r == step_spec(done, outcome),
        outcome is Err ==> r == Step::Finish(outcome),
        done == Stage::Print && outcome is Ok ==> r == Step::Finish(Ok(())),
{
    match outcome {
        Err(e) => Step::Finish(Err(e)),
        Ok(()) => match done {
            Stage::ReadInputs => Step::Perform(Stage::Compute),
            Stage::Compute => Step::Perform(Stage::Print),
            Stage::Print => Step::Finish(Ok(())),
        },
    }
}

/// A run that starts from the first step performs the three stages in order:
/// it succeeds exactly when all three do, and otherwise ends with the error
/// of the first stage that failed, performing no stage after it.
pub proof fn lemma_run_stops_at_first_failure(outcomes: Seq<Result<(), AppError>>)
    requires
        outcomes.len() == 3,
    ensures
        run_from(Stage::ReadInputs, outcomes) is Some,
        outcomes[0] is Err ==> run_from(Stage::ReadInputs, outcomes) == Some(outcomes[0]),
        outcomes[0] is Ok && outcomes[1] is Err ==> run_from(Stage::ReadInputs, outcomes) == Some(outcomes[1]),
        outcomes[0] is Ok && outcomes[1] is Ok && outcomes[2] is Err ==> run_from(Stage::ReadInputs, outcomes) == Some(outcomes[2]),
        (outcomes[0] is Ok && outcomes[1] is Ok && outcomes[2] is Ok) <==> run_from(Stage::ReadInputs, outcomes) == Some(Ok::<(), AppError>(())),
{
    let o1 = outcomes.drop_first();
    let o2 = o1.drop_first();
    let o3 = o2.drop_first();
    assert(o1[0] == outcomes[1]);
    assert(o2[0] == outcomes[2]);
    assert(o3.len() == 0);
    reveal_with_fuel(run_from, 4);
}

/// Where the sample's concentrations are read from.
#[derive(Debug, Clone, Copy, PartialEq, Eq, Structural)]
pub enum InputsSource {
    /// A JSON object given on the command line.
    InlineJson,
    /// The `inputs` of a document read from a file or standard input.
    Document,
}

/// Where the assumptions are read from.
#[derive(Debug, Clone, Copy, PartialEq, Eq, Structural)]
pub enum AssumptionsSource {
    /// A JSON object given on the command line.
    InlineJson,
    /// The `assumptions` of the input document.
    Document,
    /// Nothing was given: the documented all-defaults assumptions.
    Defaults,
}

/// Chooses where the inputs come from: inline JSON wins over a document, and
/// with neither the run fails with `MissingInputData`.
pub fn inputs_source(inline_given: bool, document_given: bool) -> (r: Result<InputsSource, AppError>)
    ensures
        inline_given ==> r == Ok::<InputsSource, AppError>(InputsSource::InlineJson),
        !inline_given && document_given ==> r == Ok::<InputsSource, AppError>(InputsSource::Document),
        !inline_given && !document_given ==> r == Err::<InputsSource, AppError>(AppError::MissingInputData),
{
    if inline_given {
        Ok(InputsSource::InlineJson)
    } else if document_given {
        Ok(InputsSource::Document)
    } else {
        Err(AppError::MissingInputData)
    }
}

/// Chooses where the assumptions come from: inline JSON, else the document's
/// own `assumptions`, else the defaults.
pub fn assumptions_source(inline_given: bool, document_has_assumptions: bool) -> (r: AssumptionsSource)
    ensures
        inline_given ==> r == AssumptionsSource::InlineJson,
        !inline_given && document_has_assumptions ==> r == AssumptionsSource::Document,
        !inline_given && !document_has_assumptions ==> r == AssumptionsSource::Defaults,
{
    if inline_given {
        AssumptionsSource::InlineJson
    } else if document_has_assumptions {
        AssumptionsSource::Document
    } else {
        AssumptionsSource::Defaults
    }
}

} // verus!
