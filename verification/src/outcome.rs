//! What became of a tool that was started, and what that means for its stage.

use vstd::prelude::*;
use crate::decimal::{append_signed_decimal, signed_decimal};
use crate::stage::Stage;

verus! {

/// How one run of an external tool ended.
#[derive(Debug, PartialEq, Eq)]
pub enum ProcessOutcome {
    /// The program could not be started; the text says why.
    SpawnFailed(String),
    /// The program ran and exited with this status.
    Exited(i32),
    /// The program ran and ended without an exit status.
    Terminated,
}

/// A [`ProcessOutcome`] as plain values.
pub enum OutcomeView {
    /// The program could not be started; the text says why.
    SpawnFailed(Seq<char>),
    /// The program ran and exited with this status.
    Exited(int),
    /// The program ran and ended without an exit status.
    Terminated,
}

impl View for ProcessOutcome {
    type V = OutcomeView;

    open spec fn view(&self) -> OutcomeView {
        match self {
            ProcessOutcome::SpawnFailed(cause) => OutcomeView::SpawnFailed(cause@),
            ProcessOutcome::Exited(status) => OutcomeView::Exited(*status as int),
            ProcessOutcome::Terminated => OutcomeView::Terminated,
        }
    }
}

impl OutcomeView {
    /// A tool has succeeded when it exited with status zero; nothing else
    /// counts, and the file it was to write is not looked at.
    pub open spec fn succeeded(self) -> bool {
        self == OutcomeView::Exited(0)
    }
}

/// The result of a stage as plain text: the file it wrote, or its message.
pub open spec fn result_text(result: Result<String, String>) -> Result<Seq<char>, Seq<char>> {
    match result {
        Ok(path) => Ok(path@),
        Err(message) => Err(message@),
    }
}

/// The message of a stage whose tool did not succeed. It names the stage,
/// the program and the cause.
pub open spec fn failure_message(stage: Stage, program: Seq<char>, outcome: OutcomeView) -> Seq<
    char,
> {
    match outcome {
        OutcomeView::SpawnFailed(cause) => stage.label() + ": could not start "@ + program + ": "@
            + cause,
        OutcomeView::Exited(status) => stage.label() + ": "@ + program + " exited with status "@
            + signed_decimal(status),
        OutcomeView::Terminated => stage.label() + ": "@ + program
            + " ended without an exit status"@,
    }
}

/// The result of a stage whose tool ended with `outcome`: the file the
/// stage was to write if the tool succeeded, its failure message otherwise.
pub open spec fn stage_result(
    stage: Stage,
    program: Seq<char>,
    output: Seq<char>,
    outcome: OutcomeView,
) -> Result<Seq<char>, Seq<char>> {
    if outcome.succeeded() {
        Ok(output)
    } else {
        Err(failure_message(stage, program, outcome))
    }
}

/// Turns the way a stage's tool ended into the result of the stage.
///
/// `program` is the tool that was started and `output` the file it was to
/// write. An exit status of zero yields `output`; a status other than zero,
/// a tool that could not be started and a tool that ended without a status
/// each yield a message that names the stage and the cause.
pub fn conclude(stage: Stage, program: &str, output: &str, outcome: &ProcessOutcome) -> (result:
    Result<String, String>)
    ensures
        result_text(result) == stage_result(stage, program@, output@, outcome@),
{
    match outcome {
        ProcessOutcome::Exited(status) => {
            if *status == 0 {
                Ok(String::from_str(output))
            } else {
                let mut message = String::from_str(stage.name()).concat(": ").concat(
                    program,
                ).concat(" exited with status ");
                append_signed_decimal(&mut message, *status);
                assert(message@ =~= failure_message(stage, program@, outcome@));
                Err(message)
            }
        },
        ProcessOutcome::SpawnFailed(cause) => {
            let message = String::from_str(stage.name()).concat(": could not start ").concat(
                program,
            ).concat(": ").concat(cause.as_str());
            Err(message)
        },
        ProcessOutcome::Terminated => {
            let message = String::from_str(stage.name()).concat(": ").concat(program).concat(
                " ended without an exit status",
            );
            Err(message)
        },
    }
}

} // verus!
