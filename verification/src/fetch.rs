//! Downloading a model: what the outcome of the pull command means.

use vstd::prelude::*;
use vstd::utf8::{decode_utf8, valid_utf8};
use crate::command::{CommandOutcome, CommandOutcomeView};
use crate::text::{lossy_text, message, text_of_bytes};

verus! {

/// What a pull yields: success where the process ended with exit code zero,
/// else `Failed to pull model: ` followed by the system's message, or by
/// what the process wrote to standard error.
pub open spec fn pull_result(outcome: CommandOutcomeView) -> Result<(), Seq<char>> {
    match outcome {
        CommandOutcomeView::NotStarted { cause } => Err("Failed to pull model: "@ + cause),
        CommandOutcomeView::Exited { code, stderr } => if code == Some(0i32) {
            Ok(())
        } else {
            Err("Failed to pull model: "@ + lossy_text(stderr))
        },
    }
}

/// The result of a pull, from the outcome of the pull command.
pub fn pull_model(outcome: &CommandOutcome) -> (r: Result<(), String>)
    ensures
        match pull_result(outcome@) {
            Ok(()) => r is Ok,
            Err(text) => r is Err && r->Err_0@ == text,
        },
        r is Ok <==> outcome@.succeeded(),
        match outcome@ {
            CommandOutcomeView::Exited { code, stderr } => code != Some(0i32) && valid_utf8(stderr)
                ==> r is Err && r->Err_0@ == "Failed to pull model: "@ + decode_utf8(stderr),
            CommandOutcomeView::NotStarted { .. } => true,
        },
{
    match outcome {
        CommandOutcome::NotStarted { cause } => Err(
            message("Failed to pull model: ", cause.as_str()),
        ),
        CommandOutcome::Exited { code: Some(0), .. } => Ok(()),
        CommandOutcome::Exited { stderr, .. } => {
            let text = text_of_bytes(stderr.as_slice());
            Err(message("Failed to pull model: ", text.as_str()))
        },
    }
}

} // verus!
