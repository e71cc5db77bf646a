//! The two existence checks: is the host binary installed, and does its
//! server answer.

use vstd::prelude::*;
use crate::command::CommandOutcome;
use crate::http::HttpOutcome;

verus! {

/// Whether the version query shows the host binary installed: it ran and
/// ended with exit code zero. A process that could not be started counts as
/// not installed.
pub fn check_ollama_installed(outcome: &CommandOutcome) -> (installed: bool)
    ensures
        installed == outcome@.succeeded(),
        outcome is NotStarted ==> !installed,
{
    match outcome {
        CommandOutcome::Exited { code: Some(code), .. } => *code == 0,
        _ => false,
    }
}

/// Whether the liveness probe shows the server running: a response arrived
/// with a status code in 200..=299. No response counts as not running.
pub fn check_ollama_running(outcome: &HttpOutcome) -> (running: bool)
    ensures
        running == outcome@.succeeded(),
        outcome is Unreachable ==> !running,
{
    match outcome {
        HttpOutcome::Answered { status, .. } => 200 <= *status && *status < 300,
        HttpOutcome::Unreachable { .. } => false,
    }
}

} // verus!
