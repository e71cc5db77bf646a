//! Commands for the host binary, and what running one gave.

use vstd::prelude::*;

verus! {

/// A program and its arguments.
pub struct CommandLine {
    pub program: String,
    pub args: Vec<String>,
}

pub struct CommandLineView {
    pub program: Seq<char>,
    pub args: Seq<Seq<char>>,
}

impl View for CommandLine {
    type V = CommandLineView;

    open spec fn view(&self) -> CommandLineView {
        CommandLineView { program: self.program@, args: self.args.deep_view() }
    }
}

/// What running a command to its end gave.
pub enum CommandOutcome {
    /// The process could not be started; `cause` is the system's message.
    NotStarted { cause: String },
    /// The process ran and ended. `code` is its exit code, `None` where it
    /// ended without one; `stderr` is what it wrote to standard error.
    Exited { code: Option<i32>, stderr: Vec<u8> },
}

pub enum CommandOutcomeView {
    NotStarted { cause: Seq<char> },
    Exited { code: Option<i32>, stderr: Seq<u8> },
}

impl View for CommandOutcome {
    type V = CommandOutcomeView;

    open spec fn view(&self) -> CommandOutcomeView {
        match self {
            CommandOutcome::NotStarted { cause } => CommandOutcomeView::NotStarted { cause: cause@ },
            CommandOutcome::Exited { code, stderr } => CommandOutcomeView::Exited {
                code: *code,
                stderr: stderr@,
            },
        }
    }
}

impl CommandOutcomeView {
    /// The process ran and ended with exit code zero.
    pub open spec fn succeeded(self) -> bool {
        self matches CommandOutcomeView::Exited { code, .. } && code == Some(0i32)
    }
}

/// The name of the host binary.
pub open spec fn host_program() -> Seq<char> {
    "ollama"@
}

/// The host binary with the given arguments.
pub open spec fn host_command(args: Seq<Seq<char>>) -> CommandLineView {
    CommandLineView { program: host_program(), args }
}

/// The command that asks the host binary for its version.
pub fn version_command() -> (r: CommandLine)
    ensures
        r@ == host_command(seq!["--version"@]),
{
    let mut args: Vec<String> = Vec::new();
    args.push(String::from_str("--version"));
    let r = CommandLine { program: String::from_str("ollama"), args };
    assert(r@.args =~= seq!["--version"@]);
    r
}

/// The command that runs the host binary as a server.
pub fn serve_command() -> (r: CommandLine)
    ensures
        r@ == host_command(seq!["serve"@]),
{
    let mut args: Vec<String> = Vec::new();
    args.push(String::from_str("serve"));
    let r = CommandLine { program: String::from_str("ollama"), args };
    assert(r@.args =~= seq!["serve"@]);
    r
}

/// The command that downloads the model `model`.
pub fn pull_command(model: &str) -> (r: CommandLine)
    ensures
        r@ == host_command(seq!["pull"@, model@]),
{
    let mut args: Vec<String> = Vec::new();
    args.push(String::from_str("pull"));
    args.push(String::from_str(model));
    let r = CommandLine { program: String::from_str("ollama"), args };
    assert(r@.args =~= seq!["pull"@, model@]);
    r
}

} // verus!
