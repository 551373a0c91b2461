//! Errors and the result handed back once the command has run.
use vstd::prelude::*;

verus! {

/// Why a run failed. Each failure carries a readable cause where one exists.
#[derive(Debug, PartialEq, Eq)]
pub enum RunError {
    /// The command string holds no word to run.
    InvalidCommand,
    /// The process could not be started.
    Spawn(String),
    /// Waiting for the process to end failed.
    Wait(String),
    /// A call to the progress session failed: the session is gone.
    Channel(String),
}

impl RunError {
    /// Whether the command's text is to be shown with this failure, so that
    /// the user knows what was attempted. A command with no word has no text
    /// worth showing.
    pub fn shows_command(&self) -> (r: bool)
        ensures
            r == !(self is InvalidCommand),
    {
        match self {
            RunError::InvalidCommand => false,
            _ => true,
        }
    }
}

/// The exit status and the output of a finished command. A non-zero exit is
/// a result, not an error.
#[derive(Debug, PartialEq, Eq)]
pub struct ExecutionResult {
    /// The exit code; `None` when the process was ended by a signal.
    pub code: Option<i32>,
    pub stdout: Vec<u8>,
    pub stderr: Vec<u8>,
}

/// The result that `ExecutionResult::assemble` builds.
pub open spec fn assembled(
    code: Option<i32>,
    captured_out: Vec<u8>,
    captured_err: Vec<u8>,
    shown_out: Vec<u8>,
    shown_err: Vec<u8>,
    show_output: bool,
) -> ExecutionResult {
    if show_output {
        ExecutionResult { code, stdout: shown_out, stderr: shown_err }
    } else {
        ExecutionResult { code, stdout: captured_out, stderr: captured_err }
    }
}

impl ExecutionResult {
    /// A run succeeded when the process exited with code zero.
    pub open spec fn succeeded(&self) -> bool {
        self.code == Some(0i32)
    }

    /// Whether the process exited with code zero.
    pub fn success(&self) -> (r: bool)
        ensures
            r == self.succeeded(),
    {
        match self.code {
            Some(c) => c == 0,
            None => false,
        }
    }

    /// Builds the result of a run. With the output shown, the pipes were
    /// drained by the stream readers, so the output is their transcripts;
    /// otherwise it is what the wait for the process collected.
    pub fn assemble(
        code: Option<i32>,
        captured_out: Vec<u8>,
        captured_err: Vec<u8>,
        shown_out: Vec<u8>,
        shown_err: Vec<u8>,
        show_output: bool,
    ) -> (r: ExecutionResult)
        ensures
            r == assembled(code, captured_out, captured_err, shown_out, shown_err, show_output),
    {
        if show_output {
            ExecutionResult { code, stdout: shown_out, stderr: shown_err }
        } else {
            ExecutionResult { code, stdout: captured_out, stderr: captured_err }
        }
    }
}

/// Whether a run succeeded depends on its exit code alone: a command that
/// exits with zero succeeds whether its output was shown or captured.
pub proof fn lemma_success_ignores_display(
    code: Option<i32>,
    captured_out: Vec<u8>,
    captured_err: Vec<u8>,
    shown_out: Vec<u8>,
    shown_err: Vec<u8>,
    show_output: bool,
)
    ensures
        assembled(code, captured_out, captured_err, shown_out, shown_err, show_output).succeeded()
            == (code == Some(0i32)),
{
}

} // verus!
