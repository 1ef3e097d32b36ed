//! What one run of an external program left behind.
//!
//! Starting the program and collecting its output is the caller's work. The
//! library decides what a finished run means.

use vstd::prelude::*;
use vstd::string::StringExecFns;

verus! {

/// How a process ended.
#[derive(Clone, Copy, Debug, PartialEq, Eq, Structural)]
pub enum ExitOutcome {
    /// The process exited by itself, with this code.
    Exited(u32),
    /// A signal ended the process.
    Signaled(u8),
    /// The process ended in a way that is neither of the two.
    Other(i32),
    /// How the process ended could not be found out.
    Undetermined,
}

/// One finished run of an external program.
#[derive(Clone, Debug)]
pub struct Job {
    /// How the process ended.
    pub status: ExitOutcome,
    /// What the process wrote to its output. `None` where it was not captured.
    pub stdout: Option<Vec<u8>>,
    /// What the process wrote to its error output. `None` where it was not captured.
    pub stderr: Option<Vec<u8>>,
}

/// The mathematical value of a [`Job`].
pub ghost struct JobModel {
    pub status: ExitOutcome,
    pub stdout: Option<Seq<u8>>,
    pub stderr: Option<Seq<u8>>,
}

/// The bytes that were captured from one channel, if any were.
pub open spec fn captured(channel: Option<Vec<u8>>) -> Option<Seq<u8>> {
    match channel {
        Some(bytes) => Some(bytes@),
        None => None,
    }
}

impl JobModel {
    /// A run succeeded when the process exited by itself with code 0.
    pub open spec fn success(self) -> bool {
        self.status == ExitOutcome::Exited(0)
    }
}

impl View for Job {
    type V = JobModel;

    open spec fn view(&self) -> JobModel {
        JobModel {
            status: self.status,
            stdout: captured(self.stdout),
            stderr: captured(self.stderr),
        }
    }
}

impl DeepView for Job {
    type V = JobModel;

    open spec fn deep_view(&self) -> JobModel {
        self@
    }
}

/// The command that asks whether `program` is on the search path.
pub open spec fn lookup_command(program: Seq<char>) -> Seq<Seq<char>> {
    seq!["which"@, program]
}

impl Job {
    /// Whether the run succeeded: the process exited by itself, with code 0.
    pub fn success(&self) -> (ok: bool)
        ensures
            ok == self@.success(),
    {
        match self.status {
            ExitOutcome::Exited(code) => code == 0,
            _ => false,
        }
    }

    /// The command to run in order to learn whether `program` is on the search
    /// path. The program is there when that run succeeds.
    pub fn lookup(program: &str) -> (command: Vec<String>)
        ensures
            command.deep_view() == lookup_command(program@),
    {
        let mut command: Vec<String> = Vec::new();
        command.push(String::from_str("which"));
        command.push(String::from_str(program));
        command
    }
}

} // verus!
