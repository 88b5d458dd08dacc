//! Failures of one evaluator invocation.
//!
//! Every failure is returned as a value.  The four variants follow the
//! taxonomy of the design: the evaluator program was absent, some other
//! I/O or decode step failed, the evaluator ran and exited non-zero (the
//! full captured standard-error lines kept in emission order), or the
//! evaluator succeeded but printed the wrong number of result paths.

use vstd::prelude::*;

verus! {

/// The sequence of views of a vector of strings.
pub open spec fn string_views(v: Seq<String>) -> Seq<Seq<char>> {
    v.map_values(|s: String| s@)
}

/// A rendered evaluator invocation: the program name and its ordered
/// argument vector, kept so a failure can be reported with the exact
/// command that produced it.
#[derive(Clone, Debug)]
pub struct NixCommand {
    pub program: String,
    pub args: Vec<String>,
}

/// The mathematical value of a [`NixCommand`]: both parts as character
/// sequences.
pub struct NixCommandV {
    pub program: Seq<char>,
    pub args: Seq<Seq<char>>,
}

impl View for NixCommand {
    type V = NixCommandV;

    open spec fn view(&self) -> NixCommandV {
        NixCommandV { program: self.program@, args: string_views(self.args@) }
    }
}

/// What the library reads of a child process's exit: whether the platform
/// reported success, and the exit code when there was one.
#[derive(Clone, Copy, Debug, PartialEq, Eq)]
pub struct ExitStatus {
    pub success: bool,
    pub code: Option<i32>,
}

/// A failed evaluator invocation.
#[derive(Debug)]
pub enum BuildError {
    /// The evaluator program could not be found when spawning `cmd`.
    Spawn { cmd: NixCommand, msg: String },
    /// Any other I/O failure, including a failed decode of the output of a
    /// successful run.
    Io { msg: String },
    /// The evaluator ran `cmd` and exited with a non-success status; `logs`
    /// holds the captured standard-error lines in emission order.
    Exit { cmd: NixCommand, status: ExitStatus, logs: Vec<Vec<u8>> },
    /// The evaluator succeeded but its output had the wrong shape (the
    /// wrong number of result paths).
    Output { msg: String },
}

impl BuildError {
    /// A generic I/O failure.
    pub fn io(msg: String) -> (r: BuildError)
        ensures
            r == (BuildError::Io { msg }),
    {
        BuildError::Io { msg }
    }

    /// The evaluator program was absent when `cmd` was spawned.
    pub fn spawn(cmd: NixCommand, msg: String) -> (r: BuildError)
        ensures
            r == (BuildError::Spawn { cmd, msg }),
    {
        BuildError::Spawn { cmd, msg }
    }

    /// A completed run of `cmd` that exited with a non-success status.
    pub fn exit(cmd: NixCommand, status: ExitStatus, logs: Vec<Vec<u8>>) -> (r: BuildError)
        ensures
            r == (BuildError::Exit { cmd, status, logs }),
    {
        BuildError::Exit { cmd, status, logs }
    }

    /// A successful run whose output had the wrong shape.
    pub fn output(msg: String) -> (r: BuildError)
        ensures
            r == (BuildError::Output { msg }),
    {
        BuildError::Output { msg }
    }
}

} // verus!
