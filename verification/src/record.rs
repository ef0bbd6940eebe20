//! The record of one command invocation.

use vstd::prelude::*;

verus! {

/// What one execution of the configured command came to.
#[derive(Debug, Clone, PartialEq, Eq)]
pub struct ExecOutput {
    /// Sequence number of the execution, assigned before the command ran.
    pub index: u64,
    /// Exit code of the process; `None` when the platform reported none.
    pub status: Option<i32>,
    /// Everything the command wrote to its standard output, as text.
    pub stdout: String,
    /// Everything the command wrote to its standard error, as text.
    pub stderr: String,
}

/// The mathematical content of an [`ExecOutput`].
pub struct ExecOutputView {
    pub index: nat,
    pub status: Option<int>,
    pub stdout: Seq<char>,
    pub stderr: Seq<char>,
}

/// An optional exit code as an optional integer.
pub open spec fn status_view(status: Option<i32>) -> Option<int> {
    match status {
        Some(code) => Some(code as int),
        None => None,
    }
}

impl View for ExecOutput {
    type V = ExecOutputView;

    open spec fn view(&self) -> ExecOutputView {
        ExecOutputView {
            index: self.index as nat,
            status: status_view(self.status),
            stdout: self.stdout@,
            stderr: self.stderr@,
        }
    }
}

impl ExecOutput {
    /// Puts the four parts of a record together.
    pub fn new(index: u64, status: Option<i32>, stdout: String, stderr: String) -> (record: Self)
        ensures
            record@ == (ExecOutputView {
                index: index as nat,
                status: status_view(status),
                stdout: stdout@,
                stderr: stderr@,
            }),
    {
        ExecOutput { index, status, stdout, stderr }
    }
}

} // verus!
