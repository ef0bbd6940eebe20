//! Giving up at startup: what is said, and with which exit code the process
//! ends.

use vstd::prelude::*;
use vstd::string::*;

verus! {

/// The exit code of a clean shutdown.
pub const EXIT_SUCCESS: i32 = 0;

/// The exit code after a failure to start.
pub const EXIT_FAILURE: i32 = 1;

/// What is said when the log configuration at `path` cannot be used.
pub open spec fn log_init_failure_of(path: Seq<char>) -> Seq<char> {
    "Unable to initialize log4rs logger with the given config file at '"@ + path + "'"@
}

/// What is said when the endpoint cannot listen on `address`.
pub open spec fn bind_failure_of(address: Seq<char>) -> Seq<char> {
    "Unable to bind the listen address '"@ + address + "'"@
}

/// The first line of a failure report.
pub open spec fn error_line_of(error: Seq<char>) -> Seq<char> {
    "Error: "@ + error
}

/// A later line of a failure report, which names one cause.
pub open spec fn cause_line_of(cause: Seq<char>) -> Seq<char> {
    "- Caused by: "@ + cause
}

/// Says that the log configuration at `path` cannot be used.
pub fn log_init_failure(path: &str) -> (text: String)
    ensures
        text@ == log_init_failure_of(path@),
{
    let mut text = String::from_str(
        "Unable to initialize log4rs logger with the given config file at '",
    );
    text.append(path);
    text.append("'");
    text
}

/// Says that the endpoint cannot listen on `address`.
pub fn bind_failure(address: &str) -> (text: String)
    ensures
        text@ == bind_failure_of(address@),
{
    let mut text = String::from_str("Unable to bind the listen address '");
    text.append(address);
    text.append("'");
    text
}

/// The lines that report a failure to start: the error itself, and below it
/// one line for each of its causes, outermost first.
pub fn failure_lines(error: &str, causes: &Vec<String>) -> (lines: Vec<String>)
    ensures
        lines.len() == causes.len() + 1,
        lines[0]@ == error_line_of(error@),
        forall|i: int| 0 <= i < causes.len() ==> (#[trigger] lines[i + 1])@ == cause_line_of(causes[i]@),
{
    let mut lines: Vec<String> = Vec::new();
    let mut first = String::from_str("Error: ");
    first.append(error);
    lines.push(first);
    let mut done: usize = 0;
    while done < causes.len()
        invariant
            done <= causes.len(),
            lines.len() == done + 1,
            lines[0]@ == error_line_of(error@),
            forall|i: int| 0 <= i < done ==> (#[trigger] lines[i + 1])@ == cause_line_of(causes[i]@),
        decreases causes.len() - done,
    {
        let mut line = String::from_str("- Caused by: ");
        line.append(causes[done].as_str());
        lines.push(line);
        done += 1;
    }
    lines
}

} // verus!
