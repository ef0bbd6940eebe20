//! Handing a command line to the platform shell, and reading what came back.

use vstd::prelude::*;
use vstd::string::*;
use vstd::utf8::*;
use crate::record::status_view;

verus! {

/// The family of operating system the service runs on.
#[derive(Debug, Clone, Copy, PartialEq, Eq)]
pub enum Platform {
    /// The Windows family, whose shell is `cmd`.
    Windows,
    /// Every other system, whose shell is `sh`.
    Other,
}

/// One invocation of the platform shell: `program flag command`.
#[derive(Debug, Clone, PartialEq, Eq)]
pub struct ShellCall {
    /// The shell to start.
    pub program: String,
    /// The option that makes the shell run its next argument.
    pub flag: String,
    /// The command line, passed as one argument.
    pub command: String,
}

/// The mathematical content of a [`ShellCall`].
pub struct ShellCallView {
    pub program: Seq<char>,
    pub flag: Seq<char>,
    pub command: Seq<char>,
}

impl View for ShellCall {
    type V = ShellCallView;

    open spec fn view(&self) -> ShellCallView {
        ShellCallView { program: self.program@, flag: self.flag@, command: self.command@ }
    }
}

/// The shell invocation that runs `command` on `platform`: `cmd /C` on the
/// Windows family, `sh -c` elsewhere, with the command text as one argument.
pub open spec fn shell_call_of(platform: Platform, command: Seq<char>) -> ShellCallView {
    match platform {
        Platform::Windows => ShellCallView { program: "cmd"@, flag: "/C"@, command },
        Platform::Other => ShellCallView { program: "sh"@, flag: "-c"@, command },
    }
}

/// Builds the shell invocation for a command line.
pub fn shell_call(platform: Platform, command: &str) -> (call: ShellCall)
    ensures
        call@ == shell_call_of(platform, command@),
{
    match platform {
        Platform::Windows => ShellCall {
            program: String::from_str("cmd"),
            flag: String::from_str("/C"),
            command: String::from_str(command),
        },
        Platform::Other => ShellCall {
            program: String::from_str("sh"),
            flag: String::from_str("-c"),
            command: String::from_str(command),
        },
    }
}

/// What a finished shell process left behind, as raw bytes.
#[derive(Debug, Clone, PartialEq, Eq)]
pub struct RawOutput {
    /// Exit code; `None` when the process was ended by a signal or the
    /// platform cannot report one.
    pub code: Option<i32>,
    /// The bytes written to standard output.
    pub stdout: Vec<u8>,
    /// The bytes written to standard error.
    pub stderr: Vec<u8>,
}

/// The mathematical content of a [`RawOutput`].
pub struct RawOutputView {
    pub code: Option<int>,
    pub stdout: Seq<u8>,
    pub stderr: Seq<u8>,
}

impl View for RawOutput {
    type V = RawOutputView;

    open spec fn view(&self) -> RawOutputView {
        RawOutputView { code: status_view(self.code), stdout: self.stdout@, stderr: self.stderr@ }
    }
}

/// The shell process could not be created at all.
#[derive(Debug, Clone, PartialEq, Eq)]
pub struct SpawnFailure {
    /// The operating system's description of what went wrong.
    pub reason: String,
}

/// The text that permissive UTF-8 decoding makes of `bytes`: well-formed
/// parts are decoded, every ill-formed part becomes U+FFFD.
pub uninterp spec fn lossy_text(bytes: Seq<u8>) -> Seq<char>;

/// The text of a captured stream: its UTF-8 decoding where the bytes are
/// well-formed, the permissive decoding otherwise.
pub open spec fn captured_text(bytes: Seq<u8>) -> Seq<char> {
    if valid_utf8(bytes) {
        decode_utf8(bytes)
    } else {
        lossy_text(bytes)
    }
}

/// Text that was written as UTF-8 is captured exactly: whatever the
/// characters, line breaks included, capturing their encoding gives them
/// back.
pub proof fn lemma_clean_capture_is_exact(text: Seq<char>)
    ensures
        valid_utf8(encode_utf8(text)),
        captured_text(encode_utf8(text)) == text,
{
    encode_utf8_valid_utf8(text);
    encode_utf8_decode_utf8(text);
}

/// `String::from_utf8_lossy`, trusted: the result is a function of the bytes
/// alone, and well-formed UTF-8 comes back as the very same string, so that
/// encoding the result gives the bytes again.
#[verifier::external_body]
fn decode_lossy(bytes: &[u8]) -> (text: String)
    ensures
        text@ == lossy_text(bytes@),
        valid_utf8(bytes@) ==> encode_utf8(text@) == bytes@,
{
    String::from_utf8_lossy(bytes).into_owned()
}

/// Decodes a captured stream as text. Never fails: bytes that are not
/// well-formed UTF-8 are replaced, the rest is kept exactly.
pub fn capture_text(bytes: &Vec<u8>) -> (text: String)
    ensures
        text@ == captured_text(bytes@),
{
    let text = decode_lossy(bytes.as_slice());
    proof {
        if valid_utf8(bytes@) {
            encode_utf8_decode_utf8(text@);
        }
    }
    text
}

} // verus!
