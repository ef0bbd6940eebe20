//! The JSON body that reports a record: an object with the fields `index`,
//! `status`, `stdout` and `stderr`, in this order and without white space.

use vstd::prelude::*;
use vstd::string::*;
use crate::record::{status_view, ExecOutput, ExecOutputView};
use crate::text::{decimal, decimal_i32, decimal_u64, signed_decimal};

verus! {

/// `serde_json::Error`, known by name only: a value of it is passed on
/// and never looked into.
#[verifier::external_type_specification]
#[verifier::external_body]
pub struct ExJsonError(serde_json::Error);

/// The record could not be written as JSON.
#[derive(Debug, Clone, Copy, PartialEq, Eq)]
pub struct EncodeError {}

/// The JSON string literal for `text`, quotes included, as `serde_json`
/// writes it.
pub uninterp spec fn json_string(text: Seq<char>) -> Seq<char>;

/// `serde_json::to_string` on a string slice, trusted: the result is the JSON
/// string literal of the text, a function of the text alone. It is always `Ok`:
/// a string is written into a byte vector in memory, which takes every write.
#[verifier::external_body]
fn to_json_string(text: &str) -> (result: Result<String, serde_json::Error>)
    ensures
        result is Ok,
        result matches Ok(literal) ==> literal@ == json_string(text@),
{
    serde_json::to_string(text)
}

/// The JSON text of an optional exit code: the number, or `null`.
pub open spec fn status_json(status: Option<int>) -> Seq<char> {
    match status {
        Some(code) => signed_decimal(code),
        None => "null"@,
    }
}

/// The JSON object of a record whose two texts are already written as JSON
/// string literals.
pub open spec fn record_json(
    index: nat,
    status: Option<int>,
    stdout_literal: Seq<char>,
    stderr_literal: Seq<char>,
) -> Seq<char> {
    "{\"index\":"@ + decimal(index) + ",\"status\":"@ + status_json(status) + ",\"stdout\":"@
        + stdout_literal + ",\"stderr\":"@ + stderr_literal + "}"@
}

/// The JSON body that reports `record`.
pub open spec fn body_of(record: ExecOutputView) -> Seq<char> {
    record_json(
        record.index,
        record.status,
        json_string(record.stdout),
        json_string(record.stderr),
    )
}

/// Writes an optional exit code as JSON.
pub fn status_text(status: Option<i32>) -> (text: String)
    ensures
        text@ == status_json(status_view(status)),
{
    match status {
        Some(code) => decimal_i32(code),
        None => String::from_str("null"),
    }
}

/// Writes the JSON object of a record from its index, its exit code and the
/// JSON string literals of its two texts.
pub fn frame_record(
    index: u64,
    status: Option<i32>,
    stdout_literal: &str,
    stderr_literal: &str,
) -> (body: String)
    ensures
        body@ == record_json(index as nat, status_view(status), stdout_literal@, stderr_literal@),
{
    let mut body = String::from_str("{\"index\":");
    let index_text = decimal_u64(index);
    body.append(index_text.as_str());
    body.append(",\"status\":");
    let status_text = status_text(status);
    body.append(status_text.as_str());
    body.append(",\"stdout\":");
    body.append(stdout_literal);
    body.append(",\"stderr\":");
    body.append(stderr_literal);
    body.append("}");
    body
}

/// Writes the JSON body that reports `record`. Every record has one: the
/// serialiser takes every text, so the result is never an error.
pub fn encode_record(record: &ExecOutput) -> (result: Result<String, EncodeError>)
    ensures
        result matches Ok(body) && body@ == body_of(record@),
{
    let stdout_literal = match to_json_string(record.stdout.as_str()) {
        Ok(literal) => literal,
        Err(_) => {
            return Err(EncodeError {});
        },
    };
    let stderr_literal = match to_json_string(record.stderr.as_str()) {
        Ok(literal) => literal,
        Err(_) => {
            return Err(EncodeError {});
        },
    };
    Ok(frame_record(record.index, record.status, stdout_literal.as_str(), stderr_literal.as_str()))
}

} // verus!
