//! The trigger endpoint: one operation, `POST /execute`, and nothing else.

use vstd::prelude::*;
use vstd::std_specs::iter::IteratorSpec;
use vstd::string::*;
use crate::executor::{ExecError, ExecErrorView};
use crate::json::{body_of, encode_record, EncodeError};
use crate::record::ExecOutput;
use crate::text::same_text;

verus! {

/// The part of a request target that stands before its first `?`: the
/// target without its query string.
pub open spec fn path_of(raw_url: Seq<char>) -> Seq<char>
    decreases raw_url.len(),
{
    if raw_url.len() == 0 || raw_url[0] == '?' {
        Seq::empty()
    } else {
        seq![raw_url[0]] + path_of(raw_url.drop_first())
    }
}

/// Tells whether a request asks for the trigger operation: the method is
/// `POST`, and the target, its query string apart, is `/execute`.
pub open spec fn is_trigger(method: Seq<char>, raw_url: Seq<char>) -> bool {
    method == "POST"@ && path_of(raw_url) == "/execute"@
}

/// The path is the longest prefix of the target without a `?`: if no `?`
/// stands before position `end`, and the target ends there or has a `?`
/// there, the path is the first `end` characters.
pub proof fn lemma_path_is_prefix(raw_url: Seq<char>, end: int)
    requires
        0 <= end <= raw_url.len(),
        forall|j: int| 0 <= j < end ==> raw_url[j] != '?',
        end == raw_url.len() || raw_url[end] == '?',
    ensures
        path_of(raw_url) == raw_url.take(end),
    decreases end,
{
    if end == 0 {
        assert(raw_url.take(0) =~= Seq::<char>::empty());
    } else {
        let rest = raw_url.drop_first();
        assert forall|j: int| 0 <= j < end - 1 implies rest[j] != '?' by {
            assert(rest[j] == raw_url[j + 1]);
        }
        lemma_path_is_prefix(rest, end - 1);
        assert(raw_url.take(end) =~= seq![raw_url[0]] + rest.take(end - 1));
    }
}

/// A query string does not matter: a path without a `?` is its own path,
/// and stays the path when a `?` and anything at all is put behind it.
pub proof fn lemma_query_is_ignored(path: Seq<char>, query: Seq<char>)
    requires
        !path.contains('?'),
    ensures
        path_of(path) == path,
        path_of(path + seq!['?'] + query) == path,
{
    let len = path.len() as int;
    let target = path + seq!['?'] + query;
    assert forall|j: int| 0 <= j < len implies path[j] != '?' && target[j] != '?' by {
        assert(path.contains(path[j]));
        assert(target[j] == path[j]);
    }
    lemma_path_is_prefix(path, len);
    assert(path.take(len) =~= path);
    assert(target[len] == '?');
    lemma_path_is_prefix(target, len);
    assert(target.take(len) =~= path);
}

/// `POST /execute` is the trigger operation, with or without a query string.
pub proof fn lemma_post_execute_triggers(query: Seq<char>)
    ensures
        is_trigger("POST"@, "/execute"@),
        is_trigger("POST"@, "/execute"@ + seq!['?'] + query),
{
    reveal_strlit("/execute");
    let path = "/execute"@;
    assert(!path.contains('?')) by {
        if path.contains('?') {
            let i = choose|i: int| 0 <= i < path.len() && path[i] == '?';
            assert(path[i] == '?');
        }
    }
    lemma_query_is_ignored(path, query);
}

/// Cuts the query string off a request target.
pub fn request_path(raw_url: &str) -> (path: &str)
    ensures
        path@ == path_of(raw_url@),
{
    let total: usize = raw_url.unicode_len();
    let mut rest = raw_url.chars();
    let mut end: usize = 0;
    loop
        invariant_except_break
            rest.remaining() == raw_url@.skip(end as int),
        invariant
            total == raw_url@.len(),
            end <= total,
            forall|j: int| 0 <= j < end ==> raw_url@[j] != '?',
        ensures
            end <= total,
            forall|j: int| 0 <= j < end ==> raw_url@[j] != '?',
            end == total || raw_url@[end as int] == '?',
        decreases total - end,
    {
        match rest.next() {
            Some(c) => {
                if c == '?' {
                    break ;
                }
                assert(raw_url@.skip(end as int).drop_first() =~= raw_url@.skip(end + 1));
                end += 1;
            },
            None => {
                break ;
            },
        }
    }
    proof {
        lemma_path_is_prefix(raw_url@, end as int);
    }
    raw_url.substring_char(0, end)
}

/// What the endpoint sends back: a status code and a plain-text body.
#[derive(Debug, Clone, PartialEq, Eq)]
pub struct Reply {
    /// The HTTP status code.
    pub status_code: u16,
    /// The body of the response.
    pub body: String,
}

/// The mathematical content of a [`Reply`].
pub struct ReplyView {
    pub status_code: nat,
    pub body: Seq<char>,
}

impl View for Reply {
    type V = ReplyView;

    open spec fn view(&self) -> ReplyView {
        ReplyView { status_code: self.status_code as nat, body: self.body@ }
    }
}

/// Why a trigger request was answered with a failure.
#[derive(Debug, Clone, PartialEq, Eq)]
pub enum TriggerError {
    /// The execution produced no record.
    Execute(ExecError),
    /// The record could not be written as JSON.
    Encode(EncodeError),
}

/// The mathematical content of a [`TriggerError`].
pub enum TriggerErrorView {
    Execute(ExecErrorView),
    Encode,
}

impl View for TriggerError {
    type V = TriggerErrorView;

    open spec fn view(&self) -> TriggerErrorView {
        match self {
            TriggerError::Execute(cause) => TriggerErrorView::Execute(cause@),
            TriggerError::Encode(_) => TriggerErrorView::Encode,
        }
    }
}

impl TriggerErrorView {
    /// The description of the error, which is the body of the failure
    /// response.
    pub open spec fn message(self) -> Seq<char> {
        match self {
            TriggerErrorView::Execute(_) => "Error in executing command"@,
            TriggerErrorView::Encode => "Unable to deserialize executed output into JSON"@,
        }
    }
}

impl TriggerError {
    /// The description of the error.
    pub fn message(&self) -> (text: String)
        ensures
            text@ == self@.message(),
    {
        match self {
            TriggerError::Execute(_) => String::from_str("Error in executing command"),
            TriggerError::Encode(_) => String::from_str(
                "Unable to deserialize executed output into JSON",
            ),
        }
    }
}

/// The response to a request that is not the trigger operation.
pub open spec fn not_found_reply() -> ReplyView {
    ReplyView {
        status_code: 404,
        body: "Attempting to get response from invalid endpoint / via invalid method"@,
    }
}

/// The response to a trigger request whose handling came to `outcome`: the
/// body with status 200, or the description of the error with status 400.
pub open spec fn reply_to(outcome: Result<String, TriggerError>) -> ReplyView {
    match outcome {
        Ok(body) => ReplyView { status_code: 200, body: body@ },
        Err(error) => ReplyView { status_code: 400, body: error@.message() },
    }
}

/// Tells whether `outcome` is what the result of an execution is turned
/// into: a record gives its JSON body, a failed execution gives that
/// failure as the cause of the error.
pub open spec fn encodes(
    result: Result<ExecOutput, ExecError>,
    outcome: Result<String, TriggerError>,
) -> bool {
    match result {
        Ok(record) => (outcome matches Ok(body) && body@ == body_of(record@)),
        Err(error) => (outcome matches Err(failure) && failure@ == TriggerErrorView::Execute(
            error@,
        )),
    }
}

/// The response to a trigger request whose execution came to `result`:
/// status 200 with the record as JSON, or status 400 with the description
/// of the failure.
pub open spec fn answer_to(result: Result<ExecOutput, ExecError>) -> ReplyView {
    match result {
        Ok(record) => ReplyView { status_code: 200, body: body_of(record@) },
        Err(_) => ReplyView { status_code: 400, body: "Error in executing command"@ },
    }
}

/// The status of the response tells what came of the execution: it is 200
/// exactly when the execution returned a record, whatever exit code the
/// record holds, and 400 exactly when it failed. Encoding the result and
/// responding to the outcome gives the response that `answer_to` names.
pub proof fn lemma_status_tells_the_result(
    result: Result<ExecOutput, ExecError>,
    outcome: Result<String, TriggerError>,
)
    requires
        encodes(result, outcome),
    ensures
        reply_to(outcome) == answer_to(result),
        answer_to(result).status_code == 200 <==> result is Ok,
        answer_to(result).status_code == 400 <==> result is Err,
{
}

/// Turns the result of an execution into a response body or the error to
/// report.
pub fn encode_result(result: Result<ExecOutput, ExecError>) -> (outcome: Result<
    String,
    TriggerError,
>)
    ensures
        encodes(result, outcome),
{
    match result {
        Err(error) => Err(TriggerError::Execute(error)),
        Ok(record) => match encode_record(&record) {
            Ok(body) => Ok(body),
            Err(failure) => Err(TriggerError::Encode(failure)),
        },
    }
}

/// The response to a trigger request whose handling came to `outcome`.
pub fn respond(outcome: Result<String, TriggerError>) -> (reply: Reply)
    ensures
        reply@ == reply_to(outcome),
{
    match outcome {
        Ok(body) => Reply { status_code: 200, body },
        Err(error) => Reply { status_code: 400, body: error.message() },
    }
}

/// The response to a request that is not the trigger operation.
pub fn not_found() -> (reply: Reply)
    ensures
        reply@ == not_found_reply(),
{
    Reply {
        status_code: 404,
        body: String::from_str(
            "Attempting to get response from invalid endpoint / via invalid method",
        ),
    }
}

/// Answers one request. `method` and `raw_url` are the request's method and
/// target; `trigger` performs one execution.
///
/// A request for anything but the trigger operation is answered with the
/// "not found" response and `trigger` is not called. For the trigger
/// operation `trigger` is called exactly once, and the response reports what
/// it returned: status 200 with the record as JSON whenever it returned a
/// record, status 400 with the description of the failure whenever it
/// failed.
pub fn route<T>(method: &str, raw_url: &str, trigger: T) -> (reply: Reply) where
    T: FnOnce() -> Result<ExecOutput, ExecError>,

    requires
        is_trigger(method@, raw_url@) ==> call_requires(trigger, ()),
    ensures
        !is_trigger(method@, raw_url@) ==> reply@ == not_found_reply(),
        is_trigger(method@, raw_url@) ==> exists|result: Result<ExecOutput, ExecError>|
            {
                &&& #[trigger] call_ensures(trigger, (), result)
                &&& reply@ == answer_to(result)
            },
{
    if same_text(method, "POST") && same_text(request_path(raw_url), "/execute") {
        let result = trigger();
        let outcome = encode_result(result);
        proof {
            lemma_status_tells_the_result(result, outcome);
        }
        respond(outcome)
    } else {
        not_found()
    }
}

} // verus!
