//! The sequenced executor: every execution takes the next index from one
//! counter, under exclusive access, before the command runs.

use vstd::prelude::*;
use vstd::string::*;
use crate::record::{ExecOutput, ExecOutputView};
use crate::shell::{
    capture_text, captured_text, shell_call, shell_call_of, Platform, RawOutput, RawOutputView,
    ShellCall, SpawnFailure,
};

verus! {

/// Why an execution produced no record.
#[derive(Debug, Clone, PartialEq, Eq)]
pub enum ExecError {
    /// Exclusive access to the counter could not be had.
    Lock,
    /// The shell process could not be created.
    Spawn {
        /// The operating system's description of what went wrong.
        reason: String,
    },
}

/// The mathematical content of an [`ExecError`].
pub enum ExecErrorView {
    Lock,
    Spawn { reason: Seq<char> },
}

impl View for ExecError {
    type V = ExecErrorView;

    open spec fn view(&self) -> ExecErrorView {
        match self {
            ExecError::Lock => ExecErrorView::Lock,
            ExecError::Spawn { reason } => ExecErrorView::Spawn { reason: reason@ },
        }
    }
}

impl ExecErrorView {
    /// The description of the error.
    pub open spec fn message(self) -> Seq<char> {
        match self {
            ExecErrorView::Lock => "Unable to write into index for increment"@,
            ExecErrorView::Spawn { .. } => "Unable to perform execute"@,
        }
    }
}

impl ExecError {
    /// The description of the error.
    pub fn message(&self) -> (text: String)
        ensures
            text@ == self@.message(),
    {
        match self {
            ExecError::Lock => String::from_str("Unable to write into index for increment"),
            ExecError::Spawn { .. } => String::from_str("Unable to perform execute"),
        }
    }
}

/// One acquisition on a counter that stands at `counter`: the index handed
/// out, and where the counter stands afterwards.
pub open spec fn acquire(counter: nat) -> (nat, nat) {
    (counter, counter + 1)
}

/// The record of the execution with index `index` whose process left `raw`.
pub open spec fn record_of(index: nat, raw: RawOutputView) -> ExecOutputView {
    ExecOutputView {
        index,
        status: raw.code,
        stdout: captured_text(raw.stdout),
        stderr: captured_text(raw.stderr),
    }
}

/// What the execution with index `index` returns when running the command
/// came to `outcome`: the record of the captured output, or the spawn
/// failure as an error. An exit code other than zero is a record like any
/// other.
pub open spec fn result_of(index: nat, outcome: Result<RawOutput, SpawnFailure>) -> Result<
    ExecOutputView,
    ExecErrorView,
> {
    match outcome {
        Ok(raw) => Ok(record_of(index, raw@)),
        Err(failure) => Err(ExecErrorView::Spawn { reason: failure.reason@ }),
    }
}

/// The mathematical content of the result of an execution.
pub open spec fn result_view(result: Result<ExecOutput, ExecError>) -> Result<
    ExecOutputView,
    ExecErrorView,
> {
    match result {
        Ok(record) => Ok(record@),
        Err(error) => Err(error@),
    }
}

/// The indices handed out, in order, by `n` acquisitions in a row on a
/// counter that stands at `counter`.
pub open spec fn issued(counter: nat, n: nat) -> Seq<nat>
    decreases n,
{
    if n == 0 {
        Seq::empty()
    } else {
        seq![acquire(counter).0] + issued(acquire(counter).1, (n - 1) as nat)
    }
}

/// Where a counter that stood at `counter` stands after `n` acquisitions.
pub open spec fn counter_after(counter: nat, n: nat) -> nat
    decreases n,
{
    if n == 0 {
        counter
    } else {
        counter_after(acquire(counter).1, (n - 1) as nat)
    }
}

/// The results of a run of executions that all had access to the counter,
/// one after the other, starting with the counter at `counter`; running the
/// command came to `outcomes[i]` in the `i`-th of them.
pub open spec fn results_of(counter: nat, outcomes: Seq<Result<RawOutput, SpawnFailure>>) -> Seq<
    Result<ExecOutputView, ExecErrorView>,
>
    decreases outcomes.len(),
{
    if outcomes.len() == 0 {
        Seq::empty()
    } else {
        seq![result_of(acquire(counter).0, outcomes[0])] + results_of(
            acquire(counter).1,
            outcomes.drop_first(),
        )
    }
}

/// The indices of the records among `results`, in order.
pub open spec fn returned_indices(results: Seq<Result<ExecOutputView, ExecErrorView>>) -> Seq<nat>
    decreases results.len(),
{
    if results.len() == 0 {
        Seq::empty()
    } else {
        match results[0] {
            Ok(record) => seq![record.index] + returned_indices(results.drop_first()),
            Err(_) => returned_indices(results.drop_first()),
        }
    }
}

/// Takes the next index from the counter and advances it.
pub fn take_index(counter: &mut u64) -> (index: u64)
    requires
        *old(counter) < u64::MAX,
    ensures
        (index as nat, *final(counter) as nat) == acquire(*old(counter) as nat),
{
    let index: u64 = *counter;
    *counter = index + 1;
    index
}

/// Turns what running the command came to into the result of the execution
/// with index `index`.
pub fn finish(index: u64, outcome: Result<RawOutput, SpawnFailure>) -> (result: Result<
    ExecOutput,
    ExecError,
>)
    ensures
        result_view(result) == result_of(index as nat, outcome),
{
    match outcome {
        Ok(raw) => {
            let stdout = capture_text(&raw.stdout);
            let stderr = capture_text(&raw.stderr);
            Ok(ExecOutput::new(index, raw.code, stdout, stderr))
        },
        Err(failure) => Err(ExecError::Spawn { reason: failure.reason }),
    }
}

/// Runs the command once. `access` is the exclusive access to the counter,
/// or `None` when it could not be had; `run` starts the shell and waits for
/// it to exit.
///
/// Without access nothing runs and the counter is not touched. With it, the
/// index is taken and the counter advanced before `run` is called, so a
/// failure to spawn still uses up its index; `run` is called exactly once,
/// with the shell invocation for `command`, while the access is held.
pub fn execute<F>(
    access: Option<&mut u64>,
    platform: Platform,
    command: &str,
    run: F,
) -> (result: Result<ExecOutput, ExecError>) where
    F: FnOnce(ShellCall) -> Result<RawOutput, SpawnFailure>,

    requires
        access matches Some(counter) ==> *counter < u64::MAX,
        access is Some ==> forall|call: ShellCall|
            call@ == shell_call_of(platform, command@) ==> call_requires(run, (call,)),
    ensures
        access is None ==> (result matches Err(error) && error@ == ExecErrorView::Lock),
        access matches Some(counter) ==> {
            &&& *final(counter) as nat == acquire(*counter as nat).1
            &&& exists|call: ShellCall, outcome: Result<RawOutput, SpawnFailure>|
                {
                    &&& call@ == shell_call_of(platform, command@)
                    &&& #[trigger] call_ensures(run, (call,), outcome)
                    &&& result_view(result) == result_of(acquire(*counter as nat).0, outcome)
                }
        },
{
    match access {
        None => Err(ExecError::Lock),
        Some(counter) => {
            let index: u64 = take_index(counter);
            let call = shell_call(platform, command);
            let outcome = run(call);
            finish(index, outcome)
        },
    }
}

/// An execution returns a record exactly when the shell could be started,
/// and the record then carries the index of the execution and the exit
/// status that the process reported, present or absent, and nothing made
/// up in its place; the texts are the captured streams. When the shell
/// could not be started the result is the spawn failure.
pub proof fn lemma_record_iff_spawned(index: nat, outcome: Result<RawOutput, SpawnFailure>)
    ensures
        result_of(index, outcome) is Ok <==> outcome is Ok,
        outcome matches Ok(raw) ==> (result_of(index, outcome) matches Ok(record) && {
            &&& record.index == index
            &&& record.status == raw@.code
            &&& record.stdout == captured_text(raw.stdout@)
            &&& record.stderr == captured_text(raw.stderr@)
        }),
        outcome matches Err(failure) ==> (result_of(index, outcome) matches Err(error) && error
            == (ExecErrorView::Spawn { reason: failure.reason@ })),
{
}

/// `n` acquisitions in a row hand out `counter, counter + 1, …,
/// counter + n - 1`, in this order, and leave the counter at `counter + n`.
pub proof fn lemma_issued_is_contiguous(counter: nat, n: nat)
    ensures
        issued(counter, n).len() == n,
        forall|i: int| 0 <= i < n ==> #[trigger] issued(counter, n)[i] == counter + i,
        counter_after(counter, n) == counter + n,
    decreases n,
{
    if n > 0 {
        lemma_issued_is_contiguous(counter + 1, (n - 1) as nat);
    }
}

/// No index is handed out twice, and none is skipped: the indices of `n`
/// acquisitions are pairwise different and are, as a set, exactly the range
/// from `counter` up to but not including `counter + n`.
pub proof fn lemma_issued_has_no_duplicates_or_gaps(counter: nat, n: nat)
    ensures
        issued(counter, n).no_duplicates(),
        issued(counter, n).to_set() == Set::new(|v: nat| counter <= v < counter + n),
{
    lemma_issued_is_contiguous(counter, n);
    let indices = issued(counter, n);
    assert forall|v: nat| indices.to_set().contains(v) <==> counter <= v < counter + n by {
        if counter <= v < counter + n {
            assert(indices[v - counter] == v);
        }
    }
    assert(indices.to_set() =~= Set::new(|v: nat| counter <= v < counter + n));
}

/// In whatever order the indices of `n` acquisitions are looked at, they are
/// a rearrangement of `counter, …, counter + n - 1`: each value of that
/// range occurs exactly once, and nothing else occurs.
pub proof fn lemma_observed_indices_are_a_permutation(counter: nat, n: nat, observed: Seq<nat>)
    requires
        observed.to_multiset() == issued(counter, n).to_multiset(),
    ensures
        observed.len() == n,
        observed.no_duplicates(),
        forall|v: nat| counter <= v < counter + n <==> observed.contains(v),
{
    let indices = issued(counter, n);
    lemma_issued_is_contiguous(counter, n);
    lemma_issued_has_no_duplicates_or_gaps(counter, n);
    indices.to_multiset_ensures();
    observed.to_multiset_ensures();
    indices.lemma_multiset_has_no_duplicates();
    assert forall|v: nat| observed.to_multiset().count(v) <= 1 by {
        assert(indices.to_multiset().count(v) <= 1);
    }
    observed.lemma_multiset_has_no_duplicates_conv();
    assert forall|v: nat| counter <= v < counter + n <==> observed.contains(v) by {
        assert(observed.contains(v) <==> observed.to_multiset().count(v) > 0);
        assert(indices.contains(v) <==> indices.to_multiset().count(v) > 0);
        assert(indices.contains(v) <==> indices.to_set().contains(v));
    }
}

/// In a run of executions the `i`-th one works with the index
/// `counter + i`, whatever came of the executions before it.
pub proof fn lemma_results_are_numbered(
    counter: nat,
    outcomes: Seq<Result<RawOutput, SpawnFailure>>,
)
    ensures
        results_of(counter, outcomes).len() == outcomes.len(),
        forall|i: int|
            0 <= i < outcomes.len() ==> #[trigger] results_of(counter, outcomes)[i] == result_of(
                counter + i as nat,
                outcomes[i],
            ),
    decreases outcomes.len(),
{
    if outcomes.len() > 0 {
        let rest = outcomes.drop_first();
        lemma_results_are_numbered(counter + 1, rest);
        assert forall|i: int| 0 <= i < outcomes.len() implies #[trigger] results_of(
            counter,
            outcomes,
        )[i] == result_of(counter + i as nat, outcomes[i]) by {
            if i > 0 {
                assert(results_of(counter, outcomes)[i] == results_of(counter + 1, rest)[i - 1]);
                assert(rest[i - 1] == outcomes[i]);
                assert(counter + 1 + (i - 1) as nat == counter + i as nat);
            }
        }
    }
}

/// Where the shell could be started in every execution of a run, the
/// indices that come back are `counter, counter + 1, …`, one for each
/// execution, in the order of the executions: no duplicates and no gaps.
pub proof fn lemma_returned_indices_without_failures(
    counter: nat,
    outcomes: Seq<Result<RawOutput, SpawnFailure>>,
)
    requires
        forall|i: int| 0 <= i < outcomes.len() ==> (#[trigger] outcomes[i]) is Ok,
    ensures
        returned_indices(results_of(counter, outcomes)) == issued(counter, outcomes.len()),
    decreases outcomes.len(),
{
    if outcomes.len() > 0 {
        let rest = outcomes.drop_first();
        assert forall|i: int| 0 <= i < rest.len() implies (#[trigger] rest[i]) is Ok by {
            assert(rest[i] == outcomes[i + 1]);
        }
        lemma_returned_indices_without_failures(counter + 1, rest);
        assert(outcomes[0] is Ok);
        assert(results_of(counter, outcomes).drop_first() =~= results_of(counter + 1, rest));
    }
}

/// Whatever came of the executions of a run, the indices that come back
/// grow strictly and stay below where the run leaves the counter: an index
/// is never used twice, but one that went to an execution whose shell could
/// not be started is missing.
pub proof fn lemma_returned_indices_grow(
    counter: nat,
    outcomes: Seq<Result<RawOutput, SpawnFailure>>,
)
    ensures
        returned_indices(results_of(counter, outcomes)).len() <= outcomes.len(),
        forall|i: int|
            0 <= i < returned_indices(results_of(counter, outcomes)).len() ==> counter
                <= #[trigger] returned_indices(results_of(counter, outcomes))[i] < counter
                + outcomes.len(),
        forall|i: int, j: int|
            0 <= i < j < returned_indices(results_of(counter, outcomes)).len()
                ==> #[trigger] returned_indices(results_of(counter, outcomes))[i]
                < #[trigger] returned_indices(results_of(counter, outcomes))[j],
        returned_indices(results_of(counter, outcomes)).no_duplicates(),
    decreases outcomes.len(),
{
    if outcomes.len() > 0 {
        let rest = outcomes.drop_first();
        lemma_returned_indices_grow(counter + 1, rest);
        assert(results_of(counter, outcomes).drop_first() =~= results_of(counter + 1, rest));
        let all = returned_indices(results_of(counter, outcomes));
        let tail = returned_indices(results_of(counter + 1, rest));
        match outcomes[0] {
            Ok(raw) => {
                assert(all =~= seq![counter] + tail);
                assert forall|i: int| 0 < i < all.len() implies all[i] == tail[i - 1] by {}
            },
            Err(_) => {
                assert(all =~= tail);
            },
        }
    }
}

} // verus!
