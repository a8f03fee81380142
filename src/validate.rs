use vstd::prelude::*;

use crate::bytes::digests_equal;
use crate::layout::MIN_TRACE_LENGTH;
use crate::state::{get_last_state, get_state, row_hash, user_stack_of, TraceState};
use crate::trace::ExecutionTrace;

verus! {

/// Why a run produced no proof.
#[derive(Clone, Debug, PartialEq, Eq)]
pub enum Error {
    /// More outputs were asked for than a proof can carry.
    OutputCountExceeded,
    /// The trace has fewer steps than a provable run needs.
    TraceTooShort,
    /// The digest accumulated in the trace is not the claimed program's.
    ProgramHashMismatch,
    /// The stack at the first step does not begin with the declared inputs.
    StackInputMismatch,
    /// The stack at the last step does not begin with the declared outputs.
    StackOutputMismatch,
    /// The execution engine failed; its message is kept.
    ExecutionFailure(String),
    /// The proof engine failed; its message is kept.
    ProvingFailure(String),
}

/// Whether `stack`, top first, begins with `values`.
pub open spec fn is_stack_prefix(values: Seq<u128>, stack: Seq<u128>) -> bool {
    values.len() <= stack.len() && stack.take(values.len() as int) == values
}

/// The stack at the first step of `t`, top first.
pub open spec fn init_stack(t: ExecutionTrace) -> Seq<u128> {
    user_stack_of(t.first_row(), t.layout())
}

/// The stack at the last step of `t`, top first.
pub open spec fn last_stack(t: ExecutionTrace) -> Seq<u128> {
    user_stack_of(t.last_row(), t.layout())
}

/// The digest accumulated in the last step of `t`.
pub open spec fn trace_hash(t: ExecutionTrace) -> Seq<u8> {
    row_hash(t.last_row())
}

/// The verdict on trace `t` as a run of the program with digest `hash` on
/// public `inputs` with claimed `outputs`: the first check that fails, in order
/// length, program digest, inputs, outputs.
pub open spec fn check_binding(
    t: ExecutionTrace,
    hash: Seq<u8>,
    inputs: Seq<u128>,
    outputs: Seq<u128>,
) -> Result<(), Error> {
    if t.rows().len() < MIN_TRACE_LENGTH {
        Err(Error::TraceTooShort)
    } else if trace_hash(t) != hash {
        Err(Error::ProgramHashMismatch)
    } else if !is_stack_prefix(inputs, init_stack(t)) {
        Err(Error::StackInputMismatch)
    } else if !is_stack_prefix(outputs, last_stack(t)) {
        Err(Error::StackOutputMismatch)
    } else {
        Ok(())
    }
}

/// Whether the user stack of `state` begins with `values`.
pub fn are_values_on_stack(values: &[u128], state: &TraceState) -> (r: bool)
    requires
        state.wf(),
    ensures
        r == is_stack_prefix(values@, state.user_stack()),
{
    if values.len() > state.user_stack_depth() {
        return false;
    }
    let mut i: usize = 0;
    while i < values.len()
        invariant
            state.wf(),
            values@.len() <= state.user_stack().len(),
            0 <= i <= values@.len(),
            forall|j: int| 0 <= j < i ==> values@[j] == state.user_stack()[j],
        decreases values@.len() - i,
    {
        if values[i] != state.user_stack_value(i) {
            return false;
        }
        i = i + 1;
    }
    assert(state.user_stack().take(values@.len() as int) =~= values@);
    true
}

/// Checks that `trace` is a run of the program with digest `program_hash` on
/// public `inputs` that ends with `outputs` at the top of the stack. Stops at
/// the first check that fails.
pub fn validate(
    trace: &ExecutionTrace,
    program_hash: &[u8; 32],
    inputs: &[u128],
    outputs: &[u128],
) -> (r: Result<(), Error>)
    requires
        trace.wf(),
    ensures
        r == check_binding(*trace, program_hash@, inputs@, outputs@),
{
    if trace.length() < MIN_TRACE_LENGTH {
        return Err(Error::TraceTooShort);
    }
    let last = get_last_state(trace);
    let found = last.program_hash();
    if !digests_equal(&found, program_hash) {
        return Err(Error::ProgramHashMismatch);
    }
    let first = get_state(trace, 0);
    if !are_values_on_stack(inputs, &first) {
        return Err(Error::StackInputMismatch);
    }
    if !are_values_on_stack(outputs, &last) {
        return Err(Error::StackOutputMismatch);
    }
    Ok(())
}

/// A trace shorter than the least length is refused as too short, whatever
/// program, inputs and outputs it is held against.
pub proof fn lemma_short_trace_rejected(
    t: ExecutionTrace,
    hash: Seq<u8>,
    inputs: Seq<u128>,
    outputs: Seq<u128>,
)
    requires
        t.rows().len() < MIN_TRACE_LENGTH,
    ensures
        check_binding(t, hash, inputs, outputs) == Err::<(), Error>(Error::TraceTooShort),
{
}

/// A trace that does not match the claim (another program's digest, other
/// inputs at the start, or other outputs at the end) is refused; a trace that
/// passes carries the claimed digest, inputs and outputs.
pub proof fn lemma_mismatched_trace_rejected(
    t: ExecutionTrace,
    hash: Seq<u8>,
    inputs: Seq<u128>,
    outputs: Seq<u128>,
)
    ensures
        trace_hash(t) != hash || !is_stack_prefix(inputs, init_stack(t)) || !is_stack_prefix(
            outputs,
            last_stack(t),
        ) ==> check_binding(t, hash, inputs, outputs) is Err,
        check_binding(t, hash, inputs, outputs) is Ok ==> trace_hash(t) == hash
            && init_stack(t).take(inputs.len() as int) == inputs && last_stack(t).take(
            outputs.len() as int,
        ) == outputs,
{
}

/// Once a claim has been bound to a trace, changing any one claimed output
/// makes the same trace fail the output check.
pub proof fn lemma_tampered_output_rejected(
    t: ExecutionTrace,
    hash: Seq<u8>,
    inputs: Seq<u128>,
    outputs: Seq<u128>,
    i: int,
    v: u128,
)
    requires
        check_binding(t, hash, inputs, outputs) is Ok,
        0 <= i < outputs.len(),
        v != outputs[i],
    ensures
        check_binding(t, hash, inputs, outputs.update(i, v)) == Err::<(), Error>(
            Error::StackOutputMismatch,
        ),
{
    let tampered = outputs.update(i, v);
    assert(last_stack(t).take(tampered.len() as int)[i] == outputs[i]);
}

} // verus!
