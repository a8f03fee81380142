use vstd::prelude::*;

use crate::program::ProofOptions;
use crate::public_inputs::{statement, PublicInputs};
use crate::layout::MIN_TRACE_LENGTH;
use crate::run::MAX_OUTPUTS;
use crate::state::{get_last_state, get_state};
use crate::trace::ExecutionTrace;
use crate::validate::{
    are_values_on_stack, check_binding, init_stack, is_stack_prefix, last_stack, trace_hash,
    validate, Error,
};

verus! {

/// The prover's side of a run: the settings, the digest of the claimed
/// program, the declared stack inputs and the claimed outputs, held against
/// the trace before a statement is made.
pub struct ExecutionProver {
    options: ProofOptions,
    program_hash: [u8; 32],
    stack_inputs: Vec<u128>,
    outputs: Vec<u128>,
}

/// The statement the prover makes of trace `t` for the program with digest
/// `hash`, declared `inputs` and claimed `outputs`, or the first check that fails.
pub open spec fn pub_inputs_spec(
    t: ExecutionTrace,
    hash: Seq<u8>,
    inputs: Seq<u128>,
    outputs: Seq<u128>,
) -> Result<
    (Seq<u8>, Seq<u128>, Seq<u128>),
    Error,
> {
    if outputs.len() > MAX_OUTPUTS {
        Err(Error::OutputCountExceeded)
    } else {
        match check_binding(t, hash, inputs, outputs) {
            Err(e) => Err(e),
            Ok(_) => Ok(statement(hash, inputs, outputs)),
        }
    }
}

impl ExecutionProver {
    /// The proof settings.
    pub closed spec fn options_view(&self) -> ProofOptions {
        self.options
    }

    /// The digest of the claimed program.
    pub closed spec fn program_hash_view(&self) -> Seq<u8> {
        self.program_hash@
    }

    /// The declared stack inputs, top first.
    pub closed spec fn stack_inputs_view(&self) -> Seq<u128> {
        self.stack_inputs@
    }

    /// The claimed outputs, top first.
    pub closed spec fn outputs_view(&self) -> Seq<u128> {
        self.outputs@
    }

    /// A prover for a run of the program with digest `program_hash` on
    /// `stack_inputs` that claims `outputs`.
    pub fn new(
        options: ProofOptions,
        program_hash: [u8; 32],
        stack_inputs: Vec<u128>,
        outputs: Vec<u128>,
    ) -> (r: Self)
        ensures
            r.options_view() == options,
            r.program_hash_view() == program_hash@,
            r.stack_inputs_view() == stack_inputs@,
            r.outputs_view() == outputs@,
    {
        Self { options, program_hash, stack_inputs, outputs }
    }

    /// The proof settings.
    pub fn options(&self) -> (r: &ProofOptions)
        ensures
            *r == self.options_view(),
    {
        &self.options
    }

    /// Whether the stack at the first step of `trace` begins with the declared inputs.
    pub fn are_inputs_valid(&self, trace: &ExecutionTrace) -> (r: bool)
        requires
            trace.wf(),
        ensures
            r == is_stack_prefix(self.stack_inputs_view(), init_stack(*trace)),
    {
        let first = get_state(trace, 0);
        are_values_on_stack(self.stack_inputs.as_slice(), &first)
    }

    /// Whether the stack at the last step of `trace` begins with the claimed outputs.
    pub fn are_outputs_valid(&self, trace: &ExecutionTrace) -> (r: bool)
        requires
            trace.wf(),
        ensures
            r == is_stack_prefix(self.outputs_view(), last_stack(*trace)),
    {
        let last = get_last_state(trace);
        are_values_on_stack(self.outputs.as_slice(), &last)
    }

    /// The statement for `trace`: the claimed program's digest, the declared
    /// inputs and the claimed outputs, made only once the trace is long enough
    /// and agrees with all three.
    pub fn get_pub_inputs(&self, trace: &ExecutionTrace) -> (r: Result<PublicInputs, Error>)
        requires
            trace.wf(),
        ensures
            match (r, pub_inputs_spec(
                *trace,
                self.program_hash_view(),
                self.stack_inputs_view(),
                self.outputs_view(),
            )) {
                (Ok(p), Ok(s)) => p@ == s,
                (Err(e), Err(se)) => e == se,
                _ => false,
            },
    {
        if self.outputs.len() > MAX_OUTPUTS {
            return Err(Error::OutputCountExceeded);
        }
        match validate(
            trace,
            &self.program_hash,
            self.stack_inputs.as_slice(),
            self.outputs.as_slice(),
        ) {
            Err(e) => Err(e),
            Ok(()) => Ok(
                PublicInputs::new(
                    self.program_hash,
                    self.stack_inputs.as_slice(),
                    self.outputs.as_slice(),
                ),
            ),
        }
    }
}

/// The prover makes a statement only of a trace of the claimed program that
/// starts with the declared inputs and ends with the claimed outputs; a long
/// enough trace of another program is refused for its digest, before its
/// inputs are looked at.
pub proof fn lemma_prover_binds_claim(
    t: ExecutionTrace,
    hash: Seq<u8>,
    inputs: Seq<u128>,
    outputs: Seq<u128>,
)
    ensures
        pub_inputs_spec(t, hash, inputs, outputs) is Ok ==> trace_hash(t) == hash
            && is_stack_prefix(inputs, init_stack(t)) && is_stack_prefix(outputs, last_stack(t)),
        outputs.len() <= MAX_OUTPUTS && t.rows().len() >= MIN_TRACE_LENGTH && trace_hash(t)
            != hash ==> pub_inputs_spec(t, hash, inputs, outputs) == Err::<
            (Seq<u8>, Seq<u128>, Seq<u128>),
            Error,
        >(Error::ProgramHashMismatch),
{
}

} // verus!
