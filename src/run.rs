use vstd::prelude::*;

use crate::bytes::copy_values;
use crate::layout::MIN_STACK_DEPTH;
use crate::program::{Program, ProgramInputs, ProofOptions};
use crate::public_inputs::{statement, PublicInputs};
use crate::state::get_last_state;
use crate::trace::ExecutionTrace;
use crate::validate::{check_binding, last_stack, validate, Error};

verus! {

/// The most values a run may report from the top of the stack.
pub const MAX_OUTPUTS: usize = 8;

/// Where a run stands.
#[derive(Clone, Copy, Debug, PartialEq, Eq, Structural)]
pub enum Stage {
    /// Waiting for the execution engine.
    NotStarted,
    /// The trace has come back.
    Executed,
    /// The trace has passed every check.
    Validated,
    /// The statement is built; waiting for the proof engine.
    Bound,
    /// The proof is made.
    Proved,
    /// The run ended without a proof.
    Failed,
}

/// What the caller must do next for a run.
#[derive(Debug)]
pub enum Action {
    /// Execute the program on the inputs and report the trace.
    Execute,
    /// Prove the trace against this statement and report the outcome.
    Prove(PublicInputs),
    /// Done: these are the outputs, to be returned with the proof.
    Finish(Vec<u128>),
    /// Done: no proof, for this reason.
    Fail(Error),
}

/// The outputs that `k` asks of trace `t`, and the statement bound to them,
/// or the first check that fails.
pub open spec fn bind_spec(t: ExecutionTrace, hash: Seq<u8>, inputs: Seq<u128>, k: nat) -> Result<
    (Seq<u128>, (Seq<u8>, Seq<u128>, Seq<u128>)),
    Error,
> {
    if k > MAX_OUTPUTS {
        Err(Error::OutputCountExceeded)
    } else {
        let outputs = last_stack(t).take(k as int);
        match check_binding(t, hash, inputs, outputs) {
            Err(e) => Err(e),
            Ok(_) => Ok((outputs, statement(hash, inputs, outputs))),
        }
    }
}

/// Reads the `num_outputs` values at the top of the last stack of `trace`,
/// checks the trace against `program` and `inputs`, and builds the statement.
pub fn bind_trace(
    trace: &ExecutionTrace,
    program: &Program,
    inputs: &ProgramInputs,
    num_outputs: usize,
) -> (r: Result<(Vec<u128>, PublicInputs), Error>)
    requires
        trace.wf(),
    ensures
        match (r, bind_spec(*trace, program.digest(), inputs.public_view(), num_outputs as nat)) {
            (Ok((o, p)), Ok((so, sp))) => o@ == so && p@ == sp,
            (Err(e), Err(se)) => e == se,
            _ => false,
        },
{
    if num_outputs > MAX_OUTPUTS {
        return Err(Error::OutputCountExceeded);
    }
    let last = get_last_state(trace);
    assert(MAX_OUTPUTS <= MIN_STACK_DEPTH);
    let outputs = last.user_stack_top(num_outputs);
    match validate(trace, program.hash(), inputs.public_inputs().as_slice(), outputs.as_slice()) {
        Err(e) => Err(e),
        Ok(()) => {
            let pub_inputs = PublicInputs::new(
                *program.hash(),
                inputs.public_inputs().as_slice(),
                outputs.as_slice(),
            );
            Ok((outputs, pub_inputs))
        },
    }
}

/// One run from a program and its inputs to outputs and a proof. The engines
/// are driven by the caller: each method takes what the last action asked for
/// and says what to do next.
pub struct Run {
    program: Program,
    inputs: ProgramInputs,
    num_outputs: usize,
    options: ProofOptions,
    stage: Stage,
    outputs: Vec<u128>,
}

impl Run {
    /// Where the run stands.
    pub closed spec fn stage_view(&self) -> Stage {
        self.stage
    }

    /// The digest of the claimed program.
    pub closed spec fn claimed_hash(&self) -> Seq<u8> {
        self.program.digest()
    }

    /// The declared public inputs.
    pub closed spec fn claimed_inputs(&self) -> Seq<u128> {
        self.inputs.public_view()
    }

    /// How many outputs were asked for.
    pub closed spec fn requested_outputs(&self) -> nat {
        self.num_outputs as nat
    }

    /// The outputs read from the trace, once it is bound.
    pub closed spec fn outputs_view(&self) -> Seq<u128> {
        self.outputs@
    }

    /// The proof settings.
    pub closed spec fn options_view(&self) -> ProofOptions {
        self.options
    }

    /// Starts a run of `program` on `inputs` that reports `num_outputs` values.
    /// Asking for more than the most a proof carries fails at once, before
    /// anything is executed.
    pub fn start(
        program: Program,
        inputs: ProgramInputs,
        num_outputs: usize,
        options: ProofOptions,
    ) -> (r: (Run, Action))
        ensures
            r.0.claimed_hash() == program.digest(),
            r.0.claimed_inputs() == inputs.public_view(),
            r.0.requested_outputs() == num_outputs,
            r.0.options_view() == options,
            num_outputs > MAX_OUTPUTS ==> r.0.stage_view() == Stage::Failed && r.1 == Action::Fail(
                Error::OutputCountExceeded,
            ),
            num_outputs <= MAX_OUTPUTS ==> r.0.stage_view() == Stage::NotStarted && r.1 is Execute,
    {
        let too_many = num_outputs > MAX_OUTPUTS;
        let run = Run {
            program,
            inputs,
            num_outputs,
            options,
            stage: if too_many {
                Stage::Failed
            } else {
                Stage::NotStarted
            },
            outputs: Vec::new(),
        };
        if too_many {
            (run, Action::Fail(Error::OutputCountExceeded))
        } else {
            (run, Action::Execute)
        }
    }

    /// Where the run stands.
    pub fn stage(&self) -> (r: Stage)
        ensures
            r == self.stage_view(),
    {
        self.stage
    }

    /// The proof settings, for the proof engine.
    pub fn options(&self) -> (r: &ProofOptions)
        ensures
            *r == self.options_view(),
    {
        &self.options
    }

    /// The program to execute.
    pub fn program(&self) -> (r: &Program)
        ensures
            r.digest() == self.claimed_hash(),
    {
        &self.program
    }

    /// The inputs to execute it on.
    pub fn inputs(&self) -> (r: &ProgramInputs)
        ensures
            r.public_view() == self.claimed_inputs(),
    {
        &self.inputs
    }

    /// The execution engine produced `trace`: read the outputs, check the
    /// trace against the claim and bind the statement. Only a trace that
    /// passes every check is handed on to be proved.
    pub fn on_executed(&mut self, trace: &ExecutionTrace) -> (r: Action)
        requires
            old(self).stage_view() == Stage::NotStarted,
            trace.wf(),
        ensures
            final(self).claimed_hash() == old(self).claimed_hash(),
            final(self).claimed_inputs() == old(self).claimed_inputs(),
            final(self).requested_outputs() == old(self).requested_outputs(),
            final(self).options_view() == old(self).options_view(),
            match bind_spec(
                *trace,
                old(self).claimed_hash(),
                old(self).claimed_inputs(),
                old(self).requested_outputs(),
            ) {
                Ok((outputs, st)) => final(self).stage_view() == Stage::Bound
                    && final(self).outputs_view() == outputs && (r matches Action::Prove(p) && p@
                    == st),
                Err(e) => final(self).stage_view() == Stage::Failed && r == Action::Fail(e),
            },
    {
        self.stage = Stage::Executed;
        match bind_trace(trace, &self.program, &self.inputs, self.num_outputs) {
            Err(e) => {
                self.stage = Stage::Failed;
                Action::Fail(e)
            },
            Ok((outputs, pub_inputs)) => {
                self.stage = Stage::Validated;
                self.outputs = outputs;
                self.stage = Stage::Bound;
                Action::Prove(pub_inputs)
            },
        }
    }

    /// The execution engine failed with `message`.
    pub fn on_execution_failed(&mut self, message: String) -> (r: Action)
        requires
            old(self).stage_view() == Stage::NotStarted,
        ensures
            final(self).stage_view() == Stage::Failed,
            r == Action::Fail(Error::ExecutionFailure(message)),
    {
        self.stage = Stage::Failed;
        Action::Fail(Error::ExecutionFailure(message))
    }

    /// The proof engine made the proof: the run is done with the bound outputs.
    pub fn on_proved(&mut self) -> (r: Action)
        requires
            old(self).stage_view() == Stage::Bound,
        ensures
            final(self).stage_view() == Stage::Proved,
            final(self).outputs_view() == old(self).outputs_view(),
            r matches Action::Finish(o) && o@ == old(self).outputs_view(),
    {
        self.stage = Stage::Proved;
        Action::Finish(copy_values(self.outputs.as_slice()))
    }

    /// The proof engine failed with `message`.
    pub fn on_proving_failed(&mut self, message: String) -> (r: Action)
        requires
            old(self).stage_view() == Stage::Bound,
        ensures
            final(self).stage_view() == Stage::Failed,
            r == Action::Fail(Error::ProvingFailure(message)),
    {
        self.stage = Stage::Failed;
        Action::Fail(Error::ProvingFailure(message))
    }
}

/// The statement bound to a trace is the one a verifier rebuilds from the
/// program digest, the public inputs and the reported outputs alone: two
/// traces of the same claim that report the same outputs bind the same
/// statement, so running twice proves against one statement.
pub proof fn lemma_statement_from_claim_alone(
    t1: ExecutionTrace,
    t2: ExecutionTrace,
    hash: Seq<u8>,
    inputs: Seq<u128>,
    k: nat,
)
    requires
        bind_spec(t1, hash, inputs, k) is Ok,
        bind_spec(t2, hash, inputs, k) is Ok,
        last_stack(t1).take(k as int) == last_stack(t2).take(k as int),
    ensures
        bind_spec(t1, hash, inputs, k) == bind_spec(t2, hash, inputs, k),
        bind_spec(t1, hash, inputs, k) == Ok::<_, Error>(
            (last_stack(t1).take(k as int), statement(hash, inputs, last_stack(t1).take(k as int))),
        ),
{
}

} // verus!
