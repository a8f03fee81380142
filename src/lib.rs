use vstd::prelude::*;

pub mod bytes;
pub mod layout;
pub mod trace;
pub mod program;
pub mod state;
pub mod validate;
pub mod public_inputs;
pub mod run;
pub mod prover;

pub use layout::{TraceInfo, TraceMetadata, MIN_TRACE_LENGTH};
pub use program::{FieldExtension, HashFunction, Program, ProgramInputs, ProofOptions};
pub use prover::ExecutionProver;
pub use public_inputs::PublicInputs;
pub use run::{bind_trace, Action, Run, Stage, MAX_OUTPUTS};
pub use state::{get_last_state, TraceState};
pub use trace::ExecutionTrace;
pub use validate::{validate, Error};

verus! {

} // verus!
