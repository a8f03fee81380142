use vstd::prelude::*;

use crate::bytes::copy_values;

verus! {

/// A compiled program, known here by its digest.
#[derive(Clone, Copy, Debug)]
pub struct Program {
    hash: [u8; 32],
}

impl Program {
    /// The program's digest.
    pub closed spec fn digest(&self) -> Seq<u8> {
        self.hash@
    }

    /// A program whose digest is `hash`.
    pub fn new(hash: [u8; 32]) -> (r: Program)
        ensures
            r.digest() == hash@,
    {
        Program { hash }
    }

    /// The program's digest.
    pub fn hash(&self) -> (r: &[u8; 32])
        ensures
            r@ == self.digest(),
    {
        &self.hash
    }
}

/// The inputs of a run: the values on the stack at the start, which are
/// public, and two secret advice tapes, which never leave the machine.
#[derive(Clone, Debug)]
pub struct ProgramInputs {
    public: Vec<u128>,
    secret_a: Vec<u128>,
    secret_b: Vec<u128>,
}

impl ProgramInputs {
    /// The values on the stack at the start.
    pub closed spec fn public_view(&self) -> Seq<u128> {
        self.public@
    }

    /// The first secret tape.
    pub closed spec fn secret_a_view(&self) -> Seq<u128> {
        self.secret_a@
    }

    /// The second secret tape.
    pub closed spec fn secret_b_view(&self) -> Seq<u128> {
        self.secret_b@
    }

    /// Inputs with the given public values and secret tapes.
    pub fn new(public: &[u128], secret_a: &[u128], secret_b: &[u128]) -> (r: ProgramInputs)
        ensures
            r.public_view() == public@,
            r.secret_a_view() == secret_a@,
            r.secret_b_view() == secret_b@,
    {
        ProgramInputs {
            public: copy_values(public),
            secret_a: copy_values(secret_a),
            secret_b: copy_values(secret_b),
        }
    }

    /// Inputs with the given public values and no secret tapes.
    pub fn from_public(public: &[u128]) -> (r: ProgramInputs)
        ensures
            r.public_view() == public@,
            r.secret_a_view().len() == 0,
            r.secret_b_view().len() == 0,
    {
        ProgramInputs { public: copy_values(public), secret_a: Vec::new(), secret_b: Vec::new() }
    }

    /// The values on the stack at the start.
    pub fn public_inputs(&self) -> (r: &Vec<u128>)
        ensures
            r@ == self.public_view(),
    {
        &self.public
    }

    /// The first secret tape.
    pub fn secret_a(&self) -> (r: &Vec<u128>)
        ensures
            r@ == self.secret_a_view(),
    {
        &self.secret_a
    }

    /// The second secret tape.
    pub fn secret_b(&self) -> (r: &Vec<u128>)
        ensures
            r@ == self.secret_b_view(),
    {
        &self.secret_b
    }
}

/// The field extension a proof works in: none (the base field) or quadratic.
#[derive(Clone, Copy, Debug, PartialEq, Eq, Structural)]
pub enum FieldExtension {
    Base,
    Quadratic,
}

/// The hash function a proof commits with.
#[derive(Clone, Copy, Debug, PartialEq, Eq, Structural)]
pub enum HashFunction {
    Blake3_256,
    Sha3_256,
}

/// Settings of proof generation.
#[derive(Clone, Copy, Debug, PartialEq, Eq, Structural)]
pub struct ProofOptions {
    pub num_queries: usize,
    pub blowup_factor: usize,
    pub grinding_factor: u32,
    pub hash_fn: HashFunction,
    pub field_extension: FieldExtension,
}

} // verus!
