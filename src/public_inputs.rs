use vstd::prelude::*;

use crate::bytes::copy_values;

verus! {

/// The public statement a proof attests to: the program digest, the public
/// inputs and the claimed outputs. Nothing secret and nothing else of the
/// trace is in it, so a verifier can rebuild it from those three alone.
#[derive(Debug)]
pub struct PublicInputs {
    program_hash: [u8; 32],
    inputs: Vec<u128>,
    outputs: Vec<u128>,
}

/// The statement over a program digest, public inputs and claimed outputs.
pub open spec fn statement(hash: Seq<u8>, inputs: Seq<u128>, outputs: Seq<u128>) -> (
    Seq<u8>,
    Seq<u128>,
    Seq<u128>,
) {
    (hash, inputs, outputs)
}

impl View for PublicInputs {
    type V = (Seq<u8>, Seq<u128>, Seq<u128>);

    closed spec fn view(&self) -> Self::V {
        statement(self.program_hash@, self.inputs@, self.outputs@)
    }
}

impl PublicInputs {
    /// The statement over `program_hash`, `inputs` and `outputs`, which are copied.
    pub fn new(program_hash: [u8; 32], inputs: &[u128], outputs: &[u128]) -> (r: PublicInputs)
        ensures
            r@ == statement(program_hash@, inputs@, outputs@),
    {
        PublicInputs { program_hash, inputs: copy_values(inputs), outputs: copy_values(outputs) }
    }

    /// The program digest.
    pub fn program_hash(&self) -> (r: &[u8; 32])
        ensures
            r@ == self@.0,
    {
        &self.program_hash
    }

    /// The public inputs.
    pub fn inputs(&self) -> (r: &Vec<u128>)
        ensures
            r@ == self@.1,
    {
        &self.inputs
    }

    /// The claimed outputs.
    pub fn outputs(&self) -> (r: &Vec<u128>)
        ensures
            r@ == self@.2,
    {
        &self.outputs
    }

    /// Whether two statements are the same, value for value.
    pub fn same_as(&self, other: &PublicInputs) -> (r: bool)
        ensures
            r == (self@ == other@),
    {
        let mut i: usize = 0;
        while i < 32
            invariant
                0 <= i <= 32,
                forall|j: int| 0 <= j < i ==> self.program_hash@[j] == other.program_hash@[j],
            decreases 32 - i,
        {
            if self.program_hash[i] != other.program_hash[i] {
                return false;
            }
            i = i + 1;
        }
        assert(self.program_hash@ =~= other.program_hash@);
        values_equal(&self.inputs, &other.inputs) && values_equal(&self.outputs, &other.outputs)
    }
}

/// Whether two sequences of values are the same.
fn values_equal(a: &Vec<u128>, b: &Vec<u128>) -> (r: bool)
    ensures
        r == (a@ == b@),
{
    if a.len() != b.len() {
        return false;
    }
    let mut i: usize = 0;
    while i < a.len()
        invariant
            a@.len() == b@.len(),
            0 <= i <= a@.len(),
            forall|j: int| 0 <= j < i ==> a@[j] == b@[j],
        decreases a@.len() - i,
    {
        if a[i] != b[i] {
            return false;
        }
        i = i + 1;
    }
    assert(a@ =~= b@);
    true
}

} // verus!
