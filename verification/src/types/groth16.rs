//! Payload of the Groth16 revelation family: the last step of a query, which
//! wraps a revelation proof for on-chain use. Nothing is composed after it.

use vstd::prelude::*;

verus! {

/// A task of the Groth16 revelation family.
#[derive(Debug, Clone, PartialEq, Eq)]
pub struct WorkerTask {
    /// The revelation proof to wrap, as the proving engine reads it.
    pub revelation_proof: Vec<u8>,
}

impl WorkerTask {
    pub fn new(revelation_proof: Vec<u8>) -> (r: Self)
        ensures
            r.revelation_proof == revelation_proof,
    {
        Self { revelation_proof }
    }
}

} // verus!
