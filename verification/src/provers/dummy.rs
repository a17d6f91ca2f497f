//! The dummy strategy: capabilities that prove nothing and answer at once
//! with a placeholder of fixed size. They route as strictly as the real ones.

use super::session::{proved, result_view, Progress, ProgressView};
use super::{LgnProver, ProverError, ProverKind};
use crate::types::{MessageEnvelope, MessageReplyEnvelope, TaskFamily};
use vstd::prelude::*;

verus! {

/// Number of bytes of a placeholder proof.
pub const PROOF_SIZE: usize = 32;

/// The placeholder of `size` bytes: every byte is zero.
pub open spec fn dummy_bytes(size: nat) -> Seq<u8> {
    Seq::new(size, |i: int| 0u8)
}

/// Makes the placeholder that stands for a proof of `size` bytes.
pub fn dummy_proof(size: usize) -> (r: Vec<u8>)
    ensures
        r@ == dummy_bytes(size as nat),
{
    let mut proof: Vec<u8> = Vec::new();
    let mut i: usize = 0;
    while i < size
        invariant
            i <= size,
            proof@ == dummy_bytes(i as nat),
        decreases size - i,
    {
        proof.push(0u8);
        i = i + 1;
        assert(proof@ =~= dummy_bytes(i as nat));
    }
    proof
}

/// What a dummy capability built for `family` answers: the placeholder for a
/// task of that family, a routing error for any other.
pub open spec fn spec_dummy_run(prover: ProverKind, family: TaskFamily, envelope: MessageEnvelope)
    -> Result<ProgressView, ProverError> {
    if envelope.task.family() == family {
        Ok(proved(envelope.task_id@, dummy_bytes(PROOF_SIZE as nat)))
    } else {
        Err(
            ProverError::UnsupportedTaskType {
                prover,
                family: envelope.task.family(),
                task_id: envelope.task_id,
            },
        )
    }
}

fn dummy_run(prover: ProverKind, family: TaskFamily, envelope: MessageEnvelope) -> (r: Result<
    Progress,
    ProverError,
>)
    ensures
        result_view(r) == spec_dummy_run(prover, family, envelope),
{
    let found = envelope.task.family();
    if found == family {
        Ok(Progress::Done(MessageReplyEnvelope::new(envelope.task_id, dummy_proof(PROOF_SIZE))))
    } else {
        Err(ProverError::UnsupportedTaskType { prover, family: found, task_id: envelope.task_id })
    }
}

/// Prover of the preprocessing family which performs no proving.
#[derive(Debug, Clone, Copy, PartialEq, Eq, Structural)]
pub struct PreprocessingDummyProver;

impl LgnProver for PreprocessingDummyProver {
    open spec fn family(&self) -> TaskFamily {
        TaskFamily::Preprocessing
    }

    open spec fn kind(&self) -> ProverKind {
        ProverKind::PreprocessingDummyProver
    }

    open spec fn answer(&self, envelope: MessageEnvelope) -> Result<ProgressView, ProverError> {
        spec_dummy_run(self.kind(), self.family(), envelope)
    }

    fn run(&self, envelope: MessageEnvelope) -> (r: Result<Progress, ProverError>) {
        dummy_run(ProverKind::PreprocessingDummyProver, TaskFamily::Preprocessing, envelope)
    }
}

/// Prover of the query family which performs no proving.
#[derive(Debug, Clone, Copy, PartialEq, Eq, Structural)]
pub struct QueryDummyProver;

impl LgnProver for QueryDummyProver {
    open spec fn family(&self) -> TaskFamily {
        TaskFamily::Query
    }

    open spec fn kind(&self) -> ProverKind {
        ProverKind::QueryDummyProver
    }

    open spec fn answer(&self, envelope: MessageEnvelope) -> Result<ProgressView, ProverError> {
        spec_dummy_run(self.kind(), self.family(), envelope)
    }

    fn run(&self, envelope: MessageEnvelope) -> (r: Result<Progress, ProverError>) {
        dummy_run(ProverKind::QueryDummyProver, TaskFamily::Query, envelope)
    }
}

/// Prover of the Groth16 family which performs no proving.
#[derive(Debug, Clone, Copy, PartialEq, Eq, Structural)]
pub struct Groth16DummyProver;

impl LgnProver for Groth16DummyProver {
    open spec fn family(&self) -> TaskFamily {
        TaskFamily::Groth16
    }

    open spec fn kind(&self) -> ProverKind {
        ProverKind::Groth16DummyProver
    }

    open spec fn answer(&self, envelope: MessageEnvelope) -> Result<ProgressView, ProverError> {
        spec_dummy_run(self.kind(), self.family(), envelope)
    }

    fn run(&self, envelope: MessageEnvelope) -> (r: Result<Progress, ProverError>) {
        dummy_run(ProverKind::Groth16DummyProver, TaskFamily::Groth16, envelope)
    }
}

} // verus!
