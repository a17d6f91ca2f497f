//! The real capability of the Groth16 revelation family: one call of the
//! engine, which wraps the revelation proof. Nothing is composed after it.

use super::dummy::Groth16DummyProver;
use super::query::last_session;
use super::session::{EngineCall, EngineCallView, Progress, ProgressView, Session};
use super::{LgnProver, ProverError, ProverKind, Strategy};
use crate::params::{
    accepted_as, blake3_digest, verify_params, ChecksumManifest, ParamsError, VerifiedParams,
};
use crate::types::{MessageEnvelope, TaskFamily, TaskType};
use vstd::prelude::*;

verus! {

/// Prover of the Groth16 family that hands the work to the proving engine.
#[derive(Debug, Clone, PartialEq, Eq)]
pub struct Groth16Prover {
    params: VerifiedParams,
}

/// What the Groth16 prover answers to a request.
pub open spec fn spec_groth16_run(envelope: MessageEnvelope) -> Result<ProgressView, ProverError> {
    match envelope.task {
        TaskType::V1Groth16(task) => Ok(
            ProgressView::Call(
                EngineCallView::Groth16 { revelation_proof: task.revelation_proof@ },
                last_session(envelope.task_id@),
            ),
        ),
        _ => Err(
            ProverError::UnsupportedTaskType {
                prover: ProverKind::Groth16Prover,
                family: envelope.task.family(),
                task_id: envelope.task_id,
            },
        ),
    }
}

impl Groth16Prover {
    /// The parameters that the prover was built over.
    pub closed spec fn spec_params(&self) -> VerifiedParams {
        self.params
    }

    pub fn new(params: VerifiedParams) -> (r: Self)
        ensures
            r.spec_params() == params,
    {
        Self { params }
    }

    /// Builds the prover over the bytes of its parameter file, which are
    /// accepted only if their BLAKE3 digest is the one that the manifest
    /// gives for the file.
    pub fn init(file: &str, bytes: Vec<u8>, checksums: &ChecksumManifest) -> (r: Result<
        Self,
        ParamsError,
    >)
        ensures
            match r {
                Ok(prover) => accepted_as(
                    Ok(prover.spec_params()),
                    checksums@,
                    file@,
                    blake3_digest(bytes@),
                    bytes@,
                ),
                Err(error) => accepted_as(
                    Err(error),
                    checksums@,
                    file@,
                    blake3_digest(bytes@),
                    bytes@,
                ),
            },
    {
        match verify_params(file, bytes, checksums) {
            Ok(params) => Ok(Self { params }),
            Err(error) => Err(error),
        }
    }

    pub fn params(&self) -> (r: &VerifiedParams)
        ensures
            *r == self.spec_params(),
    {
        &self.params
    }
}

impl LgnProver for Groth16Prover {
    open spec fn family(&self) -> TaskFamily {
        TaskFamily::Groth16
    }

    open spec fn kind(&self) -> ProverKind {
        ProverKind::Groth16Prover
    }

    open spec fn answer(&self, envelope: MessageEnvelope) -> Result<ProgressView, ProverError> {
        spec_groth16_run(envelope)
    }

    fn run(&self, envelope: MessageEnvelope) -> (r: Result<Progress, ProverError>) {
        let MessageEnvelope { task_id, task } = envelope;
        match task {
            TaskType::V1Preprocessing(_) => Err(
                ProverError::UnsupportedTaskType {
                    prover: ProverKind::Groth16Prover,
                    family: TaskFamily::Preprocessing,
                    task_id,
                },
            ),
            TaskType::V1Query(_) => Err(
                ProverError::UnsupportedTaskType {
                    prover: ProverKind::Groth16Prover,
                    family: TaskFamily::Query,
                    task_id,
                },
            ),
            TaskType::V1Groth16(task) => Ok(
                Progress::Call(
                    EngineCall::Groth16 { revelation_proof: task.revelation_proof },
                    Session::last(task_id),
                ),
            ),
        }
    }
}

/// The capability of the Groth16 family, in the strategy it was built with.
#[derive(Debug, Clone, PartialEq, Eq)]
pub enum Groth16Capability {
    Dummy(Groth16DummyProver),
    Real(Groth16Prover),
}

impl LgnProver for Groth16Capability {
    open spec fn family(&self) -> TaskFamily {
        TaskFamily::Groth16
    }

    open spec fn kind(&self) -> ProverKind {
        match self {
            Groth16Capability::Dummy(prover) => prover.kind(),
            Groth16Capability::Real(prover) => prover.kind(),
        }
    }

    open spec fn answer(&self, envelope: MessageEnvelope) -> Result<ProgressView, ProverError> {
        match self {
            Groth16Capability::Dummy(prover) => prover.answer(envelope),
            Groth16Capability::Real(prover) => prover.answer(envelope),
        }
    }

    fn run(&self, envelope: MessageEnvelope) -> (r: Result<Progress, ProverError>) {
        match self {
            Groth16Capability::Dummy(prover) => prover.run(envelope),
            Groth16Capability::Real(prover) => prover.run(envelope),
        }
    }
}

/// Builds the capability of the Groth16 family. The dummy strategy needs no
/// parameters and leaves `file`, `bytes` and `checksums` unread; the real
/// strategy accepts the bytes of its parameter file only under the digest
/// that the manifest gives.
pub fn create_prover(strategy: Strategy, file: &str, bytes: Vec<u8>, checksums: &ChecksumManifest)
    -> (r: Result<Groth16Capability, ParamsError>)
    ensures
        strategy == Strategy::Dummy ==> r == Ok::<Groth16Capability, ParamsError>(
            Groth16Capability::Dummy(Groth16DummyProver),
        ),
        strategy == Strategy::Real ==> match r {
            Ok(Groth16Capability::Real(prover)) => accepted_as(
                Ok(prover.spec_params()),
                checksums@,
                file@,
                blake3_digest(bytes@),
                bytes@,
            ),
            Ok(Groth16Capability::Dummy(_)) => false,
            Err(error) => accepted_as(
                Err(error),
                checksums@,
                file@,
                blake3_digest(bytes@),
                bytes@,
            ),
        },
{
    match strategy {
        Strategy::Dummy => Ok(Groth16Capability::Dummy(Groth16DummyProver)),
        Strategy::Real => match Groth16Prover::init(file, bytes, checksums) {
            Ok(prover) => Ok(Groth16Capability::Real(prover)),
            Err(error) => Err(error),
        },
    }
}

} // verus!
