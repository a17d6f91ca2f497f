//! The real capability of the preprocessing family.
//!
//! Before the engine is called, the task is checked: a task that builds on
//! earlier proofs must hold them all, and the raw nodes of a batch must all
//! classify. A task that fails the check is never proved over placeholders.

use super::dummy::PreprocessingDummyProver;
use super::query::last_session;
use super::session::{EngineCall, EngineCallView, Progress, ProgressView, Session};
use super::{LgnProver, ProverError, ProverKind, Strategy};
use crate::params::{
    accepted_as, blake3_digest, verify_params, ChecksumManifest, ParamsError, VerifiedParams,
};
use crate::types::node::NodeType;
use crate::types::preprocessing::{classify_all, WorkerTaskType};
use crate::types::{MessageEnvelope, TaskFamily, TaskType};
use vstd::prelude::*;

verus! {

/// Prover of the preprocessing family that hands the work to the proving
/// engine.
#[derive(Debug, Clone, PartialEq, Eq)]
pub struct EuclidProver {
    params: VerifiedParams,
}

/// The check of a task before it is proved: the structural types of the
/// nodes of a batch, nothing for any other task that is complete, else the
/// reason why the task cannot be proved.
pub open spec fn spec_check(task: WorkerTaskType) -> Result<Seq<NodeType>, ProverError> {
    match task {
        WorkerTaskType::MappingBranch(branch) => if branch.filled() {
            Ok(Seq::empty())
        } else {
            Err(ProverError::Unfilled)
        },
        WorkerTaskType::VariableBranch(branch) => if branch.filled() {
            Ok(Seq::empty())
        } else {
            Err(ProverError::Unfilled)
        },
        WorkerTaskType::Final(extraction) => if extraction.filled() {
            Ok(Seq::empty())
        } else {
            Err(ProverError::Unfilled)
        },
        WorkerTaskType::Length(batch) => match classify_all(batch.nodes@) {
            Ok(types) => Ok(types),
            Err(error) => Err(ProverError::Node(error)),
        },
        WorkerTaskType::Contract(batch) => match classify_all(batch.nodes@) {
            Ok(types) => Ok(types),
            Err(error) => Err(ProverError::Node(error)),
        },
        WorkerTaskType::MptNode(_) => Ok(Seq::empty()),
        WorkerTaskType::MappingLeaf(_) => Ok(Seq::empty()),
        WorkerTaskType::Block(_) => Ok(Seq::empty()),
    }
}

/// What the preprocessing prover answers to a request: one call of the
/// engine for a task that passes the check.
pub open spec fn spec_preprocessing_run(envelope: MessageEnvelope) -> Result<
    ProgressView,
    ProverError,
> {
    match envelope.task {
        TaskType::V1Preprocessing(task) => match spec_check(task) {
            Ok(node_types) => Ok(
                ProgressView::Call(
                    EngineCallView::Preprocessing { task, node_types },
                    last_session(envelope.task_id@),
                ),
            ),
            Err(error) => Err(error),
        },
        _ => Err(
            ProverError::UnsupportedTaskType {
                prover: ProverKind::EuclidProver,
                family: envelope.task.family(),
                task_id: envelope.task_id,
            },
        ),
    }
}

/// Checks a task before it is proved.
pub fn check_task(task: &WorkerTaskType) -> (r: Result<Vec<NodeType>, ProverError>)
    ensures
        match r {
            Ok(types) => spec_check(*task) == Ok::<Seq<NodeType>, ProverError>(types@),
            Err(error) => spec_check(*task) == Err::<Seq<NodeType>, ProverError>(error),
        },
{
    let filled = match task {
        WorkerTaskType::MappingBranch(branch) => branch.is_filled(),
        WorkerTaskType::VariableBranch(branch) => branch.is_filled(),
        WorkerTaskType::Final(extraction) => extraction.is_filled(),
        WorkerTaskType::Length(batch) => {
            return match batch.extraction_types() {
                Ok(types) => Ok(types),
                Err(error) => Err(ProverError::Node(error)),
            };
        },
        WorkerTaskType::Contract(batch) => {
            return match batch.extraction_types() {
                Ok(types) => Ok(types),
                Err(error) => Err(ProverError::Node(error)),
            };
        },
        WorkerTaskType::MptNode(_) => true,
        WorkerTaskType::MappingLeaf(_) => true,
        WorkerTaskType::Block(_) => true,
    };
    if filled {
        Ok(Vec::new())
    } else {
        Err(ProverError::Unfilled)
    }
}

impl EuclidProver {
    /// The parameters that the prover was built over.
    pub closed spec fn spec_params(&self) -> VerifiedParams {
        self.params
    }

    pub fn new(params: VerifiedParams) -> (r: Self)
        ensures
            r.spec_params() == params,
    {
        Self { params }
    }

    /// Builds the prover over the bytes of its parameter file, which are
    /// accepted only if their BLAKE3 digest is the one that the manifest
    /// gives for the file.
    pub fn init(file: &str, bytes: Vec<u8>, checksums: &ChecksumManifest) -> (r: Result<
        Self,
        ParamsError,
    >)
        ensures
            match r {
                Ok(prover) => accepted_as(
                    Ok(prover.spec_params()),
                    checksums@,
                    file@,
                    blake3_digest(bytes@),
                    bytes@,
                ),
                Err(error) => accepted_as(
                    Err(error),
                    checksums@,
                    file@,
                    blake3_digest(bytes@),
                    bytes@,
                ),
            },
    {
        match verify_params(file, bytes, checksums) {
            Ok(params) => Ok(Self { params }),
            Err(error) => Err(error),
        }
    }

    pub fn params(&self) -> (r: &VerifiedParams)
        ensures
            *r == self.spec_params(),
    {
        &self.params
    }
}

impl LgnProver for EuclidProver {
    open spec fn family(&self) -> TaskFamily {
        TaskFamily::Preprocessing
    }

    open spec fn kind(&self) -> ProverKind {
        ProverKind::EuclidProver
    }

    open spec fn answer(&self, envelope: MessageEnvelope) -> Result<ProgressView, ProverError> {
        spec_preprocessing_run(envelope)
    }

    fn run(&self, envelope: MessageEnvelope) -> (r: Result<Progress, ProverError>) {
        let MessageEnvelope { task_id, task } = envelope;
        match task {
            TaskType::V1Preprocessing(task) => match check_task(&task) {
                Ok(node_types) => Ok(
                    Progress::Call(
                        EngineCall::Preprocessing { task, node_types },
                        Session::last(task_id),
                    ),
                ),
                Err(error) => Err(error),
            },
            TaskType::V1Query(_) => Err(
                ProverError::UnsupportedTaskType {
                    prover: ProverKind::EuclidProver,
                    family: TaskFamily::Query,
                    task_id,
                },
            ),
            TaskType::V1Groth16(_) => Err(
                ProverError::UnsupportedTaskType {
                    prover: ProverKind::EuclidProver,
                    family: TaskFamily::Groth16,
                    task_id,
                },
            ),
        }
    }
}

/// The capability of the preprocessing family, in the strategy it was built
/// with.
#[derive(Debug, Clone, PartialEq, Eq)]
pub enum PreprocessingProver {
    Dummy(PreprocessingDummyProver),
    Euclid(EuclidProver),
}

impl LgnProver for PreprocessingProver {
    open spec fn family(&self) -> TaskFamily {
        TaskFamily::Preprocessing
    }

    open spec fn kind(&self) -> ProverKind {
        match self {
            PreprocessingProver::Dummy(prover) => prover.kind(),
            PreprocessingProver::Euclid(prover) => prover.kind(),
        }
    }

    open spec fn answer(&self, envelope: MessageEnvelope) -> Result<ProgressView, ProverError> {
        match self {
            PreprocessingProver::Dummy(prover) => prover.answer(envelope),
            PreprocessingProver::Euclid(prover) => prover.answer(envelope),
        }
    }

    fn run(&self, envelope: MessageEnvelope) -> (r: Result<Progress, ProverError>) {
        match self {
            PreprocessingProver::Dummy(prover) => prover.run(envelope),
            PreprocessingProver::Euclid(prover) => prover.run(envelope),
        }
    }
}

/// Builds the capability of the preprocessing family. The dummy strategy
/// needs no parameters and leaves `file`, `bytes` and `checksums` unread; the
/// real strategy accepts the bytes of its parameter file only under the
/// digest that the manifest gives.
pub fn create_prover(strategy: Strategy, file: &str, bytes: Vec<u8>, checksums: &ChecksumManifest)
    -> (r: Result<PreprocessingProver, ParamsError>)
    ensures
        strategy == Strategy::Dummy ==> r == Ok::<PreprocessingProver, ParamsError>(
            PreprocessingProver::Dummy(PreprocessingDummyProver),
        ),
        strategy == Strategy::Real ==> match r {
            Ok(PreprocessingProver::Euclid(prover)) => accepted_as(
                Ok(prover.spec_params()),
                checksums@,
                file@,
                blake3_digest(bytes@),
                bytes@,
            ),
            Ok(PreprocessingProver::Dummy(_)) => false,
            Err(error) => accepted_as(
                Err(error),
                checksums@,
                file@,
                blake3_digest(bytes@),
                bytes@,
            ),
        },
{
    match strategy {
        Strategy::Dummy => Ok(PreprocessingProver::Dummy(PreprocessingDummyProver)),
        Strategy::Real => match EuclidProver::init(file, bytes, checksums) {
            Ok(prover) => Ok(PreprocessingProver::Euclid(prover)),
            Err(error) => Err(error),
        },
    }
}

} // verus!
