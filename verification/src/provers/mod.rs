//! Prover capabilities: one per task family, each in a dummy and a real
//! strategy, and the registry that routes a request to its capability.
//!
//! A capability never runs the proving engine itself. It answers a request
//! either with the reply, or with the call that the engine must make next and
//! the session to resume with the engine's answer. The caller makes the call
//! and resumes, until the reply is there or the task has failed; the
//! worker's `dispatch` is that caller.

pub mod dummy;
pub mod groth16;
pub mod preprocessing;
pub mod query;
pub mod registry;
pub mod session;

use crate::text::{decimal, push_decimal};
use crate::types::node::NodeError;
use crate::types::{MessageEnvelope, TaskFamily};
use session::{correlated, result_view, Progress, ProgressView};
use vstd::prelude::*;
use vstd::string::StringExecFns;

verus! {

/// How a capability produces its proofs. The choice is made when the worker
/// is configured, never per task.
#[derive(Debug, Clone, Copy, PartialEq, Eq, Structural)]
pub enum Strategy {
    /// Proves nothing and answers with a placeholder of fixed size. For test
    /// set-ups only.
    Dummy,
    /// Hands the work to the proving engine.
    Real,
}

/// The provers, by name.
#[derive(Debug, Clone, Copy, PartialEq, Eq, Structural)]
pub enum ProverKind {
    PreprocessingDummyProver,
    QueryDummyProver,
    Groth16DummyProver,
    EuclidProver,
    EuclidQueryProver,
    Groth16Prover,
}

/// Why a task has no proof.
#[derive(Debug, Clone, PartialEq, Eq)]
pub enum ProverError {
    /// Routing: the prover was handed a task of a family that it is not built
    /// for.
    UnsupportedTaskType { prover: ProverKind, family: TaskFamily, task_id: String },
    /// Input: a tabular step whose row inputs and matching rows differ in
    /// number.
    RowCountMismatch { row_inputs: usize, matching_rows: usize },
    /// Input: a proof that the task builds on is still missing.
    Unfilled,
    /// Input: a node of a batch does not classify.
    Node(NodeError),
    /// Proving: the engine failed, with its own words.
    Engine(String),
}

impl ProverKind {
    /// The name that the prover signs its errors with.
    pub open spec fn spec_name(self) -> Seq<char> {
        match self {
            ProverKind::PreprocessingDummyProver => "PreprocessingDummyProver"@,
            ProverKind::QueryDummyProver => "QueryDummyProver"@,
            ProverKind::Groth16DummyProver => "Groth16DummyProver"@,
            ProverKind::EuclidProver => "EuclidProver"@,
            ProverKind::EuclidQueryProver => "EuclidQueryProver"@,
            ProverKind::Groth16Prover => "Groth16Prover"@,
        }
    }

    pub fn name(&self) -> (r: &'static str)
        ensures
            r@ == self.spec_name(),
    {
        match self {
            ProverKind::PreprocessingDummyProver => "PreprocessingDummyProver",
            ProverKind::QueryDummyProver => "QueryDummyProver",
            ProverKind::Groth16DummyProver => "Groth16DummyProver",
            ProverKind::EuclidProver => "EuclidProver",
            ProverKind::EuclidQueryProver => "EuclidQueryProver",
            ProverKind::Groth16Prover => "Groth16Prover",
        }
    }
}

impl ProverError {
    /// The error in words, as it is reported to the coordinator. A routing
    /// error is tagged as an unsupported task type and names the prover, the
    /// family of the task and the request.
    pub open spec fn spec_message(self) -> Seq<char> {
        match self {
            ProverError::UnsupportedTaskType { prover, family, task_id } => prover.spec_name()
                + ": unsupported task type. task_type: "@ + family.spec_name() + " task_id: "@
                + task_id@,
            ProverError::RowCountMismatch { row_inputs, matching_rows } =>
                "row inputs and matching rows differ in number. row_inputs: "@ + decimal(
                row_inputs as nat,
            ) + " matching_rows: "@ + decimal(matching_rows as nat),
            ProverError::Unfilled => "a proof that the task builds on is missing"@,
            ProverError::Node(error) => "while classifying the nodes of the batch: "@
                + error.spec_message(),
            ProverError::Engine(message) => message@,
        }
    }

    pub fn message(&self) -> (r: String)
        ensures
            r@ == self.spec_message(),
    {
        match self {
            ProverError::UnsupportedTaskType { prover, family, task_id } => {
                let mut text = String::from_str(prover.name());
                text.append(": unsupported task type. task_type: ");
                text.append(family.name());
                text.append(" task_id: ");
                text.append(task_id.as_str());
                text
            },
            ProverError::RowCountMismatch { row_inputs, matching_rows } => {
                let mut text = String::from_str(
                    "row inputs and matching rows differ in number. row_inputs: ",
                );
                push_decimal(&mut text, *row_inputs as u64);
                text.append(" matching_rows: ");
                push_decimal(&mut text, *matching_rows as u64);
                text
            },
            ProverError::Unfilled => String::from_str("a proof that the task builds on is missing"),
            ProverError::Node(error) => {
                let mut text = String::from_str("while classifying the nodes of the batch: ");
                let words = error.message();
                text.append(words.as_str());
                text
            },
            ProverError::Engine(message) => message.clone(),
        }
    }
}

/// Whether `r` is the routing error of `prover` for `envelope`.
pub open spec fn is_routing_error(
    r: Result<Progress, ProverError>,
    prover: ProverKind,
    envelope: MessageEnvelope,
) -> bool {
    r == Err::<Progress, ProverError>(
        ProverError::UnsupportedTaskType {
            prover,
            family: envelope.task.family(),
            task_id: envelope.task_id,
        },
    )
}

/// The uniform interface of the capabilities: produce the proof of a task,
/// or fail.
pub trait LgnProver {
    /// The family that the capability is built for.
    spec fn family(&self) -> TaskFamily;

    /// The name that the capability signs its routing errors with.
    spec fn kind(&self) -> ProverKind;

    /// What the capability answers to a request.
    spec fn answer(&self, envelope: MessageEnvelope) -> Result<ProgressView, ProverError>;

    /// Takes up a task. A task of another family is refused with a routing
    /// error, never proved. What comes back for a task of the capability's
    /// own family carries the identifier of the request.
    fn run(&self, envelope: MessageEnvelope) -> (r: Result<Progress, ProverError>)
        ensures
            result_view(r) == self.answer(envelope),
            envelope.task.family() != self.family() ==> is_routing_error(
                r,
                self.kind(),
                envelope,
            ),
            envelope.task.family() == self.family() ==> !(r matches Err(
                ProverError::UnsupportedTaskType { .. },
            )),
            r matches Ok(progress) ==> correlated(progress@, envelope.task_id@),
    ;
}

} // verus!
