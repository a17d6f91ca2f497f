//! The task taxonomy: requests, replies and the payloads of each task family.

pub mod groth16;
pub mod node;
pub mod preprocessing;
pub mod query;

use vstd::prelude::*;

verus! {

/// The three families of tasks. Each is routed to a prover of its own.
#[derive(Debug, Clone, Copy, PartialEq, Eq, Hash, Structural)]
pub enum TaskFamily {
    Preprocessing,
    Query,
    Groth16,
}

impl TaskFamily {
    /// The tag that the family has in messages.
    pub open spec fn spec_name(self) -> Seq<char> {
        match self {
            TaskFamily::Preprocessing => "V1Preprocessing"@,
            TaskFamily::Query => "V1Query"@,
            TaskFamily::Groth16 => "V1Groth16"@,
        }
    }

    pub fn name(&self) -> (r: &'static str)
        ensures
            r@ == self.spec_name(),
    {
        match self {
            TaskFamily::Preprocessing => "V1Preprocessing",
            TaskFamily::Query => "V1Query",
            TaskFamily::Groth16 => "V1Groth16",
        }
    }
}

/// The payload of a request: a task of exactly one family.
#[derive(Debug, Clone, PartialEq, Eq)]
pub enum TaskType {
    V1Preprocessing(preprocessing::WorkerTaskType),
    V1Query(query::WorkerTaskType),
    V1Groth16(groth16::WorkerTask),
}

impl TaskType {
    /// The family that the payload is tagged with.
    pub open spec fn spec_family(&self) -> TaskFamily {
        match self {
            TaskType::V1Preprocessing(_) => TaskFamily::Preprocessing,
            TaskType::V1Query(_) => TaskFamily::Query,
            TaskType::V1Groth16(_) => TaskFamily::Groth16,
        }
    }

    #[verifier::when_used_as_spec(spec_family)]
    pub fn family(&self) -> (r: TaskFamily)
        ensures
            r == self.spec_family(),
    {
        match self {
            TaskType::V1Preprocessing(_) => TaskFamily::Preprocessing,
            TaskType::V1Query(_) => TaskFamily::Query,
            TaskType::V1Groth16(_) => TaskFamily::Groth16,
        }
    }
}

/// A request: the identifier that the coordinator gave the task, and the
/// task. The identifier is never read, only handed back with the reply.
#[derive(Debug, Clone, PartialEq, Eq)]
pub struct MessageEnvelope {
    pub task_id: String,
    pub task: TaskType,
}

impl MessageEnvelope {
    pub fn new(task_id: String, task: TaskType) -> (r: Self)
        ensures
            r == (MessageEnvelope { task_id, task }),
    {
        Self { task_id, task }
    }

    pub fn task_id(&self) -> (r: &str)
        ensures
            r@ == self.task_id@,
    {
        self.task_id.as_str()
    }

    pub fn task(&self) -> (r: &TaskType)
        ensures
            *r == self.task,
    {
        &self.task
    }
}

/// How a task ended, as a mathematical value.
pub enum OutcomeView {
    Proof(Seq<u8>),
    Error(Seq<char>),
}

/// How a task ended: with its proof, or with the reason why there is none.
#[derive(Debug, Clone, PartialEq, Eq)]
pub enum ReplyOutcome {
    Proof(Vec<u8>),
    Error(String),
}

impl View for ReplyOutcome {
    type V = OutcomeView;

    open spec fn view(&self) -> OutcomeView {
        match self {
            ReplyOutcome::Proof(bytes) => OutcomeView::Proof(bytes@),
            ReplyOutcome::Error(message) => OutcomeView::Error(message@),
        }
    }
}

/// A reply, as a mathematical value.
pub struct ReplyView {
    pub task_id: Seq<char>,
    pub outcome: OutcomeView,
}

/// The reply to one request: the identifier of the request, and one outcome.
#[derive(Debug, Clone, PartialEq, Eq)]
pub struct MessageReplyEnvelope {
    pub task_id: String,
    pub outcome: ReplyOutcome,
}

impl View for MessageReplyEnvelope {
    type V = ReplyView;

    open spec fn view(&self) -> ReplyView {
        ReplyView { task_id: self.task_id@, outcome: self.outcome@ }
    }
}

impl MessageReplyEnvelope {
    /// The reply that carries a proof.
    pub fn new(task_id: String, proof: Vec<u8>) -> (r: Self)
        ensures
            r == (MessageReplyEnvelope { task_id, outcome: ReplyOutcome::Proof(proof) }),
    {
        Self { task_id, outcome: ReplyOutcome::Proof(proof) }
    }

    /// The reply that carries the reason of a failure.
    pub fn failure(task_id: String, message: String) -> (r: Self)
        ensures
            r == (MessageReplyEnvelope { task_id, outcome: ReplyOutcome::Error(message) }),
    {
        Self { task_id, outcome: ReplyOutcome::Error(message) }
    }

    pub fn task_id(&self) -> (r: &str)
        ensures
            r@ == self.task_id@,
    {
        self.task_id.as_str()
    }
}

} // verus!
