//! The fault boundary around the proving of one task.
//!
//! Whatever happens while a task is proved ends as one of two things: the
//! reply, or a failure in words. A panic is caught by the caller and handed
//! in here; it becomes a failure like any other.

use crate::provers::registry::ProversManager;
use crate::provers::session::{
    calls_left, correlated, drive, lemma_drive_push, lemma_resume_nears_end, EngineCall,
    Progress, ProgressView,
};
use crate::provers::ProverError;
use crate::types::MessageEnvelope;
use crate::types::MessageReplyEnvelope;
use vstd::prelude::*;
use vstd::string::StringExecFns;

verus! {

/// How the proving of a task came back.
#[derive(Debug, PartialEq, Eq)]
pub enum Dispatched {
    /// It returned, with the reply or with an error.
    Returned(Result<MessageReplyEnvelope, ProverError>),
    /// It panicked, with these words if the panic carried any.
    Panicked(Option<String>),
}

/// Why a task has failed.
#[derive(Debug, Clone, PartialEq, Eq)]
pub enum TaskFailure {
    /// The prover gave up.
    Prover(ProverError),
    /// The prover panicked.
    Panic { task_id: String, message: String },
}

/// The words that stand for a panic which carried none.
pub open spec fn unknown_panic() -> Seq<char> {
    "Box<dyn Any>"@
}

impl TaskFailure {
    /// The failure in words, as it is reported to the coordinator.
    pub open spec fn spec_message(self) -> Seq<char> {
        match self {
            TaskFailure::Prover(error) => error.spec_message(),
            TaskFailure::Panic { task_id, message } =>
                "panic encountered while proving. task_id: "@ + task_id@ + " msg: "@ + message@,
        }
    }

    pub fn message(&self) -> (r: String)
        ensures
            r@ == self.spec_message(),
    {
        match self {
            TaskFailure::Prover(error) => error.message(),
            TaskFailure::Panic { task_id, message } => {
                let mut text = String::from_str("panic encountered while proving. task_id: ");
                text.append(task_id.as_str());
                text.append(" msg: ");
                text.append(message.as_str());
                text
            },
        }
    }
}

/// Whether `r` is what the proving of the task `task_id` ends as, given how
/// it came back.
pub open spec fn contained(
    r: Result<MessageReplyEnvelope, TaskFailure>,
    task_id: String,
    outcome: Dispatched,
) -> bool {
    match outcome {
        Dispatched::Returned(Ok(reply)) => r == Ok::<MessageReplyEnvelope, TaskFailure>(reply),
        Dispatched::Returned(Err(error)) => r == Err::<MessageReplyEnvelope, TaskFailure>(
            TaskFailure::Prover(error),
        ),
        Dispatched::Panicked(Some(message)) => r == Err::<MessageReplyEnvelope, TaskFailure>(
            TaskFailure::Panic { task_id, message },
        ),
        Dispatched::Panicked(None) => r matches Err(TaskFailure::Panic { task_id: id, message })
            && id == task_id && message@ == unknown_panic(),
    }
}

/// Whether `r` is how a task ends that started as `start`, under an engine
/// that gave `answers` to the calls made of it, one by one. A task that the
/// registry refused ends with that error and without any call.
pub open spec fn ended_as(
    start: Result<ProgressView, ProverError>,
    answers: Seq<Result<Vec<u8>, String>>,
    r: Result<MessageReplyEnvelope, ProverError>,
) -> bool {
    match start {
        Err(error) => r == Err::<MessageReplyEnvelope, ProverError>(error) && answers.len() == 0,
        Ok(progress) => drive(progress, answers) == (match r {
            Ok(reply) => Ok::<ProgressView, ProverError>(ProgressView::Done(reply@)),
            Err(error) => Err(error),
        }),
    }
}

/// Whether a task that stands at `progress` asks for `call`.
pub open spec fn asked_for(progress: Result<ProgressView, ProverError>, call: EngineCall) -> bool {
    progress matches Ok(ProgressView::Call(asked, _)) && asked == call@
}

/// Where a task that the registry answered with `start` stands after the
/// engine has given `answers`.
pub open spec fn stands_at(
    start: Result<ProgressView, ProverError>,
    answers: Seq<Result<Vec<u8>, String>>,
) -> Result<ProgressView, ProverError> {
    match start {
        Ok(progress) => drive(progress, answers),
        Err(error) => Err(error),
    }
}

/// Whether `answers` are what `engine` gave to `calls`, and `calls` are the
/// calls that a task which the registry answered with `start` makes of an
/// engine that answers so: each call is the one that the task asks for after
/// the answers before it.
pub open spec fn answered_by<E: Fn(EngineCall) -> Result<Vec<u8>, String>>(
    engine: E,
    start: Result<ProgressView, ProverError>,
    calls: Seq<EngineCall>,
    answers: Seq<Result<Vec<u8>, String>>,
) -> bool {
    &&& calls.len() == answers.len()
    &&& forall|i: int|
        0 <= i < calls.len() ==> call_ensures(engine, (#[trigger] calls[i],), answers[i])
    &&& forall|i: int|
        0 <= i < calls.len() ==> asked_for(stands_at(start, answers.take(i)), #[trigger] calls[i])
}

/// Whether `r` is how the proving of a task ends that the registry answered
/// with `start`, under `engine`.
pub open spec fn dispatched<E: Fn(EngineCall) -> Result<Vec<u8>, String>>(
    engine: E,
    start: Result<ProgressView, ProverError>,
    r: Result<MessageReplyEnvelope, ProverError>,
) -> bool {
    exists|calls: Seq<EngineCall>, answers: Seq<Result<Vec<u8>, String>>|
        #![trigger answered_by(engine, start, calls, answers)]
        ended_as(start, answers, r) && answered_by(engine, start, calls, answers)
}

/// Proves a task: hands the request to the capability of its family, makes
/// each call of the engine that the capability asks for, and resumes with
/// the engine's answer until the reply is there or the task has failed.
///
/// The reply carries the identifier of the request and a proof. Calls are
/// made one after another; the first failure of the engine ends the task.
pub fn dispatch<E: Fn(EngineCall) -> Result<Vec<u8>, String>>(
    manager: &ProversManager,
    envelope: MessageEnvelope,
    engine: E,
) -> (r: Result<MessageReplyEnvelope, ProverError>)
    requires
        forall|call: EngineCall| call_requires(engine, (call,)),
    ensures
        r matches Ok(reply) ==> reply@.task_id == envelope.task_id@ && reply@.outcome is Proof,
        !(r matches Err(ProverError::UnsupportedTaskType { .. })),
        dispatched(engine, manager.spec_delegate(envelope), r),
{
    let ghost start = manager.spec_delegate(envelope);
    let ghost task_id = envelope.task_id@;
    let mut progress = match manager.delegate_proving(envelope) {
        Ok(progress) => progress,
        Err(error) => {
            proof {
                let calls = Seq::<EngineCall>::empty();
                let answers = Seq::<Result<Vec<u8>, String>>::empty();
                assert(ended_as(start, answers, Err(error)));
                assert(answered_by(engine, start, calls, answers));
                assert(dispatched(engine, start, Err(error)));
            }
            return Err(error);
        },
    };
    let ghost first = progress@;
    let ghost mut answers: Seq<Result<Vec<u8>, String>> = Seq::empty();
    let ghost mut calls: Seq<EngineCall> = Seq::empty();
    loop
        invariant
            answered_by(engine, start, calls, answers),
            start == manager.spec_delegate(envelope),
            task_id == envelope.task_id@,
            start == Ok::<ProgressView, ProverError>(first),
            drive(first, answers) == Ok::<ProgressView, ProverError>(progress@),
            correlated(progress@, task_id),
            forall|call: EngineCall| call_requires(engine, (call,)),
        decreases calls_left(progress@),
    {
        match progress {
            Progress::Done(reply) => {
                assert(ended_as(start, answers, Ok(reply)));
                assert(dispatched(engine, start, Ok(reply)));
                return Ok(reply);
            },
            Progress::Call(call, session) => {
                let answer = engine(call);
                proof {
                    lemma_drive_push(first, answers, answer);
                    lemma_resume_nears_end(session@, answer);
                    let before = answers;
                    answers = answers.push(answer);
                    calls = calls.push(call);
                    assert(answers.take(before.len() as int) =~= before);
                    assert forall|i: int| 0 <= i < before.len() implies answers.take(i)
                        == before.take(i) by {
                        assert(answers.take(i) =~= before.take(i));
                    }
                    assert(answered_by(engine, start, calls, answers));
                }
                match session.resume(answer) {
                    Ok(next) => {
                        progress = next;
                    },
                    Err(error) => {
                        assert(ended_as(start, answers, Err(error)));
                        assert(dispatched(engine, start, Err(error)));
                        return Err(error);
                    },
                }
            },
        }
    }
}

/// Turns the way in which the proving of the task `task_id` came back into
/// the reply or the failure of the task. A reply and an error pass as they
/// are; a panic becomes a failure that names the task and carries the words
/// of the panic.
pub fn process_downstream_payload(task_id: String, outcome: Dispatched) -> (r: Result<
    MessageReplyEnvelope,
    TaskFailure,
>)
    ensures
        contained(r, task_id, outcome),
{
    match outcome {
        Dispatched::Returned(Ok(reply)) => Ok(reply),
        Dispatched::Returned(Err(error)) => Err(TaskFailure::Prover(error)),
        Dispatched::Panicked(Some(message)) => Err(TaskFailure::Panic { task_id, message }),
        Dispatched::Panicked(None) => Err(
            TaskFailure::Panic { task_id, message: String::from_str("Box<dyn Any>") },
        ),
    }
}

} // verus!
