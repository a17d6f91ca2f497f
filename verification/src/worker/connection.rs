//! The state machine of a worker's connection to its coordinator.
//!
//! The machine performs nothing itself. Each state names what the worker is
//! doing; `step` takes the outcome of that as an event and answers with the
//! next state and the next thing to do. A worker authenticates, opens its
//! stream, sends its handshake, and then serves: it awaits a task, proves it,
//! reports it, and awaits the next. Tasks are served strictly one after
//! another. A task that fails is reported, and then the worker ends: it never
//! reads another task. Every other failure ends the worker at once.

use super::dispatch::TaskFailure;
use crate::types::{MessageEnvelope, MessageReplyEnvelope};
use vstd::prelude::*;
use vstd::string::StringExecFns;

verus! {

/// Why a worker has ended.
#[derive(Debug, Clone, PartialEq, Eq)]
pub enum Cause {
    /// No bearer token could be obtained.
    Authentication(String),
    /// The stream to the coordinator could not be opened.
    Connection(String),
    /// A message could not be sent.
    Send(String),
    /// The coordinator closed the stream.
    InboundClosed,
    /// The stream gave an error status.
    InboundStatus(String),
    /// An inbound message was no envelope.
    Decode(String),
    /// A task failed, and its failure was reported.
    TaskFailed(String),
    /// An event arrived that does not belong to the state.
    Protocol,
}

/// A `Cause` as a mathematical value.
pub enum CauseView {
    Authentication(Seq<char>),
    Connection(Seq<char>),
    Send(Seq<char>),
    InboundClosed,
    InboundStatus(Seq<char>),
    Decode(Seq<char>),
    TaskFailed(Seq<char>),
    Protocol,
}

impl View for Cause {
    type V = CauseView;

    open spec fn view(&self) -> CauseView {
        match self {
            Cause::Authentication(words) => CauseView::Authentication(words@),
            Cause::Connection(words) => CauseView::Connection(words@),
            Cause::Send(words) => CauseView::Send(words@),
            Cause::InboundClosed => CauseView::InboundClosed,
            Cause::InboundStatus(words) => CauseView::InboundStatus(words@),
            Cause::Decode(words) => CauseView::Decode(words@),
            Cause::TaskFailed(words) => CauseView::TaskFailed(words@),
            Cause::Protocol => CauseView::Protocol,
        }
    }
}

/// Where a serving worker stands with its current task.
#[derive(Debug, Clone, PartialEq, Eq)]
pub enum Serving {
    /// It awaits the next task.
    Waiting,
    /// It proves the task that arrived under this identifier of the stream.
    Proving(Vec<u8>),
    /// It sends the reply of a task.
    Replying,
    /// It sends the failure of a task, which is this in words.
    Failing(String),
}

/// A `Serving` as a mathematical value.
pub enum ServingView {
    Waiting,
    Proving(Seq<u8>),
    Replying,
    Failing(Seq<char>),
}

impl View for Serving {
    type V = ServingView;

    open spec fn view(&self) -> ServingView {
        match self {
            Serving::Waiting => ServingView::Waiting,
            Serving::Proving(task_id) => ServingView::Proving(task_id@),
            Serving::Replying => ServingView::Replying,
            Serving::Failing(words) => ServingView::Failing(words@),
        }
    }
}

/// The state of a worker's connection.
#[derive(Debug, Clone, PartialEq, Eq)]
pub enum State {
    /// Nothing has happened yet.
    Unauthenticated,
    /// The worker obtains its bearer token.
    Authenticating,
    /// The worker opens its stream to the coordinator.
    StreamOpen,
    /// The worker sends its handshake.
    Ready,
    /// The worker serves tasks.
    Serving(Serving),
    /// The worker has ended.
    Terminated(Cause),
}

/// A `State` as a mathematical value.
pub enum StateView {
    Unauthenticated,
    Authenticating,
    StreamOpen,
    Ready,
    Serving(ServingView),
    Terminated(CauseView),
}

impl View for State {
    type V = StateView;

    open spec fn view(&self) -> StateView {
        match self {
            State::Unauthenticated => StateView::Unauthenticated,
            State::Authenticating => StateView::Authenticating,
            State::StreamOpen => StateView::StreamOpen,
            State::Ready => StateView::Ready,
            State::Serving(serving) => StateView::Serving(serving@),
            State::Terminated(cause) => StateView::Terminated(cause@),
        }
    }
}

/// What came of the last thing the worker did, or what arrived on the
/// stream.
#[derive(Debug, PartialEq, Eq)]
pub enum Event {
    /// The worker starts.
    Start,
    /// The bearer token was obtained.
    Authenticated(String),
    /// The stream is open.
    StreamOpened,
    /// The message was sent.
    Sent,
    /// What the worker was doing failed: authenticating, opening the stream,
    /// or sending.
    Failed(String),
    /// A message arrived under `task_id`, and was decoded as an envelope or
    /// could not be.
    Task { task_id: Vec<u8>, envelope: Result<MessageEnvelope, String> },
    /// The stream gave an error status.
    Status(String),
    /// The coordinator closed the stream.
    Closed,
    /// The task was proved, or has failed.
    Dispatched(Result<MessageReplyEnvelope, TaskFailure>),
}

/// The outcome of a task as it is reported.
#[derive(Debug, Clone, PartialEq, Eq)]
pub enum Reply {
    /// The reply of the task.
    TaskOutput(MessageReplyEnvelope),
    /// The failure of the task, in words.
    WorkerError(String),
}

/// A `Reply` as a mathematical value.
pub enum ReplyValue {
    TaskOutput(MessageReplyEnvelope),
    WorkerError(Seq<char>),
}

impl View for Reply {
    type V = ReplyValue;

    open spec fn view(&self) -> ReplyValue {
        match self {
            Reply::TaskOutput(reply) => ReplyValue::TaskOutput(*reply),
            Reply::WorkerError(words) => ReplyValue::WorkerError(words@),
        }
    }
}

/// The report of one task: the identifier under which the task arrived on
/// the stream, and its outcome.
#[derive(Debug, Clone, PartialEq, Eq)]
pub struct WorkerDone {
    pub task_id: Vec<u8>,
    pub reply: Reply,
}

/// A `WorkerDone` as a mathematical value.
pub struct WorkerDoneView {
    pub task_id: Seq<u8>,
    pub reply: ReplyValue,
}

impl View for WorkerDone {
    type V = WorkerDoneView;

    open spec fn view(&self) -> WorkerDoneView {
        WorkerDoneView { task_id: self.task_id@, reply: self.reply@ }
    }
}

/// What the worker does next.
#[derive(Debug, Clone, PartialEq, Eq)]
pub enum Action {
    /// Obtain the bearer token.
    Authenticate,
    /// Open the stream; every message on it carries `authorization`.
    OpenStream { authorization: String },
    /// Send the handshake.
    SendHandshake,
    /// Await the next task; before that, if `record_success` is set, record
    /// the current time as that of the last successful task.
    Receive { record_success: bool },
    /// Prove the task.
    Dispatch(MessageEnvelope),
    /// Send the report of a task.
    SendDone(WorkerDone),
    /// End.
    Exit,
}

/// An `Action` as a mathematical value.
pub enum ActionView {
    Authenticate,
    OpenStream { authorization: Seq<char> },
    SendHandshake,
    Receive { record_success: bool },
    Dispatch(MessageEnvelope),
    SendDone(WorkerDoneView),
    Exit,
}

impl View for Action {
    type V = ActionView;

    open spec fn view(&self) -> ActionView {
        match self {
            Action::Authenticate => ActionView::Authenticate,
            Action::OpenStream { authorization } => ActionView::OpenStream {
                authorization: authorization@,
            },
            Action::SendHandshake => ActionView::SendHandshake,
            Action::Receive { record_success } => ActionView::Receive {
                record_success: *record_success,
            },
            Action::Dispatch(envelope) => ActionView::Dispatch(*envelope),
            Action::SendDone(done) => ActionView::SendDone(done@),
            Action::Exit => ActionView::Exit,
        }
    }
}

/// The credential that every message of a stream carries, for a bearer
/// token.
pub open spec fn spec_authorization(token: Seq<char>) -> Seq<char> {
    "Bearer "@ + token
}

/// Spells the credential for a bearer token.
pub fn authorization(token: &str) -> (r: String)
    ensures
        r@ == spec_authorization(token@),
{
    let mut value = String::from_str("Bearer ");
    value.append(token);
    value
}

/// The end of a worker, for a cause.
pub open spec fn end(cause: CauseView) -> (StateView, ActionView) {
    (StateView::Terminated(cause), ActionView::Exit)
}

/// The next state and the next action of a worker, from its state and an
/// event. An event that does not belong to the state ends the worker.
pub open spec fn spec_step(state: StateView, event: Event) -> (StateView, ActionView) {
    match (state, event) {
        (StateView::Terminated(cause), _) => end(cause),
        (StateView::Unauthenticated, Event::Start) => (
            StateView::Authenticating,
            ActionView::Authenticate,
        ),
        (StateView::Authenticating, Event::Authenticated(token)) => (
            StateView::StreamOpen,
            ActionView::OpenStream { authorization: spec_authorization(token@) },
        ),
        (StateView::Authenticating, Event::Failed(words)) => end(
            CauseView::Authentication(words@),
        ),
        (StateView::StreamOpen, Event::StreamOpened) => (
            StateView::Ready,
            ActionView::SendHandshake,
        ),
        (StateView::StreamOpen, Event::Failed(words)) => end(CauseView::Connection(words@)),
        (StateView::Ready, Event::Sent) => (
            StateView::Serving(ServingView::Waiting),
            ActionView::Receive { record_success: false },
        ),
        (StateView::Ready, Event::Failed(words)) => end(CauseView::Send(words@)),
        (StateView::Serving(ServingView::Waiting), Event::Task { task_id, envelope: Ok(envelope) }) => (
            StateView::Serving(ServingView::Proving(task_id@)),
            ActionView::Dispatch(envelope),
        ),
        (
            StateView::Serving(ServingView::Waiting),
            Event::Task { task_id, envelope: Err(words) },
        ) => end(CauseView::Decode(words@)),
        (StateView::Serving(ServingView::Waiting), Event::Status(words)) => end(
            CauseView::InboundStatus(words@),
        ),
        (StateView::Serving(ServingView::Waiting), Event::Closed) => end(
            CauseView::InboundClosed,
        ),
        (StateView::Serving(ServingView::Proving(task_id)), Event::Dispatched(Ok(reply))) => (
            StateView::Serving(ServingView::Replying),
            ActionView::SendDone(WorkerDoneView { task_id, reply: ReplyValue::TaskOutput(reply) }),
        ),
        (StateView::Serving(ServingView::Proving(task_id)), Event::Dispatched(Err(failure))) => (
            StateView::Serving(ServingView::Failing(failure.spec_message())),
            ActionView::SendDone(
                WorkerDoneView {
                    task_id,
                    reply: ReplyValue::WorkerError(failure.spec_message()),
                },
            ),
        ),
        (StateView::Serving(ServingView::Replying), Event::Sent) => (
            StateView::Serving(ServingView::Waiting),
            ActionView::Receive { record_success: true },
        ),
        (StateView::Serving(ServingView::Replying), Event::Failed(words)) => end(
            CauseView::Send(words@),
        ),
        (StateView::Serving(ServingView::Failing(words)), Event::Sent) => end(
            CauseView::TaskFailed(words),
        ),
        (StateView::Serving(ServingView::Failing(_)), Event::Failed(words)) => end(
            CauseView::Send(words@),
        ),
        _ => end(CauseView::Protocol),
    }
}

/// The state in which a worker starts.
pub fn initial() -> (r: State)
    ensures
        r@ == StateView::Unauthenticated,
{
    State::Unauthenticated
}

/// Takes a worker from its state to the next, on an event, and says what the
/// worker does next.
pub fn step(state: State, event: Event) -> (r: (State, Action))
    ensures
        (r.0@, r.1@) == spec_step(state@, event),
{
    match (state, event) {
        (State::Terminated(cause), _) => (State::Terminated(cause), Action::Exit),
        (State::Unauthenticated, Event::Start) => (State::Authenticating, Action::Authenticate),
        (State::Authenticating, Event::Authenticated(token)) => (
            State::StreamOpen,
            Action::OpenStream { authorization: authorization(token.as_str()) },
        ),
        (State::Authenticating, Event::Failed(words)) => (
            State::Terminated(Cause::Authentication(words)),
            Action::Exit,
        ),
        (State::StreamOpen, Event::StreamOpened) => (State::Ready, Action::SendHandshake),
        (State::StreamOpen, Event::Failed(words)) => (
            State::Terminated(Cause::Connection(words)),
            Action::Exit,
        ),
        (State::Ready, Event::Sent) => (
            State::Serving(Serving::Waiting),
            Action::Receive { record_success: false },
        ),
        (State::Ready, Event::Failed(words)) => (State::Terminated(Cause::Send(words)), Action::Exit),
        (State::Serving(Serving::Waiting), Event::Task { task_id, envelope: Ok(envelope) }) => (
            State::Serving(Serving::Proving(task_id)),
            Action::Dispatch(envelope),
        ),
        (State::Serving(Serving::Waiting), Event::Task { task_id, envelope: Err(words) }) => (
            State::Terminated(Cause::Decode(words)),
            Action::Exit,
        ),
        (State::Serving(Serving::Waiting), Event::Status(words)) => (
            State::Terminated(Cause::InboundStatus(words)),
            Action::Exit,
        ),
        (State::Serving(Serving::Waiting), Event::Closed) => (
            State::Terminated(Cause::InboundClosed),
            Action::Exit,
        ),
        (State::Serving(Serving::Proving(task_id)), Event::Dispatched(Ok(reply))) => (
            State::Serving(Serving::Replying),
            Action::SendDone(WorkerDone { task_id, reply: Reply::TaskOutput(reply) }),
        ),
        (State::Serving(Serving::Proving(task_id)), Event::Dispatched(Err(failure))) => {
            let words = failure.message();
            let report = words.clone();
            (
                State::Serving(Serving::Failing(words)),
                Action::SendDone(WorkerDone { task_id, reply: Reply::WorkerError(report) }),
            )
        },
        (State::Serving(Serving::Replying), Event::Sent) => (
            State::Serving(Serving::Waiting),
            Action::Receive { record_success: true },
        ),
        (State::Serving(Serving::Replying), Event::Failed(words)) => (
            State::Terminated(Cause::Send(words)),
            Action::Exit,
        ),
        (State::Serving(Serving::Failing(words)), Event::Sent) => (
            State::Terminated(Cause::TaskFailed(words)),
            Action::Exit,
        ),
        (State::Serving(Serving::Failing(_)), Event::Failed(words)) => (
            State::Terminated(Cause::Send(words)),
            Action::Exit,
        ),
        _ => (State::Terminated(Cause::Protocol), Action::Exit),
    }
}

/// Where a worker that goes through `events` ends, and what it does on the
/// way: one action for each event.
pub open spec fn run(state: StateView, events: Seq<Event>) -> (StateView, Seq<ActionView>)
    decreases events.len(),
{
    if events.len() == 0 {
        (state, Seq::empty())
    } else {
        let before = run(state, events.drop_last());
        let after = spec_step(before.0, events.last());
        (after.0, before.1.push(after.1))
    }
}

/// Whether an action is the sending of the handshake.
pub open spec fn is_handshake(action: ActionView) -> bool {
    action is SendHandshake
}

/// Whether an action belongs to the serving of tasks.
pub open spec fn serves(action: ActionView) -> bool {
    action is Receive || action is Dispatch || action is SendDone
}

/// Whether a state lies before the handshake.
pub open spec fn before_handshake(state: StateView) -> bool {
    state is Unauthenticated || state is Authenticating || state is StreamOpen
}

/// A worker that has ended stays ended: whatever arrives, the state is kept
/// and the worker does nothing but end.
pub proof fn lemma_terminated_stays(cause: CauseView, events: Seq<Event>)
    ensures
        run(StateView::Terminated(cause), events).0 == StateView::Terminated(cause),
        run(StateView::Terminated(cause), events).1.len() == events.len(),
        forall|i: int|
            0 <= i < events.len() ==> #[trigger] run(StateView::Terminated(cause), events).1[i]
                == ActionView::Exit,
    decreases events.len(),
{
    if events.len() > 0 {
        lemma_terminated_stays(cause, events.drop_last());
    }
}

/// Crash-only: the failure of a task is reported under the identifier that
/// the task arrived with, and after that the worker does nothing but end.
/// Whatever arrives afterwards, it never awaits or proves another task, and
/// with the first event after the report it has ended.
pub proof fn lemma_crash_only(task_id: Seq<u8>, failure: TaskFailure, events: Seq<Event>)
    ensures
        spec_step(
            StateView::Serving(ServingView::Proving(task_id)),
            Event::Dispatched(Err(failure)),
        ).1 == ActionView::SendDone(
            WorkerDoneView { task_id, reply: ReplyValue::WorkerError(failure.spec_message()) },
        ),
        ({
            let reporting = spec_step(
                StateView::Serving(ServingView::Proving(task_id)),
                Event::Dispatched(Err(failure)),
            ).0;
            &&& run(reporting, events).1.len() == events.len()
            &&& forall|i: int|
                0 <= i < events.len() ==> #[trigger] run(reporting, events).1[i]
                    == ActionView::Exit
            &&& events.len() > 0 ==> run(reporting, events).0 is Terminated
        }),
    decreases events.len(),
{
    let reporting = spec_step(
        StateView::Serving(ServingView::Proving(task_id)),
        Event::Dispatched(Err(failure)),
    ).0;
    if events.len() > 0 {
        lemma_crash_only(task_id, failure, events.drop_last());
        let before = run(reporting, events.drop_last());
        if events.len() == 1 {
            assert(before.0 == reporting);
        }
    }
}

/// What holds of a worker that started from the beginning: the handshake was
/// sent at most once, nothing of the serving of tasks came before it, and it
/// has been sent if the worker is past it.
pub open spec fn handshake_kept(state: StateView, actions: Seq<ActionView>) -> bool {
    &&& forall|i: int, j: int|
        0 <= i < j < actions.len() ==> !(is_handshake(#[trigger] actions[i]) && is_handshake(
            #[trigger] actions[j],
        ))
    &&& forall|k: int|
        0 <= k < actions.len() && serves(#[trigger] actions[k]) ==> exists|j: int|
            0 <= j < k && is_handshake(#[trigger] actions[j])
    &&& before_handshake(state) ==> forall|k: int|
        0 <= k < actions.len() ==> !is_handshake(#[trigger] actions[k])
    &&& (state is Ready || state is Serving) ==> exists|j: int|
        0 <= j < actions.len() && is_handshake(#[trigger] actions[j])
}

/// The handshake is the first message of a stream and is sent once: in every
/// course of a worker from its start, the handshake is sent at most once, and
/// no task is awaited, proved or reported before it.
pub proof fn lemma_handshake_first(events: Seq<Event>)
    ensures
        run(StateView::Unauthenticated, events).1.len() == events.len(),
        handshake_kept(
            run(StateView::Unauthenticated, events).0,
            run(StateView::Unauthenticated, events).1,
        ),
    decreases events.len(),
{
    if events.len() > 0 {
        lemma_handshake_first(events.drop_last());
        let before = run(StateView::Unauthenticated, events.drop_last());
        let after = spec_step(before.0, events.last());
        let actions = before.1.push(after.1);
        let last = before.1.len() as int;
        assert(forall|k: int| 0 <= k < last ==> actions[k] == before.1[k]);
        assert(actions[last] == after.1);
        if is_handshake(after.1) {
            assert(before.0 is StreamOpen);
        }
        if serves(after.1) {
            assert(before.0 is Ready || before.0 is Serving);
            let j = choose|j: int| 0 <= j < before.1.len() && is_handshake(#[trigger] before.1[j]);
            assert(is_handshake(actions[j]));
        }
        if after.0 is Ready || after.0 is Serving {
            if is_handshake(after.1) {
                assert(is_handshake(actions[last]));
            } else {
                assert(before.0 is Ready || before.0 is Serving);
                let j = choose|j: int|
                    0 <= j < before.1.len() && is_handshake(#[trigger] before.1[j]);
                assert(is_handshake(actions[j]));
            }
        }
        assert forall|k: int| 0 <= k < actions.len() && serves(#[trigger] actions[k]) implies exists|
            j: int,
        | 0 <= j < k && is_handshake(#[trigger] actions[j]) by {
            if k < last {
                let j = choose|j: int| 0 <= j < k && is_handshake(#[trigger] before.1[j]);
                assert(is_handshake(actions[j]));
            } else {
                let j = choose|j: int|
                    0 <= j < before.1.len() && is_handshake(#[trigger] before.1[j]);
                assert(is_handshake(actions[j]));
            }
        }
    }
}

/// Whether, after `actions`, a task has been taken up and not yet reported.
pub open spec fn task_open(actions: Seq<ActionView>) -> bool
    decreases actions.len(),
{
    if actions.len() == 0 {
        false
    } else if actions.last() is Dispatch {
        true
    } else if actions.last() is SendDone {
        false
    } else {
        task_open(actions.drop_last())
    }
}

/// Whether a worker in `state` is proving a task.
pub open spec fn proving(state: StateView) -> bool {
    state matches StateView::Serving(ServingView::Proving(_))
}

/// Tasks are served strictly one after another, and each is reported once:
/// in every course of a worker from its start, a task is taken up only when
/// no task is open, a report is sent only for the task that is open, and a
/// worker with an open task is proving it, unless it has ended.
pub proof fn lemma_one_task_at_a_time(events: Seq<Event>)
    ensures
        run(StateView::Unauthenticated, events).1.len() == events.len(),
        proving(run(StateView::Unauthenticated, events).0) ==> task_open(
            run(StateView::Unauthenticated, events).1,
        ),
        task_open(run(StateView::Unauthenticated, events).1) ==> proving(
            run(StateView::Unauthenticated, events).0,
        ) || run(StateView::Unauthenticated, events).0 is Terminated,
        forall|k: int|
            0 <= k < events.len() && (#[trigger] run(
                StateView::Unauthenticated,
                events,
            ).1[k]) is Dispatch ==> !task_open(run(StateView::Unauthenticated, events).1.take(k)),
        forall|k: int|
            0 <= k < events.len() && (#[trigger] run(
                StateView::Unauthenticated,
                events,
            ).1[k]) is SendDone ==> task_open(run(StateView::Unauthenticated, events).1.take(k)),
    decreases events.len(),
{
    if events.len() > 0 {
        lemma_one_task_at_a_time(events.drop_last());
        let before = run(StateView::Unauthenticated, events.drop_last());
        let after = spec_step(before.0, events.last());
        let actions = before.1.push(after.1);
        let last = before.1.len() as int;
        assert(actions.drop_last() =~= before.1);
        assert(actions.take(last) =~= before.1);
        assert forall|k: int| 0 <= k < last implies actions.take(k) == before.1.take(k)
            && actions[k] == before.1[k] by {
            assert(actions.take(k) =~= before.1.take(k));
        }
    }
}

} // verus!
