//! The course of one task between a capability and the proving engine.

use super::ProverError;
use crate::types::node::NodeType;
use crate::types::preprocessing;
use crate::types::query::{HydratedRow, MatchingRow, RowInput};
use crate::types::{MessageReplyEnvelope, OutcomeView, ReplyView};
use vstd::prelude::*;

verus! {

/// One call of the proving engine. Byte strings that the library hands
/// through are in the encoding of the engine.
#[derive(Debug, Clone, PartialEq, Eq)]
pub enum EngineCall {
    /// Prove a preprocessing task. For a batch of raw nodes, `node_types`
    /// holds the structural type of each node, in the order of the nodes; for
    /// any other task it is empty.
    Preprocessing { task: preprocessing::WorkerTaskType, node_types: Vec<NodeType> },
    /// Prove one row of a tabular query under the query plan `pis`.
    UniversalCircuit { row: RowInput, pis: Vec<u8> },
    /// Prove the revelation of a tabular query from the proofs of its rows.
    Revelation {
        pis: Vec<u8>,
        placeholders: Vec<u8>,
        indexing_proof: Vec<u8>,
        matching_rows: Vec<HydratedRow>,
        column_ids: Vec<u8>,
        limit: u32,
        offset: u32,
    },
    /// Prove a query circuit whose input is already built.
    QueryCircuit { circuit_input: Vec<u8>, pis: Vec<u8> },
    /// Wrap a revelation proof into a Groth16 proof.
    Groth16 { revelation_proof: Vec<u8> },
}

/// An `EngineCall` as a mathematical value.
pub enum EngineCallView {
    Preprocessing { task: preprocessing::WorkerTaskType, node_types: Seq<NodeType> },
    UniversalCircuit { row: RowInput, pis: Seq<u8> },
    Revelation {
        pis: Seq<u8>,
        placeholders: Seq<u8>,
        indexing_proof: Seq<u8>,
        matching_rows: Seq<HydratedRow>,
        column_ids: Seq<u8>,
        limit: u32,
        offset: u32,
    },
    QueryCircuit { circuit_input: Seq<u8>, pis: Seq<u8> },
    Groth16 { revelation_proof: Seq<u8> },
}

impl View for EngineCall {
    type V = EngineCallView;

    open spec fn view(&self) -> EngineCallView {
        match self {
            EngineCall::Preprocessing { task, node_types } => EngineCallView::Preprocessing {
                task: *task,
                node_types: node_types@,
            },
            EngineCall::UniversalCircuit { row, pis } => EngineCallView::UniversalCircuit {
                row: *row,
                pis: pis@,
            },
            EngineCall::Revelation {
                pis,
                placeholders,
                indexing_proof,
                matching_rows,
                column_ids,
                limit,
                offset,
            } => EngineCallView::Revelation {
                pis: pis@,
                placeholders: placeholders@,
                indexing_proof: indexing_proof@,
                matching_rows: matching_rows@,
                column_ids: column_ids@,
                limit: *limit,
                offset: *offset,
            },
            EngineCall::QueryCircuit { circuit_input, pis } => EngineCallView::QueryCircuit {
                circuit_input: circuit_input@,
                pis: pis@,
            },
            EngineCall::Groth16 { revelation_proof } => EngineCallView::Groth16 {
                revelation_proof: revelation_proof@,
            },
        }
    }
}

/// What of a tabular step is still to do while the proof of a row is awaited.
#[derive(Debug, PartialEq, Eq)]
pub struct TabularStage {
    /// The row inputs that follow the row whose proof is awaited.
    rows: Vec<RowInput>,
    /// The descriptor of the row whose proof is awaited, then those of `rows`.
    matching_rows: Vec<MatchingRow>,
    /// The rows proved so far, in the order of the step.
    hydrated: Vec<HydratedRow>,
    pis: Vec<u8>,
    placeholders: Vec<u8>,
    indexing_proof: Vec<u8>,
    column_ids: Vec<u8>,
    limit: u32,
    offset: u32,
}

/// A `TabularStage` as a mathematical value.
pub struct TabularStageView {
    pub rows: Seq<RowInput>,
    pub matching_rows: Seq<MatchingRow>,
    pub hydrated: Seq<HydratedRow>,
    pub pis: Seq<u8>,
    pub placeholders: Seq<u8>,
    pub indexing_proof: Seq<u8>,
    pub column_ids: Seq<u8>,
    pub limit: u32,
    pub offset: u32,
}

impl View for TabularStage {
    type V = TabularStageView;

    closed spec fn view(&self) -> TabularStageView {
        TabularStageView {
            rows: self.rows@,
            matching_rows: self.matching_rows@,
            hydrated: self.hydrated@,
            pis: self.pis@,
            placeholders: self.placeholders@,
            indexing_proof: self.indexing_proof@,
            column_ids: self.column_ids@,
            limit: self.limit,
            offset: self.offset,
        }
    }
}

impl TabularStageView {
    /// One descriptor for the row whose proof is awaited and one for each row
    /// that follows.
    pub open spec fn wf(self) -> bool {
        self.matching_rows.len() == self.rows.len() + 1
    }
}

impl TabularStage {
    #[verifier::type_invariant]
    spec fn inv(self) -> bool {
        self.matching_rows@.len() == self.rows@.len() + 1
    }
}

/// Which proof the engine was last asked for.
#[derive(Debug, PartialEq, Eq)]
pub enum Stage {
    /// The proof of the task itself.
    Final,
    /// The proof of one row of a tabular step.
    Rows(TabularStage),
}

/// A `Stage` as a mathematical value.
pub enum StageView {
    Final,
    Rows(TabularStageView),
}

impl View for Stage {
    type V = StageView;

    open spec fn view(&self) -> StageView {
        match self {
            Stage::Final => StageView::Final,
            Stage::Rows(tabular) => StageView::Rows(tabular@),
        }
    }
}

/// A task under way: the identifier of its request, and which proof the
/// engine was last asked for.
#[derive(Debug, PartialEq, Eq)]
pub struct Session {
    task_id: String,
    stage: Stage,
}

/// A `Session` as a mathematical value.
pub struct SessionView {
    pub task_id: Seq<char>,
    pub stage: StageView,
}

impl View for Session {
    type V = SessionView;

    closed spec fn view(&self) -> SessionView {
        SessionView { task_id: self.task_id@, stage: self.stage@ }
    }
}

impl SessionView {
    pub open spec fn wf(self) -> bool {
        match self.stage {
            StageView::Final => true,
            StageView::Rows(tabular) => tabular.wf(),
        }
    }
}

/// What a capability answers: the reply, or the next call of the engine with
/// the session to resume.
#[derive(Debug, PartialEq, Eq)]
pub enum Progress {
    Done(MessageReplyEnvelope),
    Call(EngineCall, Session),
}

/// A `Progress` as a mathematical value.
pub enum ProgressView {
    Done(ReplyView),
    Call(EngineCallView, SessionView),
}

impl View for Progress {
    type V = ProgressView;

    open spec fn view(&self) -> ProgressView {
        match self {
            Progress::Done(reply) => ProgressView::Done(reply@),
            Progress::Call(call, session) => ProgressView::Call(call@, session@),
        }
    }
}

/// Whether what a capability answered belongs to the request `task_id`: a
/// reply carries that identifier and a proof, a session carries that
/// identifier.
pub open spec fn correlated(progress: ProgressView, task_id: Seq<char>) -> bool {
    match progress {
        ProgressView::Done(reply) => reply.task_id == task_id && reply.outcome is Proof,
        ProgressView::Call(_, session) => session.task_id == task_id && session.wf(),
    }
}

/// The view of a result of `run` or `resume`.
pub open spec fn result_view(r: Result<Progress, ProverError>) -> Result<
    ProgressView,
    ProverError,
> {
    match r {
        Ok(progress) => Ok(progress@),
        Err(error) => Err(error),
    }
}

/// The reply that ends a task well.
pub open spec fn proved(task_id: Seq<char>, proof: Seq<u8>) -> ProgressView {
    ProgressView::Done(ReplyView { task_id, outcome: OutcomeView::Proof(proof) })
}

/// What `resume` gives for a well-formed session and an answer of the engine.
///
/// A failure of the engine fails the task. The proof of the task itself ends
/// the task. The proof of a row is attached to the first descriptor still
/// without one; then the next row is proved, or, after the last row, the
/// revelation over all rows in their order.
pub open spec fn spec_resume(session: SessionView, answer: Result<Vec<u8>, String>) -> Result<
    ProgressView,
    ProverError,
> {
    match answer {
        Err(message) => Err(ProverError::Engine(message)),
        Ok(proof) => match session.stage {
            StageView::Final => Ok(proved(session.task_id, proof@)),
            StageView::Rows(tabular) => {
                let hydrated = tabular.hydrated.push(
                    HydratedRow { descriptor: tabular.matching_rows[0].descriptor, proof },
                );
                if tabular.rows.len() == 0 {
                    Ok(
                        ProgressView::Call(
                            EngineCallView::Revelation {
                                pis: tabular.pis,
                                placeholders: tabular.placeholders,
                                indexing_proof: tabular.indexing_proof,
                                matching_rows: hydrated,
                                column_ids: tabular.column_ids,
                                limit: tabular.limit,
                                offset: tabular.offset,
                            },
                            SessionView { task_id: session.task_id, stage: StageView::Final },
                        ),
                    )
                } else {
                    Ok(
                        ProgressView::Call(
                            EngineCallView::UniversalCircuit {
                                row: tabular.rows[0],
                                pis: tabular.pis,
                            },
                            SessionView {
                                task_id: session.task_id,
                                stage: StageView::Rows(
                                    TabularStageView {
                                        rows: tabular.rows.remove(0),
                                        matching_rows: tabular.matching_rows.remove(0),
                                        hydrated,
                                        ..tabular
                                    },
                                ),
                            },
                        ),
                    )
                }
            },
        },
    }
}

/// Where a task stands after the engine has answered `answers`, one by one,
/// to the calls handed out from `progress` on. A failure of the engine ends
/// the task; answers that come after the reply are left unread.
pub open spec fn drive(progress: ProgressView, answers: Seq<Result<Vec<u8>, String>>) -> Result<
    ProgressView,
    ProverError,
>
    decreases answers.len(),
{
    if answers.len() == 0 {
        Ok(progress)
    } else {
        match progress {
            ProgressView::Done(_) => Ok(progress),
            ProgressView::Call(_, session) => match spec_resume(session, answers[0]) {
                Err(error) => Err(error),
                Ok(next) => drive(next, answers.drop_first()),
            },
        }
    }
}

/// Whatever the engine answers, a task keeps the identifier of its request:
/// every session on the way carries it, and so does the reply.
pub proof fn lemma_reply_correlates(
    progress: ProgressView,
    task_id: Seq<char>,
    answers: Seq<Result<Vec<u8>, String>>,
)
    requires
        correlated(progress, task_id),
    ensures
        drive(progress, answers) matches Ok(end) ==> correlated(end, task_id),
    decreases answers.len(),
{
    if answers.len() > 0 {
        if let ProgressView::Call(_, session) = progress {
            if let Ok(next) = spec_resume(session, answers[0]) {
                assert(correlated(next, task_id));
                lemma_reply_correlates(next, task_id, answers.drop_first());
            }
        }
    }
}

/// One more answer of the engine takes a task one step further.
pub proof fn lemma_drive_push(
    start: ProgressView,
    answers: Seq<Result<Vec<u8>, String>>,
    answer: Result<Vec<u8>, String>,
)
    requires
        drive(start, answers) matches Ok(ProgressView::Call(_, _)),
    ensures
        drive(start, answers) matches Ok(ProgressView::Call(_, session)) && drive(
            start,
            answers.push(answer),
        ) == spec_resume(session, answer),
    decreases answers.len(),
{
    let more = answers.push(answer);
    reveal_with_fuel(drive, 2);
    if answers.len() == 0 {
        assert(more.drop_first() =~= Seq::<Result<Vec<u8>, String>>::empty());
    } else {
        match start {
            ProgressView::Done(_) => {},
            ProgressView::Call(_, first) => {
                match spec_resume(first, answers[0]) {
                    Err(_) => {},
                    Ok(next) => {
                        lemma_drive_push(next, answers.drop_first(), answer);
                        assert(more.drop_first() =~= answers.drop_first().push(answer));
                        assert(more[0] == answers[0]);
                    },
                }
            },
        }
    }
}

/// The most calls of the engine that a task still needs: none once the reply
/// is there, one for the proof of the task itself, and for a tabular step
/// one for each row still to prove and one for the revelation.
pub open spec fn calls_left(progress: ProgressView) -> nat {
    match progress {
        ProgressView::Done(_) => 0,
        ProgressView::Call(_, session) => match session.stage {
            StageView::Final => 1,
            StageView::Rows(tabular) => tabular.rows.len() + 2,
        },
    }
}

/// Every answer of the engine brings a task nearer to its end.
pub proof fn lemma_resume_nears_end(session: SessionView, answer: Result<Vec<u8>, String>)
    ensures
        spec_resume(session, answer) matches Ok(next) ==> calls_left(next) < calls_left(
            ProgressView::Call(arbitrary(), session),
        ),
{
}

impl Session {
    /// The session that awaits the proof of the task itself.
    pub(crate) fn last(task_id: String) -> (r: Self)
        ensures
            r@ == (SessionView { task_id: task_id@, stage: StageView::Final }),
    {
        Session { task_id, stage: Stage::Final }
    }

    /// The session that awaits the proof of the first row of a tabular step.
    /// `rows` are the row inputs after the first, `matching_rows` the
    /// descriptors of all rows.
    pub(crate) fn tabular(
        task_id: String,
        rows: Vec<RowInput>,
        matching_rows: Vec<MatchingRow>,
        pis: Vec<u8>,
        placeholders: Vec<u8>,
        indexing_proof: Vec<u8>,
        column_ids: Vec<u8>,
        limit: u32,
        offset: u32,
    ) -> (r: Self)
        requires
            matching_rows@.len() == rows@.len() + 1,
        ensures
            r@ == (SessionView {
                task_id: task_id@,
                stage: StageView::Rows(
                    TabularStageView {
                        rows: rows@,
                        matching_rows: matching_rows@,
                        hydrated: Seq::empty(),
                        pis: pis@,
                        placeholders: placeholders@,
                        indexing_proof: indexing_proof@,
                        column_ids: column_ids@,
                        limit,
                        offset,
                    },
                ),
            }),
    {
        Session {
            task_id,
            stage: Stage::Rows(
                TabularStage {
                    rows,
                    matching_rows,
                    hydrated: Vec::new(),
                    pis,
                    placeholders,
                    indexing_proof,
                    column_ids,
                    limit,
                    offset,
                },
            ),
        }
    }

    /// The identifier of the request that the session belongs to.
    pub fn task_id(&self) -> (r: &str)
        ensures
            r@ == self@.task_id,
    {
        self.task_id.as_str()
    }

    /// The query plan that the rows of a tabular step are proved under.
    pub fn pis(&self) -> (r: Option<&Vec<u8>>)
        ensures
            match self@.stage {
                StageView::Final => r is None,
                StageView::Rows(tabular) => r matches Some(pis) && pis@ == tabular.pis,
            },
    {
        match &self.stage {
            Stage::Final => None,
            Stage::Rows(tabular) => Some(&tabular.pis),
        }
    }

    /// Takes up the session with the answer of the engine to the call that
    /// was handed out with it.
    pub fn resume(self, answer: Result<Vec<u8>, String>) -> (r: Result<Progress, ProverError>)
        ensures
            self@.wf(),
            result_view(r) == spec_resume(self@, answer),
            r matches Ok(progress) ==> correlated(progress@, self@.task_id),
    {
        let Session { task_id, stage } = self;
        let proof = match answer {
            Err(message) => {
                proof {
                    if let Stage::Rows(tabular) = stage {
                        use_type_invariant(&tabular);
                    }
                }
                return Err(ProverError::Engine(message));
            },
            Ok(proof) => proof,
        };
        match stage {
            Stage::Final => Ok(Progress::Done(MessageReplyEnvelope::new(task_id, proof))),
            Stage::Rows(tabular) => {
                proof {
                    use_type_invariant(&tabular);
                }
                let TabularStage {
                    mut rows,
                    mut matching_rows,
                    mut hydrated,
                    pis,
                    placeholders,
                    indexing_proof,
                    column_ids,
                    limit,
                    offset,
                } = tabular;
                let descriptor = matching_rows.remove(0);
                hydrated.push(descriptor.hydrate(proof));
                if rows.len() == 0 {
                    Ok(
                        Progress::Call(
                            EngineCall::Revelation {
                                pis,
                                placeholders,
                                indexing_proof,
                                matching_rows: hydrated,
                                column_ids,
                                limit,
                                offset,
                            },
                            Session { task_id, stage: Stage::Final },
                        ),
                    )
                } else {
                    let row = rows.remove(0);
                    let call = EngineCall::UniversalCircuit { row, pis: pis.clone() };
                    Ok(
                        Progress::Call(
                            call,
                            Session {
                                task_id,
                                stage: Stage::Rows(
                                    TabularStage {
                                        rows,
                                        matching_rows,
                                        hydrated,
                                        pis,
                                        placeholders,
                                        indexing_proof,
                                        column_ids,
                                        limit,
                                        offset,
                                    },
                                ),
                            },
                        ),
                    )
                }
            },
        }
    }
}

} // verus!
