//! The real capability of the query family.
//!
//! A tabular step is proved row by row, in the order of its row inputs. The
//! proof of each row is attached to the matching-row descriptor at the same
//! position; the revelation is then proved over all hydrated rows. A step
//! with a ready circuit input is one call of the engine.

use super::dummy::QueryDummyProver;
use super::session::{
    correlated, drive, proved, result_view, spec_resume, EngineCall, EngineCallView, Progress,
    ProgressView, Session, SessionView, StageView, TabularStageView,
};
use super::{LgnProver, ProverError, ProverKind, Strategy};
use crate::params::{
    accepted_as, blake3_digest, verify_params, ChecksumManifest, ParamsError, VerifiedParams,
};
use crate::types::query::{
    HydratedRow, MatchingRow, QueryInput, QueryStep, RevelationInput, RowInput, WorkerTaskType,
};
use crate::types::{MessageEnvelope, TaskFamily, TaskType};
use vstd::prelude::*;

verus! {

/// Prover of the query family that hands the work to the proving engine.
#[derive(Debug, Clone, PartialEq, Eq)]
pub struct EuclidQueryProver {
    params: VerifiedParams,
}

/// The session that awaits the proof of the task itself.
pub open spec fn last_session(task_id: Seq<char>) -> SessionView {
    SessionView { task_id, stage: StageView::Final }
}

/// What `run_inner` gives for a query task.
///
/// A step with a ready circuit input is handed to the engine as it is. A
/// tabular step whose row inputs and matching rows differ in number fails
/// before the engine is called at all. A tabular step without rows goes
/// straight to the revelation. Any other tabular step starts with its first
/// row.
pub open spec fn spec_run_inner(task_id: Seq<char>, task_type: WorkerTaskType) -> Result<
    ProgressView,
    ProverError,
> {
    match task_type {
        WorkerTaskType::Query(input) => match input.query_step {
            QueryStep::QueryCircuitInput(circuit_input) => Ok(
                ProgressView::Call(
                    EngineCallView::QueryCircuit { circuit_input: circuit_input@, pis: input.pis@ },
                    last_session(task_id),
                ),
            ),
            QueryStep::Tabular(
                rows,
                RevelationInput::Tabular {
                    placeholders,
                    indexing_proof,
                    matching_rows,
                    column_ids,
                    limit,
                    offset,
                },
            ) => if rows@.len() != matching_rows@.len() {
                Err(
                    ProverError::RowCountMismatch {
                        row_inputs: rows@.len() as usize,
                        matching_rows: matching_rows@.len() as usize,
                    },
                )
            } else if rows@.len() == 0 {
                Ok(
                    ProgressView::Call(
                        EngineCallView::Revelation {
                            pis: input.pis@,
                            placeholders: placeholders@,
                            indexing_proof: indexing_proof@,
                            matching_rows: Seq::empty(),
                            column_ids: column_ids@,
                            limit,
                            offset,
                        },
                        last_session(task_id),
                    ),
                )
            } else {
                Ok(
                    ProgressView::Call(
                        EngineCallView::UniversalCircuit { row: rows@[0], pis: input.pis@ },
                        SessionView {
                            task_id,
                            stage: StageView::Rows(
                                TabularStageView {
                                    rows: rows@.remove(0),
                                    matching_rows: matching_rows@,
                                    hydrated: Seq::empty(),
                                    pis: input.pis@,
                                    placeholders: placeholders@,
                                    indexing_proof: indexing_proof@,
                                    column_ids: column_ids@,
                                    limit,
                                    offset,
                                },
                            ),
                        },
                    ),
                )
            },
        },
    }
}

/// What the query prover answers to a request.
pub open spec fn spec_query_run(envelope: MessageEnvelope) -> Result<ProgressView, ProverError> {
    match envelope.task {
        TaskType::V1Query(task_type) => spec_run_inner(envelope.task_id@, task_type),
        _ => Err(
            ProverError::UnsupportedTaskType {
                prover: ProverKind::EuclidQueryProver,
                family: envelope.task.family(),
                task_id: envelope.task_id,
            },
        ),
    }
}

impl EuclidQueryProver {
    /// The parameters that the prover was built over.
    pub closed spec fn spec_params(&self) -> VerifiedParams {
        self.params
    }

    pub fn new(params: VerifiedParams) -> (r: Self)
        ensures
            r.spec_params() == params,
    {
        Self { params }
    }

    /// Builds the prover over the bytes of its parameter file, which are
    /// accepted only if their BLAKE3 digest is the one that the manifest
    /// gives for the file.
    pub fn init(file: &str, bytes: Vec<u8>, checksums: &ChecksumManifest) -> (r: Result<
        Self,
        ParamsError,
    >)
        ensures
            match r {
                Ok(prover) => accepted_as(
                    Ok(prover.spec_params()),
                    checksums@,
                    file@,
                    blake3_digest(bytes@),
                    bytes@,
                ),
                Err(error) => accepted_as(
                    Err(error),
                    checksums@,
                    file@,
                    blake3_digest(bytes@),
                    bytes@,
                ),
            },
    {
        match verify_params(file, bytes, checksums) {
            Ok(params) => Ok(Self { params }),
            Err(error) => Err(error),
        }
    }

    pub fn params(&self) -> (r: &VerifiedParams)
        ensures
            *r == self.spec_params(),
    {
        &self.params
    }

    /// Takes up a query task for the request `task_id`.
    pub fn run_inner(&self, task_id: String, task_type: WorkerTaskType) -> (r: Result<
        Progress,
        ProverError,
    >)
        ensures
            result_view(r) == spec_run_inner(task_id@, task_type),
            r matches Ok(progress) ==> correlated(progress@, task_id@),
    {
        let WorkerTaskType::Query(input) = task_type;
        let QueryInput { query_step, pis } = input;
        match query_step {
            QueryStep::QueryCircuitInput(circuit_input) => Ok(
                Progress::Call(
                    EngineCall::QueryCircuit { circuit_input, pis },
                    Session::last(task_id),
                ),
            ),
            QueryStep::Tabular(rows, revelation_input) => {
                let RevelationInput::Tabular {
                    placeholders,
                    indexing_proof,
                    matching_rows,
                    column_ids,
                    limit,
                    offset,
                } = revelation_input;
                let mut rows = rows;
                if rows.len() != matching_rows.len() {
                    return Err(
                        ProverError::RowCountMismatch {
                            row_inputs: rows.len(),
                            matching_rows: matching_rows.len(),
                        },
                    );
                }
                if rows.len() == 0 {
                    return Ok(
                        Progress::Call(
                            EngineCall::Revelation {
                                pis,
                                placeholders,
                                indexing_proof,
                                matching_rows: Vec::new(),
                                column_ids,
                                limit,
                                offset,
                            },
                            Session::last(task_id),
                        ),
                    );
                }
                let row = rows.remove(0);
                let call = EngineCall::UniversalCircuit { row, pis: pis.clone() };
                let session = Session::tabular(
                    task_id,
                    rows,
                    matching_rows,
                    pis,
                    placeholders,
                    indexing_proof,
                    column_ids,
                    limit,
                    offset,
                );
                Ok(Progress::Call(call, session))
            },
        }
    }
}

impl LgnProver for EuclidQueryProver {
    open spec fn family(&self) -> TaskFamily {
        TaskFamily::Query
    }

    open spec fn kind(&self) -> ProverKind {
        ProverKind::EuclidQueryProver
    }

    open spec fn answer(&self, envelope: MessageEnvelope) -> Result<ProgressView, ProverError> {
        spec_query_run(envelope)
    }

    fn run(&self, envelope: MessageEnvelope) -> (r: Result<Progress, ProverError>) {
        let MessageEnvelope { task_id, task } = envelope;
        match task {
            TaskType::V1Preprocessing(_) => Err(
                ProverError::UnsupportedTaskType {
                    prover: ProverKind::EuclidQueryProver,
                    family: TaskFamily::Preprocessing,
                    task_id,
                },
            ),
            TaskType::V1Query(task_type) => self.run_inner(task_id, task_type),
            TaskType::V1Groth16(_) => Err(
                ProverError::UnsupportedTaskType {
                    prover: ProverKind::EuclidQueryProver,
                    family: TaskFamily::Groth16,
                    task_id,
                },
            ),
        }
    }
}

/// The capability of the query family, in the strategy it was built with.
#[derive(Debug, Clone, PartialEq, Eq)]
pub enum QueryProver {
    Dummy(QueryDummyProver),
    Euclid(EuclidQueryProver),
}

impl LgnProver for QueryProver {
    open spec fn family(&self) -> TaskFamily {
        TaskFamily::Query
    }

    open spec fn kind(&self) -> ProverKind {
        match self {
            QueryProver::Dummy(prover) => prover.kind(),
            QueryProver::Euclid(prover) => prover.kind(),
        }
    }

    open spec fn answer(&self, envelope: MessageEnvelope) -> Result<ProgressView, ProverError> {
        match self {
            QueryProver::Dummy(prover) => prover.answer(envelope),
            QueryProver::Euclid(prover) => prover.answer(envelope),
        }
    }

    fn run(&self, envelope: MessageEnvelope) -> (r: Result<Progress, ProverError>) {
        match self {
            QueryProver::Dummy(prover) => prover.run(envelope),
            QueryProver::Euclid(prover) => prover.run(envelope),
        }
    }
}

/// Builds the capability of the query family. The dummy strategy needs no
/// parameters and leaves `file`, `bytes` and `checksums` unread; the real
/// strategy accepts the bytes of its parameter file only under the digest
/// that the manifest gives.
pub fn create_prover(strategy: Strategy, file: &str, bytes: Vec<u8>, checksums: &ChecksumManifest)
    -> (r: Result<QueryProver, ParamsError>)
    ensures
        strategy == Strategy::Dummy ==> r == Ok::<QueryProver, ParamsError>(
            QueryProver::Dummy(QueryDummyProver),
        ),
        strategy == Strategy::Real ==> match r {
            Ok(QueryProver::Euclid(prover)) => accepted_as(
                Ok(prover.spec_params()),
                checksums@,
                file@,
                blake3_digest(bytes@),
                bytes@,
            ),
            Ok(QueryProver::Dummy(_)) => false,
            Err(error) => accepted_as(
                Err(error),
                checksums@,
                file@,
                blake3_digest(bytes@),
                bytes@,
            ),
        },
{
    match strategy {
        Strategy::Dummy => Ok(QueryProver::Dummy(QueryDummyProver)),
        Strategy::Real => match EuclidQueryProver::init(file, bytes, checksums) {
            Ok(prover) => Ok(QueryProver::Euclid(prover)),
            Err(error) => Err(error),
        },
    }
}

/// The rows of a tabular step after hydration: the descriptor at each
/// position with the proof at the same position.
pub open spec fn hydrate_all(matching_rows: Seq<MatchingRow>, proofs: Seq<Vec<u8>>) -> Seq<
    HydratedRow,
> {
    Seq::new(
        proofs.len(),
        |i: int| HydratedRow { descriptor: matching_rows[i].descriptor, proof: proofs[i] },
    )
}

/// The answers of an engine that proves every call: one proof each.
pub open spec fn all_proved(proofs: Seq<Vec<u8>>) -> Seq<Result<Vec<u8>, String>> {
    Seq::new(proofs.len(), |i: int| Ok::<Vec<u8>, String>(proofs[i]))
}

/// What every call of a tabular step is made under: the query plan and what
/// the revelation needs besides the rows.
pub struct TabularPlan {
    pub pis: Seq<u8>,
    pub placeholders: Seq<u8>,
    pub indexing_proof: Seq<u8>,
    pub column_ids: Seq<u8>,
    pub limit: u32,
    pub offset: u32,
}

/// The plan of a query task with a tabular step.
pub open spec fn plan_of(input: QueryInput) -> TabularPlan
    recommends
        input.query_step is Tabular,
{
    match input.query_step {
        QueryStep::Tabular(
            _,
            RevelationInput::Tabular {
                placeholders,
                indexing_proof,
                matching_rows,
                column_ids,
                limit,
                offset,
            },
        ) => TabularPlan {
            pis: input.pis@,
            placeholders: placeholders@,
            indexing_proof: indexing_proof@,
            column_ids: column_ids@,
            limit,
            offset,
        },
        QueryStep::QueryCircuitInput(_) => arbitrary(),
    }
}

/// Where a tabular step stands once its first rows are proved, with
/// `proofs`: at the call for the row after those while rows are left, then
/// at the revelation over all hydrated rows.
pub open spec fn tabular_progress(
    task_id: Seq<char>,
    rows: Seq<RowInput>,
    matching_rows: Seq<MatchingRow>,
    proofs: Seq<Vec<u8>>,
    plan: TabularPlan,
) -> ProgressView {
    let at = proofs.len() as int;
    if at < rows.len() {
        ProgressView::Call(
            EngineCallView::UniversalCircuit { row: rows[at], pis: plan.pis },
            SessionView {
                task_id,
                stage: StageView::Rows(
                    TabularStageView {
                        rows: rows.skip(at + 1),
                        matching_rows: matching_rows.skip(at),
                        hydrated: hydrate_all(matching_rows, proofs),
                        pis: plan.pis,
                        placeholders: plan.placeholders,
                        indexing_proof: plan.indexing_proof,
                        column_ids: plan.column_ids,
                        limit: plan.limit,
                        offset: plan.offset,
                    },
                ),
            },
        )
    } else {
        ProgressView::Call(
            EngineCallView::Revelation {
                pis: plan.pis,
                placeholders: plan.placeholders,
                indexing_proof: plan.indexing_proof,
                matching_rows: hydrate_all(matching_rows, proofs),
                column_ids: plan.column_ids,
                limit: plan.limit,
                offset: plan.offset,
            },
            last_session(task_id),
        )
    }
}

/// One more answer of the engine moves a tabular step from one row to the
/// next, or from the last row to the revelation.
proof fn lemma_tabular_step(
    task_id: Seq<char>,
    rows: Seq<RowInput>,
    matching_rows: Seq<MatchingRow>,
    proofs: Seq<Vec<u8>>,
    plan: TabularPlan,
    proof_of_row: Vec<u8>,
)
    requires
        rows.len() == matching_rows.len(),
        proofs.len() < rows.len(),
    ensures
        tabular_progress(task_id, rows, matching_rows, proofs, plan) matches ProgressView::Call(
            _,
            session,
        ) && spec_resume(session, Ok(proof_of_row)) == Ok::<ProgressView, ProverError>(
            tabular_progress(task_id, rows, matching_rows, proofs.push(proof_of_row), plan),
        ),
{
    let at = proofs.len() as int;
    let more = proofs.push(proof_of_row);
    let rest = rows.skip(at + 1);
    let descriptors = matching_rows.skip(at);
    assert(descriptors[0] == matching_rows[at]);
    assert(hydrate_all(matching_rows, proofs).push(
        HydratedRow { descriptor: matching_rows[at].descriptor, proof: proof_of_row },
    ) =~= hydrate_all(matching_rows, more));
    if at + 1 < rows.len() {
        assert(rest[0] == rows[at + 1]);
        assert(rest.remove(0) =~= rows.skip(at + 2));
        assert(descriptors.remove(0) =~= matching_rows.skip(at + 1));
    }
}

/// Rows are proved and hydrated in the order in which they were given.
///
/// Take a tabular step with as many row inputs as matching rows, and an
/// engine that answers the calls for the first rows with `proofs`, in that
/// order. Then the next call is for the row after those; and once every row
/// is proved, the revelation is asked for over the descriptors in their given
/// order, each with the proof of the row at its own position. Nothing is
/// matched by key and nothing is sorted, so giving the rows in another order
/// gives the hydrated rows in that other order.
pub proof fn lemma_rows_hydrate_in_order(
    task_id: Seq<char>,
    input: QueryInput,
    proofs: Seq<Vec<u8>>,
)
    requires
        input.query_step matches QueryStep::Tabular(
            rows,
            RevelationInput::Tabular { matching_rows, .. },
        ) && rows@.len() == matching_rows@.len() && proofs.len() <= rows@.len(),
    ensures
        input.query_step matches QueryStep::Tabular(
            rows,
            RevelationInput::Tabular { matching_rows, .. },
        ) && spec_run_inner(task_id, WorkerTaskType::Query(input)) matches Ok(start) && drive(
            start,
            all_proved(proofs),
        ) == Ok::<ProgressView, ProverError>(
            tabular_progress(task_id, rows@, matching_rows@, proofs, plan_of(input)),
        ),
{
    match input.query_step {
        QueryStep::Tabular(rows, RevelationInput::Tabular { matching_rows, .. }) => {
            let plan = plan_of(input);
            let none = Seq::<Vec<u8>>::empty();
            let start = spec_run_inner(task_id, WorkerTaskType::Query(input))->Ok_0;
            assert(hydrate_all(matching_rows@, none) =~= Seq::<HydratedRow>::empty());
            assert(rows@.len() > 0 ==> rows@.skip(1) =~= rows@.remove(0));
            assert(matching_rows@.skip(0) =~= matching_rows@);
            assert(start == tabular_progress(task_id, rows@, matching_rows@, none, plan));
            assert(none + proofs =~= proofs);
            lemma_tabular_drive(task_id, rows@, matching_rows@, none, proofs, plan);
        },
        _ => {},
    }
}

/// `lemma_rows_hydrate_in_order`, from any row on.
proof fn lemma_tabular_drive(
    task_id: Seq<char>,
    rows: Seq<RowInput>,
    matching_rows: Seq<MatchingRow>,
    done: Seq<Vec<u8>>,
    proofs: Seq<Vec<u8>>,
    plan: TabularPlan,
)
    requires
        rows.len() == matching_rows.len(),
        done.len() + proofs.len() <= rows.len(),
    ensures
        drive(
            tabular_progress(task_id, rows, matching_rows, done, plan),
            all_proved(proofs),
        ) == Ok::<ProgressView, ProverError>(
            tabular_progress(task_id, rows, matching_rows, done + proofs, plan),
        ),
    decreases proofs.len(),
{
    if proofs.len() == 0 {
        assert(done + proofs =~= done);
    } else {
        let first = proofs[0];
        lemma_tabular_step(task_id, rows, matching_rows, done, plan, first);
        assert(all_proved(proofs)[0] == Ok::<Vec<u8>, String>(first));
        assert(all_proved(proofs).drop_first() =~= all_proved(proofs.drop_first()));
        lemma_tabular_drive(
            task_id,
            rows,
            matching_rows,
            done.push(first),
            proofs.drop_first(),
            plan,
        );
        assert(done.push(first) + proofs.drop_first() =~= done + proofs);
    }
}

} // verus!
