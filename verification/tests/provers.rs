use alloy_primitives::Address;
use lgn_worker::params::{ChecksumManifest, ParamsError};
use lgn_worker::provers::dummy::{
    dummy_proof, Groth16DummyProver, PreprocessingDummyProver, QueryDummyProver, PROOF_SIZE,
};
use lgn_worker::provers::groth16::{Groth16Capability, Groth16Prover};
use lgn_worker::provers::preprocessing::{check_task, EuclidProver, PreprocessingProver};
use lgn_worker::provers::query::{EuclidQueryProver, QueryProver};
use lgn_worker::provers::registry::{ProversManager, RegistryError};
use lgn_worker::provers::session::{EngineCall, Progress};
use lgn_worker::provers::{LgnProver, ProverError, ProverKind, Strategy};
use lgn_worker::types::groth16::WorkerTask;
use lgn_worker::types::node::{NodeError, NodeType};
use lgn_worker::types::preprocessing::{
    BatchedContract, BatchedLength, BlockExtractionInput, FinalExtraction, FinalExtractionType,
    MappingBranchInput, MappingLeafInput, Mpt, VariableBranchInput, WorkerTaskType,
};
use lgn_worker::types::query::{
    HydratedRow, MatchingRow, QueryInput, QueryStep, RevelationInput, RowInput,
};
use lgn_worker::types::{
    MessageEnvelope, MessageReplyEnvelope, ReplyOutcome, TaskFamily, TaskType,
};

fn manifest_for(file: &str, bytes: &[u8]) -> ChecksumManifest {
    let mut manifest = ChecksumManifest::new();
    manifest.insert(file.to_string(), *blake3::hash(bytes).as_bytes());
    manifest
}

fn euclid() -> EuclidProver {
    EuclidProver::init("pre.bin", vec![1, 2, 3], &manifest_for("pre.bin", &[1, 2, 3])).unwrap()
}

fn euclid_query() -> EuclidQueryProver {
    EuclidQueryProver::init("query.bin", vec![4, 5], &manifest_for("query.bin", &[4, 5])).unwrap()
}

fn groth16() -> Groth16Prover {
    Groth16Prover::init("groth.bin", vec![6], &manifest_for("groth.bin", &[6])).unwrap()
}

fn mpt_task() -> TaskType {
    TaskType::V1Preprocessing(lgn_worker::types::preprocessing::WorkerTaskType::MptNode(
        Mpt::new(1, 100, [0xabu8; 32], vec![1, 2, 3]),
    ))
}

fn circuit_task() -> TaskType {
    TaskType::V1Query(lgn_worker::types::query::WorkerTaskType::Query(QueryInput {
        query_step: QueryStep::QueryCircuitInput(vec![7, 7]),
        pis: vec![1],
    }))
}

fn groth16_task() -> TaskType {
    TaskType::V1Groth16(WorkerTask::new(vec![8, 8, 8]))
}

fn row(tag: u8) -> RowInput {
    RowInput::new(vec![tag], vec![tag, tag], tag % 2 == 0)
}

fn tabular_task(rows: Vec<RowInput>, matching_rows: Vec<MatchingRow>) -> TaskType {
    TaskType::V1Query(lgn_worker::types::query::WorkerTaskType::Query(QueryInput {
        query_step: QueryStep::Tabular(
            rows,
            RevelationInput::Tabular {
                placeholders: vec![10],
                indexing_proof: vec![11],
                matching_rows,
                column_ids: vec![12],
                limit: 5,
                offset: 2,
            },
        ),
        pis: vec![42],
    }))
}

fn routing_error(prover: ProverKind, family: TaskFamily, task_id: &str) -> ProverError {
    ProverError::UnsupportedTaskType { prover, family, task_id: task_id.to_string() }
}

#[test]
fn the_families_have_their_tags() {
    assert_eq!(mpt_task().family(), TaskFamily::Preprocessing);
    assert_eq!(circuit_task().family(), TaskFamily::Query);
    assert_eq!(groth16_task().family(), TaskFamily::Groth16);
    assert_eq!(TaskFamily::Preprocessing.name(), "V1Preprocessing");
    assert_eq!(TaskFamily::Query.name(), "V1Query");
    assert_eq!(TaskFamily::Groth16.name(), "V1Groth16");
}

#[test]
fn an_envelope_keeps_its_identifier_and_task() {
    let envelope = MessageEnvelope::new("T1".to_string(), groth16_task());
    assert_eq!(envelope.task_id(), "T1");
    assert_eq!(envelope.task(), &groth16_task());
    let reply = MessageReplyEnvelope::new("T1".to_string(), vec![1]);
    assert_eq!(reply.task_id(), "T1");
    assert_eq!(reply.outcome, ReplyOutcome::Proof(vec![1]));
    let failure = MessageReplyEnvelope::failure("T1".to_string(), "no".to_string());
    assert_eq!(failure.task_id, "T1");
    assert_eq!(failure.outcome, ReplyOutcome::Error("no".to_string()));
}

#[test]
fn a_dummy_proof_is_thirty_two_zero_bytes() {
    assert_eq!(PROOF_SIZE, 32);
    assert_eq!(dummy_proof(PROOF_SIZE), vec![0u8; 32]);
    assert_eq!(dummy_proof(0), Vec::<u8>::new());
    assert_eq!(dummy_proof(3), vec![0u8; 3]);
}

#[test]
fn a_dummy_prover_answers_its_own_family_at_once() {
    let expected = |task_id: &str| {
        Ok(Progress::Done(MessageReplyEnvelope::new(task_id.to_string(), vec![0u8; 32])))
    };
    assert_eq!(
        PreprocessingDummyProver.run(MessageEnvelope::new("a".to_string(), mpt_task())),
        expected("a")
    );
    assert_eq!(
        QueryDummyProver.run(MessageEnvelope::new("b".to_string(), circuit_task())),
        expected("b")
    );
    assert_eq!(
        Groth16DummyProver.run(MessageEnvelope::new("c".to_string(), groth16_task())),
        expected("c")
    );
}

#[test]
fn every_prover_refuses_the_families_it_is_not_built_for() {
    let tasks = [
        (TaskFamily::Preprocessing, mpt_task()),
        (TaskFamily::Query, circuit_task()),
        (TaskFamily::Groth16, groth16_task()),
    ];
    for (family, task) in tasks {
        let envelope = || MessageEnvelope::new("T9".to_string(), task.clone());
        if family != TaskFamily::Preprocessing {
            assert_eq!(
                PreprocessingDummyProver.run(envelope()),
                Err(routing_error(ProverKind::PreprocessingDummyProver, family, "T9"))
            );
            assert_eq!(
                euclid().run(envelope()),
                Err(routing_error(ProverKind::EuclidProver, family, "T9"))
            );
            assert_eq!(
                PreprocessingProver::Euclid(euclid()).run(envelope()),
                Err(routing_error(ProverKind::EuclidProver, family, "T9"))
            );
        }
        if family != TaskFamily::Query {
            assert_eq!(
                QueryDummyProver.run(envelope()),
                Err(routing_error(ProverKind::QueryDummyProver, family, "T9"))
            );
            assert_eq!(
                euclid_query().run(envelope()),
                Err(routing_error(ProverKind::EuclidQueryProver, family, "T9"))
            );
            assert_eq!(
                QueryProver::Dummy(QueryDummyProver).run(envelope()),
                Err(routing_error(ProverKind::QueryDummyProver, family, "T9"))
            );
        }
        if family != TaskFamily::Groth16 {
            assert_eq!(
                Groth16DummyProver.run(envelope()),
                Err(routing_error(ProverKind::Groth16DummyProver, family, "T9"))
            );
            assert_eq!(
                groth16().run(envelope()),
                Err(routing_error(ProverKind::Groth16Prover, family, "T9"))
            );
            assert_eq!(
                Groth16Capability::Real(groth16()).run(envelope()),
                Err(routing_error(ProverKind::Groth16Prover, family, "T9"))
            );
        }
    }
}

#[test]
fn a_routing_error_is_tagged_as_an_unsupported_task_type() {
    assert_eq!(
        routing_error(ProverKind::EuclidQueryProver, TaskFamily::Preprocessing, "T1").message(),
        "EuclidQueryProver: unsupported task type. task_type: V1Preprocessing task_id: T1"
    );
    assert_eq!(
        routing_error(ProverKind::Groth16DummyProver, TaskFamily::Query, "").message(),
        "Groth16DummyProver: unsupported task type. task_type: V1Query task_id: "
    );
    assert_eq!(ProverKind::PreprocessingDummyProver.name(), "PreprocessingDummyProver");
    assert_eq!(ProverKind::QueryDummyProver.name(), "QueryDummyProver");
    assert_eq!(ProverKind::EuclidProver.name(), "EuclidProver");
    assert_eq!(ProverKind::Groth16Prover.name(), "Groth16Prover");
}

#[test]
fn the_other_errors_have_their_words() {
    assert_eq!(
        ProverError::RowCountMismatch { row_inputs: 2, matching_rows: 13 }.message(),
        "row inputs and matching rows differ in number. row_inputs: 2 matching_rows: 13"
    );
    assert_eq!(ProverError::Unfilled.message(), "a proof that the task builds on is missing");
    assert_eq!(
        ProverError::Node(NodeError::ItemCount(3)).message(),
        "while classifying the nodes of the batch: node item count was 3, expected either 17 or 2"
    );
    assert_eq!(NodeError::Malformed.message(), "node is not one well-formed item");
    assert_eq!(NodeError::NotAList.message(), "node is a byte string, expected a list");
    assert_eq!(
        NodeError::PathPrefix.message(),
        "expected compact encoding beginning with 0, 1, 2 or 3"
    );
    assert_eq!(ProverError::Engine("out of memory".to_string()).message(), "out of memory");
}

#[test]
fn a_query_with_a_ready_circuit_input_is_one_call() {
    let progress =
        euclid_query().run(MessageEnvelope::new("q1".to_string(), circuit_task())).unwrap();
    let Progress::Call(call, session) = progress else { panic!("a call is due") };
    assert_eq!(call, EngineCall::QueryCircuit { circuit_input: vec![7, 7], pis: vec![1] });
    assert_eq!(session.task_id(), "q1");
    assert_eq!(session.pis(), None);
    assert_eq!(
        session.resume(Ok(vec![9, 9, 9])),
        Ok(Progress::Done(MessageReplyEnvelope::new("q1".to_string(), vec![9, 9, 9])))
    );
}

#[test]
fn a_tabular_step_with_unequal_counts_fails_before_any_call() {
    let task = tabular_task(vec![row(1), row(2)], vec![MatchingRow::new(vec![1])]);
    assert_eq!(
        euclid_query().run(MessageEnvelope::new("q2".to_string(), task)),
        Err(ProverError::RowCountMismatch { row_inputs: 2, matching_rows: 1 })
    );
    let task = tabular_task(vec![], vec![MatchingRow::new(vec![1])]);
    assert_eq!(
        euclid_query().run(MessageEnvelope::new("q2".to_string(), task)),
        Err(ProverError::RowCountMismatch { row_inputs: 0, matching_rows: 1 })
    );
    let task = tabular_task(vec![row(1)], vec![]);
    let lgn_worker::types::TaskType::V1Query(inner) = task else { panic!("a query") };
    assert_eq!(
        euclid_query().run_inner("q2".to_string(), inner),
        Err(ProverError::RowCountMismatch { row_inputs: 1, matching_rows: 0 })
    );
}

fn hydrated_rows(rows: Vec<RowInput>, descriptors: Vec<Vec<u8>>) -> Vec<HydratedRow> {
    let matching_rows = descriptors.iter().map(|d| MatchingRow::new(d.clone())).collect();
    let task = tabular_task(rows.clone(), matching_rows);
    let mut progress =
        euclid_query().run(MessageEnvelope::new("q3".to_string(), task)).unwrap();
    for expected in rows {
        let Progress::Call(call, session) = progress else { panic!("a call is due") };
        assert_eq!(
            call,
            EngineCall::UniversalCircuit { row: expected.clone(), pis: vec![42] }
        );
        assert_eq!(session.task_id(), "q3");
        assert_eq!(session.pis(), Some(&vec![42u8]));
        // the proof of a row: its cells, marked
        let mut proof = expected.column_cells.clone();
        proof.push(0xff);
        progress = session.resume(Ok(proof)).unwrap();
    }
    let Progress::Call(call, session) = progress else { panic!("a call is due") };
    let EngineCall::Revelation {
        pis,
        placeholders,
        indexing_proof,
        matching_rows,
        column_ids,
        limit,
        offset,
    } = call
    else {
        panic!("the revelation is due")
    };
    assert_eq!(pis, vec![42]);
    assert_eq!(placeholders, vec![10]);
    assert_eq!(indexing_proof, vec![11]);
    assert_eq!(column_ids, vec![12]);
    assert_eq!((limit, offset), (5, 2));
    assert_eq!(
        session.resume(Ok(vec![1, 1])),
        Ok(Progress::Done(MessageReplyEnvelope::new("q3".to_string(), vec![1, 1])))
    );
    matching_rows
}

#[test]
fn rows_are_hydrated_pairwise_in_the_given_order() {
    assert_eq!(
        hydrated_rows(vec![row(1), row(2)], vec![vec![0xa0], vec![0xb0]]),
        vec![
            HydratedRow { descriptor: vec![0xa0], proof: vec![1, 0xff] },
            HydratedRow { descriptor: vec![0xb0], proof: vec![2, 0xff] },
        ]
    );
}

#[test]
fn reordering_the_inputs_reorders_the_hydrated_rows_alike() {
    assert_eq!(
        hydrated_rows(vec![row(2), row(1)], vec![vec![0xb0], vec![0xa0]]),
        vec![
            HydratedRow { descriptor: vec![0xb0], proof: vec![2, 0xff] },
            HydratedRow { descriptor: vec![0xa0], proof: vec![1, 0xff] },
        ]
    );
    // nothing is matched by key or sorted: rows given alike are hydrated by position
    assert_eq!(
        hydrated_rows(vec![row(3), row(3), row(1)], vec![vec![9], vec![1], vec![5]]),
        vec![
            HydratedRow { descriptor: vec![9], proof: vec![3, 0xff] },
            HydratedRow { descriptor: vec![1], proof: vec![3, 0xff] },
            HydratedRow { descriptor: vec![5], proof: vec![1, 0xff] },
        ]
    );
}

#[test]
fn a_tabular_step_without_rows_goes_straight_to_the_revelation() {
    assert_eq!(hydrated_rows(vec![], vec![]), vec![]);
}

#[test]
fn a_failure_of_the_engine_fails_the_task() {
    let task = tabular_task(
        vec![row(1), row(2)],
        vec![MatchingRow::new(vec![1]), MatchingRow::new(vec![2])],
    );
    let progress = euclid_query().run(MessageEnvelope::new("q4".to_string(), task)).unwrap();
    let Progress::Call(_, session) = progress else { panic!("a call is due") };
    let Progress::Call(_, session) = session.resume(Ok(vec![1])).unwrap() else {
        panic!("a call is due")
    };
    assert_eq!(
        session.resume(Err("circuit unsatisfied".to_string())),
        Err(ProverError::Engine("circuit unsatisfied".to_string()))
    );
}

#[test]
fn hydration_attaches_the_proof_to_the_descriptor() {
    assert_eq!(
        MatchingRow::new(vec![1, 2]).hydrate(vec![3]),
        HydratedRow { descriptor: vec![1, 2], proof: vec![3] }
    );
}

fn preprocessing_envelope(
    task: lgn_worker::types::preprocessing::WorkerTaskType,
) -> MessageEnvelope {
    MessageEnvelope::new("p1".to_string(), TaskType::V1Preprocessing(task))
}

#[test]
fn a_preprocessing_task_is_one_call_with_the_task_unchanged() {
    let tasks = vec![
        WorkerTaskType::MptNode(Mpt::new(1, 100, [1u8; 32], vec![5])),
        WorkerTaskType::MappingLeaf(MappingLeafInput::new(vec![1], vec![2], 3, 4, 5)),
        WorkerTaskType::Block(BlockExtractionInput::new(vec![6])),
    ];
    for task in tasks {
        let progress = euclid().run(preprocessing_envelope(task.clone())).unwrap();
        let Progress::Call(call, session) = progress else { panic!("a call is due") };
        assert_eq!(call, EngineCall::Preprocessing { task, node_types: vec![] });
        assert_eq!(session.task_id(), "p1");
        assert_eq!(
            session.resume(Ok(vec![7])),
            Ok(Progress::Done(MessageReplyEnvelope::new("p1".to_string(), vec![7])))
        );
    }
}

#[test]
fn a_batch_is_proved_with_the_types_of_its_nodes() {
    let leaf = vec![0xc4u8, 0x82, 0x20, 0x01, 0x01];
    let extension = vec![0xc4u8, 0x82, 0x00, 0x01, 0x01];
    let length = WorkerTaskType::Length(BatchedLength {
        table_hash: 1,
        block_nr: 2,
        length_slot: 3,
        variable_slot: 4,
        nodes: vec![extension.clone(), leaf.clone()],
    });
    assert_eq!(check_task(&length), Ok(vec![NodeType::Extension, NodeType::Leaf]));
    assert_eq!(
        euclid().run(preprocessing_envelope(length.clone())).unwrap(),
        PreprocessingProver::Euclid(euclid())
            .run(preprocessing_envelope(length.clone()))
            .unwrap()
    );
    let Progress::Call(call, _) = euclid().run(preprocessing_envelope(length.clone())).unwrap()
    else {
        panic!("a call is due")
    };
    assert_eq!(
        call,
        EngineCall::Preprocessing {
            task: length,
            node_types: vec![NodeType::Extension, NodeType::Leaf]
        }
    );
    let contract = WorkerTaskType::Contract(BatchedContract {
        block_nr: 2,
        storage_root: vec![1],
        contract: Address::ZERO,
        nodes: vec![leaf, vec![0x01]],
    });
    assert_eq!(
        euclid().run(preprocessing_envelope(contract)),
        Err(ProverError::Node(NodeError::NotAList))
    );
}

#[test]
fn a_task_with_missing_proofs_is_not_proved() {
    let children = vec![(1u64, [1u8; 32])];
    let unfilled = vec![
        WorkerTaskType::MappingBranch(MappingBranchInput::new(vec![1], children.clone())),
        WorkerTaskType::VariableBranch(VariableBranchInput::new(1, vec![1], children.clone())),
        WorkerTaskType::Final(FinalExtraction::new_single_table(
            1,
            2,
            3,
            Address::ZERO,
            FinalExtractionType::Simple,
            (4, [5u8; 32]),
        )),
        WorkerTaskType::Final(FinalExtraction::new_merge_table(
            1,
            2,
            3,
            4,
            Address::ZERO,
            (5, [6u8; 32]),
        )),
    ];
    for task in unfilled {
        assert_eq!(check_task(&task), Err(ProverError::Unfilled));
        assert_eq!(euclid().run(preprocessing_envelope(task)), Err(ProverError::Unfilled));
    }
    let mut branch = MappingBranchInput::new(vec![1], children);
    branch.children_proofs.push(vec![7]);
    let task = WorkerTaskType::MappingBranch(branch);
    assert_eq!(check_task(&task), Ok(vec![]));
    assert!(euclid().run(preprocessing_envelope(task)).is_ok());
}

#[test]
fn a_groth16_task_is_one_call() {
    let progress = groth16().run(MessageEnvelope::new("g1".to_string(), groth16_task())).unwrap();
    let Progress::Call(call, session) = progress else { panic!("a call is due") };
    assert_eq!(call, EngineCall::Groth16 { revelation_proof: vec![8, 8, 8] });
    assert_eq!(session.task_id(), "g1");
}

#[test]
fn a_real_prover_is_built_over_verified_parameters_only() {
    let prover = euclid_query();
    assert_eq!(prover.params().file(), "query.bin");
    assert_eq!(prover.params().bytes(), &vec![4u8, 5]);
    assert_eq!(EuclidQueryProver::new(prover.params().clone()), prover);
    assert_eq!(EuclidProver::new(euclid().params().clone()), euclid());
    assert_eq!(Groth16Prover::new(groth16().params().clone()), groth16());
    let manifest = manifest_for("query.bin", &[4, 5]);
    assert_eq!(
        EuclidQueryProver::init("query.bin", vec![4, 6], &manifest),
        Err(ParamsError::Mismatch {
            expected: *blake3::hash(&[4, 5]).as_bytes(),
            found: *blake3::hash(&[4, 6]).as_bytes(),
        })
    );
    assert_eq!(
        EuclidProver::init("other.bin", vec![4, 5], &manifest),
        Err(ParamsError::NotListed)
    );
    assert!(Groth16Prover::init("query.bin", vec![4, 5], &manifest).is_ok());
}

#[test]
fn create_prover_follows_the_strategy() {
    let empty = ChecksumManifest::new();
    assert_eq!(
        lgn_worker::provers::preprocessing::create_prover(Strategy::Dummy, "x", vec![], &empty),
        Ok(PreprocessingProver::Dummy(PreprocessingDummyProver))
    );
    assert_eq!(
        lgn_worker::provers::query::create_prover(Strategy::Dummy, "x", vec![], &empty),
        Ok(QueryProver::Dummy(QueryDummyProver))
    );
    assert_eq!(
        lgn_worker::provers::groth16::create_prover(Strategy::Dummy, "x", vec![], &empty),
        Ok(Groth16Capability::Dummy(Groth16DummyProver))
    );
    assert_eq!(
        lgn_worker::provers::preprocessing::create_prover(Strategy::Real, "x", vec![], &empty),
        Err(ParamsError::NotListed)
    );
    let manifest = manifest_for("pre.bin", &[1, 2, 3]);
    assert_eq!(
        lgn_worker::provers::preprocessing::create_prover(
            Strategy::Real,
            "pre.bin",
            vec![1, 2, 3],
            &manifest
        ),
        Ok(PreprocessingProver::Euclid(euclid()))
    );
    assert_eq!(
        lgn_worker::provers::query::create_prover(
            Strategy::Real,
            "pre.bin",
            vec![1, 2, 4],
            &manifest
        ),
        Err(ParamsError::Mismatch {
            expected: *blake3::hash(&[1, 2, 3]).as_bytes(),
            found: *blake3::hash(&[1, 2, 4]).as_bytes(),
        })
    );
    assert!(lgn_worker::provers::groth16::create_prover(
        Strategy::Real,
        "pre.bin",
        vec![1, 2, 3],
        &manifest
    )
    .is_ok());
}

fn dummy_manager() -> ProversManager {
    ProversManager::new(
        Some(PreprocessingProver::Dummy(PreprocessingDummyProver)),
        Some(QueryProver::Dummy(QueryDummyProver)),
        Some(Groth16Capability::Dummy(Groth16DummyProver)),
    )
    .unwrap()
}

#[test]
fn a_registry_needs_a_prover_for_every_family() {
    let p = || Some(PreprocessingProver::Dummy(PreprocessingDummyProver));
    let q = || Some(QueryProver::Dummy(QueryDummyProver));
    let g = || Some(Groth16Capability::Dummy(Groth16DummyProver));
    assert_eq!(
        ProversManager::new(None, q(), g()),
        Err(RegistryError::MissingProver(TaskFamily::Preprocessing))
    );
    assert_eq!(
        ProversManager::new(p(), None, g()),
        Err(RegistryError::MissingProver(TaskFamily::Query))
    );
    assert_eq!(
        ProversManager::new(p(), q(), None),
        Err(RegistryError::MissingProver(TaskFamily::Groth16))
    );
    assert_eq!(
        ProversManager::new(None, None, None),
        Err(RegistryError::MissingProver(TaskFamily::Preprocessing))
    );
    assert_eq!(
        ProversManager::new(p(), None, None),
        Err(RegistryError::MissingProver(TaskFamily::Query))
    );
    let manager = dummy_manager();
    assert_eq!(manager.preprocessing(), &p().unwrap());
    assert_eq!(manager.query(), &q().unwrap());
    assert_eq!(manager.groth16(), &g().unwrap());
}

#[test]
fn an_mpt_node_task_under_the_dummy_strategy_gets_thirty_two_bytes() {
    let envelope = MessageEnvelope::new("T1".to_string(), mpt_task());
    let Ok(Progress::Done(reply)) = dummy_manager().delegate_proving(envelope) else {
        panic!("the reply is due")
    };
    assert_eq!(reply.task_id, "T1");
    let ReplyOutcome::Proof(proof) = reply.outcome else { panic!("a proof is due") };
    assert_eq!(proof.len(), 32);
}

#[test]
fn the_registry_routes_by_family_and_keeps_the_identifier() {
    let manager = ProversManager::new(
        Some(PreprocessingProver::Euclid(euclid())),
        Some(QueryProver::Euclid(euclid_query())),
        Some(Groth16Capability::Real(groth16())),
    )
    .unwrap();
    for (task, id) in [(mpt_task(), "a"), (circuit_task(), "b"), (groth16_task(), "c")] {
        let family = task.family();
        let progress =
            manager.delegate_proving(MessageEnvelope::new(id.to_string(), task)).unwrap();
        let Progress::Call(call, session) = progress else { panic!("a call is due") };
        assert_eq!(session.task_id(), id);
        let routed = match call {
            EngineCall::Preprocessing { .. } => TaskFamily::Preprocessing,
            EngineCall::Groth16 { .. } => TaskFamily::Groth16,
            _ => TaskFamily::Query,
        };
        assert_eq!(routed, family);
    }
}
