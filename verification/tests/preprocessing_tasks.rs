use alloy_primitives::Address;
use lgn_worker::types::node::{NodeError, NodeType};
use lgn_worker::types::preprocessing::{
    BatchedContract, BatchedLength, BlockExtractionInput, FinalExtraction, FinalExtractionType,
    MappingBranchInput, MappingLeafInput, MergeTableExtraction, Mpt, SingleTableExtraction,
    VariableBranchInput,
};

fn leaf() -> Vec<u8> {
    vec![0xc4, 0x82, 0x20, 0x01, 0x01]
}

fn extension() -> Vec<u8> {
    vec![0xc4, 0x82, 0x00, 0x01, 0x01]
}

fn branch() -> Vec<u8> {
    let mut node = vec![0xd1u8];
    node.extend(std::iter::repeat(0x80u8).take(17));
    node
}

#[test]
fn mpt_new_keeps_every_field() {
    let task = Mpt::new(7, 100, [9u8; 32], vec![1, 2, 3]);
    assert_eq!(task.table_hash, 7);
    assert_eq!(task.block_nr, 100);
    assert_eq!(task.node_hash, [9u8; 32]);
    assert_eq!(task.circuit_input, vec![1, 2, 3]);
    assert_eq!(task.version(), (100, [9u8; 32]));
}

#[test]
fn one_node_hash_may_stand_under_several_blocks() {
    let earlier = Mpt::new(7, 100, [9u8; 32], vec![]);
    let later = Mpt::new(7, 105, [9u8; 32], vec![]);
    assert_eq!(earlier.version().1, later.version().1);
    assert_ne!(earlier.version(), later.version());
}

#[test]
fn mapping_leaf_new_keeps_every_field() {
    let task = MappingLeafInput::new(vec![1], vec![2, 3], 4, 5, 6);
    assert_eq!(
        task,
        MappingLeafInput { key: vec![1], node: vec![2, 3], slot: 4, key_id: 5, value_id: 6 }
    );
}

#[test]
fn branch_inputs_start_without_proofs() {
    let children = vec![(1u64, [1u8; 32]), (2u64, [2u8; 32])];
    let mapping = MappingBranchInput::new(vec![7], children.clone());
    assert_eq!(mapping.node, vec![7]);
    assert_eq!(mapping.children, children);
    assert!(mapping.children_proofs.is_empty());
    assert!(!mapping.is_filled());

    let variable = VariableBranchInput::new(3, vec![8], children.clone());
    assert_eq!(variable.table_id, 3);
    assert_eq!(variable.node, vec![8]);
    assert_eq!(variable.children, children);
    assert!(variable.children_proofs.is_empty());
    assert!(!variable.is_filled());
}

#[test]
fn a_branch_is_filled_by_one_proof_for_each_child() {
    let children = vec![(1u64, [1u8; 32]), (2u64, [2u8; 32])];
    let mut branch = MappingBranchInput::new(vec![7], children);
    branch.children_proofs.push(vec![1]);
    assert!(!branch.is_filled());
    branch.children_proofs.push(vec![]);
    assert!(!branch.is_filled());
    branch.children_proofs[1] = vec![2];
    assert!(branch.is_filled());
    branch.children_proofs.push(vec![3]);
    assert!(!branch.is_filled());
}

#[test]
fn a_branch_without_children_is_filled() {
    assert!(MappingBranchInput::new(vec![7], vec![]).is_filled());
    assert!(VariableBranchInput::new(1, vec![7], vec![]).is_filled());
}

#[test]
fn block_extraction_new_keeps_the_header() {
    assert_eq!(BlockExtractionInput::new(vec![1, 2]).rlp_header, vec![1, 2]);
}

#[test]
fn a_batch_classifies_each_node_in_order() {
    let batch = BatchedLength {
        table_hash: 1,
        block_nr: 2,
        length_slot: 3,
        variable_slot: 4,
        nodes: vec![branch(), extension(), leaf()],
    };
    assert_eq!(
        batch.extraction_types(),
        Ok(vec![NodeType::Branch, NodeType::Extension, NodeType::Leaf])
    );
    let contract = BatchedContract {
        block_nr: 2,
        storage_root: vec![5],
        contract: Address::repeat_byte(0x11),
        nodes: vec![leaf(), branch()],
    };
    assert_eq!(contract.extraction_types(), Ok(vec![NodeType::Leaf, NodeType::Branch]));
}

#[test]
fn an_empty_batch_has_no_types() {
    let batch = BatchedLength {
        table_hash: 1,
        block_nr: 2,
        length_slot: 3,
        variable_slot: 4,
        nodes: vec![],
    };
    assert_eq!(batch.extraction_types(), Ok(vec![]));
}

#[test]
fn one_bad_node_fails_the_whole_batch_with_the_first_error() {
    let batch = BatchedLength {
        table_hash: 1,
        block_nr: 2,
        length_slot: 3,
        variable_slot: 4,
        nodes: vec![leaf(), vec![0x82, 0x20, 0x01], branch(), vec![0xc0]],
    };
    assert_eq!(batch.extraction_types(), Err(NodeError::NotAList));
    let contract = BatchedContract {
        block_nr: 2,
        storage_root: vec![],
        contract: Address::ZERO,
        nodes: vec![vec![0xc0], vec![]],
    };
    assert_eq!(contract.extraction_types(), Err(NodeError::ItemCount(0)));
}

#[test]
fn single_table_extraction_starts_without_proofs() {
    let contract = Address::repeat_byte(0x22);
    let single = SingleTableExtraction::new(
        1,
        2,
        3,
        contract,
        FinalExtractionType::Lengthed,
        (4, [5u8; 32]),
    );
    assert_eq!(single.table_id, 1);
    assert_eq!(single.table_hash, 2);
    assert_eq!(single.block_nr, 3);
    assert_eq!(single.contract, contract);
    assert_eq!(single.extraction_type, FinalExtractionType::Lengthed);
    assert_eq!(single.value_proof_version, (4, [5u8; 32]));
    assert!(single.block_proof.is_empty());
    assert!(single.contract_proof.is_empty());
    assert!(single.value_proof.is_empty());
    assert!(single.length_proof.is_empty());
    assert!(!single.is_filled());
    assert_eq!(single.clone(), single);
}

#[test]
fn a_simple_table_needs_no_length_proof() {
    let mut single = SingleTableExtraction::new(
        1,
        2,
        3,
        Address::ZERO,
        FinalExtractionType::Simple,
        (4, [5u8; 32]),
    );
    single.block_proof = vec![1];
    single.contract_proof = vec![2];
    assert!(!single.is_filled());
    single.value_proof = vec![3];
    assert!(single.is_filled());
    single.extraction_type = FinalExtractionType::Lengthed;
    assert!(!single.is_filled());
    single.length_proof = vec![4];
    assert!(single.is_filled());
}

#[test]
fn merge_table_extraction_starts_without_proofs_and_has_one_version() {
    let contract = Address::repeat_byte(0x33);
    let mut merge = MergeTableExtraction::new(1, 2, 3, 4, contract, (5, [6u8; 32]));
    assert_eq!(merge.table_id, 1);
    assert_eq!(merge.simple_table_hash, 2);
    assert_eq!(merge.mapping_table_hash, 3);
    assert_eq!(merge.block_nr, 4);
    assert_eq!(merge.contract, contract);
    assert_eq!(merge.value_proof_version, (5, [6u8; 32]));
    assert!(merge.block_proof.is_empty());
    assert!(merge.contract_proof.is_empty());
    assert!(merge.simple_table_proof.is_empty());
    assert!(merge.mapping_table_proof.is_empty());
    assert!(!merge.is_filled());
    merge.block_proof = vec![1];
    merge.contract_proof = vec![1];
    merge.simple_table_proof = vec![1];
    assert!(!merge.is_filled());
    merge.mapping_table_proof = vec![1];
    assert!(merge.is_filled());
    assert_eq!(merge.clone(), merge);
}

#[test]
fn final_extraction_constructors_pick_the_variant() {
    let single = FinalExtraction::new_single_table(
        1,
        2,
        3,
        Address::ZERO,
        FinalExtractionType::Simple,
        (4, [5u8; 32]),
    );
    assert_eq!(
        single,
        FinalExtraction::Single(SingleTableExtraction::new(
            1,
            2,
            3,
            Address::ZERO,
            FinalExtractionType::Simple,
            (4, [5u8; 32]),
        ))
    );
    assert!(!single.is_filled());
    let merge = FinalExtraction::new_merge_table(1, 2, 3, 4, Address::ZERO, (5, [6u8; 32]));
    assert_eq!(
        merge,
        FinalExtraction::Merge(MergeTableExtraction::new(
            1,
            2,
            3,
            4,
            Address::ZERO,
            (5, [6u8; 32]),
        ))
    );
    assert!(!merge.is_filled());
}
