//! Payloads of the preprocessing family: extraction of raw chain data into
//! intermediate facts that later proofs build on.
//!
//! A constructor fixes the fields that name the task and leaves every proof
//! accumulator empty. The accumulators are filled as the proofs that a task
//! builds on become available; a task is proved only once it is filled.

use super::node::{node_type, spec_node_type, NodeError, NodeType};
use alloy_primitives::Address;
use vstd::prelude::*;

verus! {

/// Number of a block.
pub type BlockNr = u64;

/// Hash that names a table.
pub type TableHash = u64;

/// Identifier of a table.
pub type TableId = u64;

/// Identifier of a column or of a value inside a table.
pub type Identifier = u64;

/// Content hash of a trie node.
pub type NodeHash = [u8; 32];

/// A node version: the block at which the node was last seen to change, and
/// its content hash. The hash of a node whose subtree did not change is the
/// same at every later block, so one hash may occur under several blocks.
pub type MptNodeVersion = (BlockNr, NodeHash);

/// `alloy_primitives::Address`, a 20-byte account address. It is carried
/// through unread.
#[verifier::external_type_specification]
#[verifier::external_body]
pub struct ExAddress(Address);

/// `Clone::clone` of `alloy_primitives::Address`: the address is `Copy` and
/// its `Clone` is derived, so the clone is the address itself.
pub assume_specification[ <Address as Clone>::clone ](a: &Address) -> (r: Address)
    ensures
        r == *a,
;

/// Whether every one of `proofs` holds at least one byte.
pub open spec fn all_filled(proofs: Seq<Vec<u8>>) -> bool {
    forall|i: int| 0 <= i < proofs.len() ==> (#[trigger] proofs[i])@.len() > 0
}

/// Computes `all_filled`.
pub fn check_all_filled(proofs: &Vec<Vec<u8>>) -> (r: bool)
    ensures
        r == all_filled(proofs@),
{
    let mut i: usize = 0;
    while i < proofs.len()
        invariant
            i <= proofs@.len(),
            forall|j: int| 0 <= j < i ==> (#[trigger] proofs@[j])@.len() > 0,
        decreases proofs@.len() - i,
    {
        if proofs[i].len() == 0 {
            return false;
        }
        i = i + 1;
    }
    true
}

/// The structural type of each node of a batch, in the order of the nodes.
/// One node that does not classify fails the whole batch, with the error of
/// the first such node.
pub open spec fn classify_all(nodes: Seq<Vec<u8>>) -> Result<Seq<NodeType>, NodeError>
    decreases nodes.len(),
{
    if nodes.len() == 0 {
        Ok(Seq::empty())
    } else {
        match classify_all(nodes.drop_last()) {
            Err(error) => Err(error),
            Ok(types) => match spec_node_type(nodes.last()@) {
                Ok(kind) => Ok(types.push(kind)),
                Err(error) => Err(error),
            },
        }
    }
}

/// Whether `types` holds the structural type of each of `nodes`.
pub open spec fn all_classified(nodes: Seq<Vec<u8>>, types: Seq<NodeType>) -> bool {
    &&& types.len() == nodes.len()
    &&& forall|i: int|
        0 <= i < nodes.len() ==> spec_node_type((#[trigger] nodes[i])@) == Ok::<
            NodeType,
            NodeError,
        >(types[i])
}

/// Whether `nodes[at]` is the first node that does not classify, and fails
/// with `error`.
pub open spec fn first_failure(nodes: Seq<Vec<u8>>, at: int, error: NodeError) -> bool {
    &&& 0 <= at < nodes.len()
    &&& spec_node_type(nodes[at]@) == Err::<NodeType, NodeError>(error)
    &&& forall|j: int| 0 <= j < at ==> spec_node_type((#[trigger] nodes[j])@) is Ok
}

/// A batch classifies to the types of all its nodes, or fails with the error
/// of its first node that does not classify: never to a part of the types.
pub proof fn lemma_classify_all(nodes: Seq<Vec<u8>>)
    ensures
        match classify_all(nodes) {
            Ok(types) => all_classified(nodes, types),
            Err(error) => exists|at: int| first_failure(nodes, at, error),
        },
    decreases nodes.len(),
{
    if nodes.len() > 0 {
        let front = nodes.drop_last();
        lemma_classify_all(front);
        match classify_all(front) {
            Err(error) => {
                let at = choose|at: int| first_failure(front, at, error);
                assert(first_failure(nodes, at, error)) by {
                    assert(forall|j: int| 0 <= j < at ==> front[j] == nodes[j]);
                    assert(front[at] == nodes[at]);
                }
            },
            Ok(types) => {
                assert(forall|j: int| 0 <= j < front.len() ==> front[j] == nodes[j]);
                match spec_node_type(nodes.last()@) {
                    Ok(kind) => {
                        assert(all_classified(nodes, types.push(kind)));
                    },
                    Err(error) => {
                        assert(first_failure(nodes, nodes.len() - 1, error));
                    },
                }
            },
        }
    }
}

/// Classifies each node of a batch.
pub fn classify_nodes(nodes: &Vec<Vec<u8>>) -> (r: Result<Vec<NodeType>, NodeError>)
    ensures
        match r {
            Ok(types) => classify_all(nodes@) == Ok::<Seq<NodeType>, NodeError>(types@),
            Err(error) => classify_all(nodes@) == Err::<Seq<NodeType>, NodeError>(error),
        },
{
    let mut types: Vec<NodeType> = Vec::new();
    let mut i: usize = 0;
    proof {
        assert(nodes@.take(0) =~= Seq::<Vec<u8>>::empty());
    }
    while i < nodes.len()
        invariant
            i <= nodes@.len(),
            classify_all(nodes@.take(i as int)) == Ok::<Seq<NodeType>, NodeError>(types@),
        decreases nodes@.len() - i,
    {
        proof {
            assert(nodes@.take(i + 1).drop_last() =~= nodes@.take(i as int));
        }
        match node_type(nodes[i].as_slice()) {
            Ok(kind) => {
                types.push(kind);
            },
            Err(error) => {
                proof {
                    lemma_classify_stays_failed(nodes@, i + 1);
                }
                return Err(error);
            },
        }
        i = i + 1;
    }
    proof {
        assert(nodes@.take(i as int) =~= nodes@);
    }
    Ok(types)
}

/// A batch whose first `k` nodes fail to classify fails with the same error.
proof fn lemma_classify_stays_failed(nodes: Seq<Vec<u8>>, k: int)
    requires
        0 <= k <= nodes.len(),
        classify_all(nodes.take(k)) is Err,
    ensures
        classify_all(nodes) == classify_all(nodes.take(k)),
    decreases nodes.len() - k,
{
    if k < nodes.len() {
        assert(nodes.take(k + 1).drop_last() =~= nodes.take(k));
        lemma_classify_stays_failed(nodes, k + 1);
    } else {
        assert(nodes.take(k) =~= nodes);
    }
}

/// Request for the proof of a single trie node.
#[derive(Debug, Clone, PartialEq, Eq)]
pub struct Mpt {
    pub table_hash: TableHash,
    pub block_nr: BlockNr,
    pub node_hash: NodeHash,
    /// Input of the extraction circuit, as the proving engine reads it.
    pub circuit_input: Vec<u8>,
}

impl Mpt {
    pub fn new(
        table_hash: TableId,
        block_nr: BlockNr,
        node_hash: NodeHash,
        circuit_input: Vec<u8>,
    ) -> (r: Self)
        ensures
            r.table_hash == table_hash,
            r.block_nr == block_nr,
            r.node_hash == node_hash,
            r.circuit_input == circuit_input,
    {
        Self { table_hash, block_nr, node_hash, circuit_input }
    }

    /// The node version that this request speaks of.
    pub fn version(&self) -> (r: MptNodeVersion)
        ensures
            r == (self.block_nr, self.node_hash),
    {
        (self.block_nr, self.node_hash)
    }
}

/// Request for the proof of one leaf of a mapping's storage trie.
#[derive(Debug, Clone, PartialEq, Eq)]
pub struct MappingLeafInput {
    pub key: Vec<u8>,
    pub node: Vec<u8>,
    pub slot: u8,
    pub key_id: u64,
    pub value_id: u64,
}

impl MappingLeafInput {
    pub fn new(key: Vec<u8>, node: Vec<u8>, slot: u8, key_id: u64, value_id: u64) -> (r: Self)
        ensures
            r.key == key,
            r.node == node,
            r.slot == slot,
            r.key_id == key_id,
            r.value_id == value_id,
    {
        Self { key, node, slot, key_id, value_id }
    }
}

/// Request for the proof of a branch of a mapping's storage trie, over the
/// proofs of its children: `children_proofs[i]` is the proof of `children[i]`.
#[derive(Debug, Clone, PartialEq, Eq)]
pub struct MappingBranchInput {
    pub node: Vec<u8>,
    pub children: Vec<MptNodeVersion>,
    pub children_proofs: Vec<Vec<u8>>,
}

impl MappingBranchInput {
    pub fn new(node: Vec<u8>, children: Vec<MptNodeVersion>) -> (r: Self)
        ensures
            r.node == node,
            r.children == children,
            r.children_proofs@.len() == 0,
    {
        Self { node, children, children_proofs: Vec::new() }
    }

    /// One proof for each child, none of them empty.
    pub open spec fn filled(&self) -> bool {
        &&& self.children_proofs@.len() == self.children@.len()
        &&& all_filled(self.children_proofs@)
    }

    pub fn is_filled(&self) -> (r: bool)
        ensures
            r == self.filled(),
    {
        self.children_proofs.len() == self.children.len() && check_all_filled(
            &self.children_proofs,
        )
    }
}

/// Request for the proof of a branch of a variable's storage trie, over the
/// proofs of its children: `children_proofs[i]` is the proof of `children[i]`.
#[derive(Debug, Clone, PartialEq, Eq)]
pub struct VariableBranchInput {
    pub table_id: TableId,
    pub node: Vec<u8>,
    pub children: Vec<MptNodeVersion>,
    pub children_proofs: Vec<Vec<u8>>,
}

impl VariableBranchInput {
    pub fn new(table_id: TableId, node: Vec<u8>, children: Vec<MptNodeVersion>) -> (r: Self)
        ensures
            r.table_id == table_id,
            r.node == node,
            r.children == children,
            r.children_proofs@.len() == 0,
    {
        Self { table_id, node, children, children_proofs: Vec::new() }
    }

    /// One proof for each child, none of them empty.
    pub open spec fn filled(&self) -> bool {
        &&& self.children_proofs@.len() == self.children@.len()
        &&& all_filled(self.children_proofs@)
    }

    pub fn is_filled(&self) -> (r: bool)
        ensures
            r == self.filled(),
    {
        self.children_proofs.len() == self.children.len() && check_all_filled(
            &self.children_proofs,
        )
    }
}

/// Request for the proof of the length of a variable-length table, over raw
/// trie nodes.
#[derive(Debug, Clone, PartialEq, Eq)]
pub struct BatchedLength {
    pub table_hash: TableHash,
    pub block_nr: BlockNr,
    pub length_slot: usize,
    pub variable_slot: usize,
    pub nodes: Vec<Vec<u8>>,
}

impl BatchedLength {
    /// The structural type of each node, in the order of `nodes`. One node
    /// that does not classify fails the batch: no partial result is given.
    pub fn extraction_types(&self) -> (r: Result<Vec<NodeType>, NodeError>)
        ensures
            match r {
                Ok(types) => classify_all(self.nodes@) == Ok::<Seq<NodeType>, NodeError>(types@),
                Err(error) => classify_all(self.nodes@) == Err::<Seq<NodeType>, NodeError>(
                    error,
                ),
            },
    {
        classify_nodes(&self.nodes)
    }
}

/// Request for the proof of a contract's storage root, over raw trie nodes.
#[derive(Debug, Clone, PartialEq, Eq)]
pub struct BatchedContract {
    pub block_nr: BlockNr,
    pub storage_root: Vec<u8>,
    pub contract: Address,
    pub nodes: Vec<Vec<u8>>,
}

impl BatchedContract {
    /// The structural type of each node, in the order of `nodes`. One node
    /// that does not classify fails the batch: no partial result is given.
    pub fn extraction_types(&self) -> (r: Result<Vec<NodeType>, NodeError>)
        ensures
            match r {
                Ok(types) => classify_all(self.nodes@) == Ok::<Seq<NodeType>, NodeError>(types@),
                Err(error) => classify_all(self.nodes@) == Err::<Seq<NodeType>, NodeError>(
                    error,
                ),
            },
    {
        classify_nodes(&self.nodes)
    }
}

/// Request for the extraction proof of a block, from its undecoded header.
#[derive(Debug, Clone, PartialEq, Eq)]
pub struct BlockExtractionInput {
    pub rlp_header: Vec<u8>,
}

impl BlockExtractionInput {
    pub fn new(rlp_header: Vec<u8>) -> (r: Self)
        ensures
            r.rlp_header == rlp_header,
    {
        Self { rlp_header }
    }
}

/// Whether a single table has a length of its own.
#[derive(Debug, Clone, Copy, PartialEq, Eq, Structural)]
pub enum FinalExtractionType {
    Simple,
    Lengthed,
}

/// Inputs for a single table proof: binds together a block, a contract and a
/// table, each by a proof made before.
#[derive(Debug, PartialEq, Eq)]
pub struct SingleTableExtraction {
    pub table_id: TableId,
    pub table_hash: TableHash,
    pub value_proof_version: MptNodeVersion,
    pub block_nr: BlockNr,
    pub contract: Address,
    pub extraction_type: FinalExtractionType,
    pub block_proof: Vec<u8>,
    pub contract_proof: Vec<u8>,
    pub value_proof: Vec<u8>,
    pub length_proof: Vec<u8>,
}

impl Clone for SingleTableExtraction {
    fn clone(&self) -> (r: Self)
        ensures
            r.table_id == self.table_id,
            r.table_hash == self.table_hash,
            r.value_proof_version == self.value_proof_version,
            r.block_nr == self.block_nr,
            r.contract == self.contract,
            r.extraction_type == self.extraction_type,
            r.block_proof@ == self.block_proof@,
            r.contract_proof@ == self.contract_proof@,
            r.value_proof@ == self.value_proof@,
            r.length_proof@ == self.length_proof@,
    {
        Self {
            table_id: self.table_id,
            table_hash: self.table_hash,
            value_proof_version: self.value_proof_version,
            block_nr: self.block_nr,
            contract: self.contract,
            extraction_type: self.extraction_type,
            block_proof: self.block_proof.clone(),
            contract_proof: self.contract_proof.clone(),
            value_proof: self.value_proof.clone(),
            length_proof: self.length_proof.clone(),
        }
    }
}

impl SingleTableExtraction {
    pub fn new(
        table_id: TableId,
        table_hash: TableHash,
        block_nr: BlockNr,
        contract: Address,
        extraction_type: FinalExtractionType,
        value_proof_version: MptNodeVersion,
    ) -> (r: Self)
        ensures
            r.table_id == table_id,
            r.table_hash == table_hash,
            r.block_nr == block_nr,
            r.contract == contract,
            r.extraction_type == extraction_type,
            r.value_proof_version == value_proof_version,
            r.block_proof@.len() == 0,
            r.contract_proof@.len() == 0,
            r.value_proof@.len() == 0,
            r.length_proof@.len() == 0,
    {
        Self {
            table_id,
            table_hash,
            block_nr,
            contract,
            value_proof_version,
            extraction_type,
            block_proof: Vec::new(),
            contract_proof: Vec::new(),
            value_proof: Vec::new(),
            length_proof: Vec::new(),
        }
    }

    /// The block, contract and value proofs are there, and the length proof
    /// where the table has a length.
    pub open spec fn filled(&self) -> bool {
        &&& self.block_proof@.len() > 0
        &&& self.contract_proof@.len() > 0
        &&& self.value_proof@.len() > 0
        &&& (self.extraction_type == FinalExtractionType::Lengthed ==> self.length_proof@.len()
            > 0)
    }

    pub fn is_filled(&self) -> (r: bool)
        ensures
            r == self.filled(),
    {
        let length_ok = match self.extraction_type {
            FinalExtractionType::Simple => true,
            FinalExtractionType::Lengthed => self.length_proof.len() > 0,
        };
        self.block_proof.len() > 0 && self.contract_proof.len() > 0 && self.value_proof.len() > 0
            && length_ok
    }
}

/// Inputs for a merge table proof: binds together a block, a contract and its
/// two sub-tables. Both sub-tables come from the storage of one contract, so
/// one value proof version stands for both.
#[derive(Debug, PartialEq, Eq)]
pub struct MergeTableExtraction {
    pub table_id: TableId,
    pub simple_table_hash: TableHash,
    pub mapping_table_hash: TableHash,
    pub block_nr: BlockNr,
    pub contract: Address,
    /// The last block at which the storage changed, and its hash.
    pub value_proof_version: MptNodeVersion,
    pub block_proof: Vec<u8>,
    pub contract_proof: Vec<u8>,
    pub simple_table_proof: Vec<u8>,
    pub mapping_table_proof: Vec<u8>,
}

impl Clone for MergeTableExtraction {
    fn clone(&self) -> (r: Self)
        ensures
            r.table_id == self.table_id,
            r.simple_table_hash == self.simple_table_hash,
            r.mapping_table_hash == self.mapping_table_hash,
            r.block_nr == self.block_nr,
            r.contract == self.contract,
            r.value_proof_version == self.value_proof_version,
            r.block_proof@ == self.block_proof@,
            r.contract_proof@ == self.contract_proof@,
            r.simple_table_proof@ == self.simple_table_proof@,
            r.mapping_table_proof@ == self.mapping_table_proof@,
    {
        Self {
            table_id: self.table_id,
            simple_table_hash: self.simple_table_hash,
            mapping_table_hash: self.mapping_table_hash,
            block_nr: self.block_nr,
            contract: self.contract,
            value_proof_version: self.value_proof_version,
            block_proof: self.block_proof.clone(),
            contract_proof: self.contract_proof.clone(),
            simple_table_proof: self.simple_table_proof.clone(),
            mapping_table_proof: self.mapping_table_proof.clone(),
        }
    }
}

impl MergeTableExtraction {
    pub fn new(
        table_id: TableId,
        simple_table_hash: TableHash,
        mapping_table_hash: TableHash,
        block_nr: BlockNr,
        contract: Address,
        value_proof_version: MptNodeVersion,
    ) -> (r: Self)
        ensures
            r.table_id == table_id,
            r.simple_table_hash == simple_table_hash,
            r.mapping_table_hash == mapping_table_hash,
            r.block_nr == block_nr,
            r.contract == contract,
            r.value_proof_version == value_proof_version,
            r.block_proof@.len() == 0,
            r.contract_proof@.len() == 0,
            r.simple_table_proof@.len() == 0,
            r.mapping_table_proof@.len() == 0,
    {
        Self {
            table_id,
            simple_table_hash,
            mapping_table_hash,
            block_nr,
            contract,
            value_proof_version,
            block_proof: Vec::new(),
            contract_proof: Vec::new(),
            simple_table_proof: Vec::new(),
            mapping_table_proof: Vec::new(),
        }
    }

    /// The block and contract proofs and the proofs of both sub-tables are
    /// there.
    pub open spec fn filled(&self) -> bool {
        &&& self.block_proof@.len() > 0
        &&& self.contract_proof@.len() > 0
        &&& self.simple_table_proof@.len() > 0
        &&& self.mapping_table_proof@.len() > 0
    }

    pub fn is_filled(&self) -> (r: bool)
        ensures
            r == self.filled(),
    {
        self.block_proof.len() > 0 && self.contract_proof.len() > 0
            && self.simple_table_proof.len() > 0 && self.mapping_table_proof.len() > 0
    }
}

/// Inputs for the final extraction: the last step of a table's proofs, which
/// derives nothing anew and binds earlier proofs into one.
#[derive(Debug, Clone, PartialEq, Eq)]
pub enum FinalExtraction {
    Single(SingleTableExtraction),
    Merge(MergeTableExtraction),
}

impl FinalExtraction {
    pub fn new_single_table(
        table_id: TableId,
        table_hash: TableHash,
        block_nr: BlockNr,
        contract: Address,
        extraction_type: FinalExtractionType,
        value_proof_version: MptNodeVersion,
    ) -> (r: Self)
        ensures
            r matches FinalExtraction::Single(single) && {
                &&& single.table_id == table_id
                &&& single.table_hash == table_hash
                &&& single.block_nr == block_nr
                &&& single.contract == contract
                &&& single.extraction_type == extraction_type
                &&& single.value_proof_version == value_proof_version
                &&& single.block_proof@.len() == 0
                &&& single.contract_proof@.len() == 0
                &&& single.value_proof@.len() == 0
                &&& single.length_proof@.len() == 0
            },
    {
        FinalExtraction::Single(
            SingleTableExtraction::new(
                table_id,
                table_hash,
                block_nr,
                contract,
                extraction_type,
                value_proof_version,
            ),
        )
    }

    pub fn new_merge_table(
        table_id: TableId,
        simple_table_hash: TableHash,
        mapping_table_hash: TableHash,
        block_nr: BlockNr,
        contract: Address,
        value_proof_version: MptNodeVersion,
    ) -> (r: Self)
        ensures
            r matches FinalExtraction::Merge(merge) && {
                &&& merge.table_id == table_id
                &&& merge.simple_table_hash == simple_table_hash
                &&& merge.mapping_table_hash == mapping_table_hash
                &&& merge.block_nr == block_nr
                &&& merge.contract == contract
                &&& merge.value_proof_version == value_proof_version
                &&& merge.block_proof@.len() == 0
                &&& merge.contract_proof@.len() == 0
                &&& merge.simple_table_proof@.len() == 0
                &&& merge.mapping_table_proof@.len() == 0
            },
    {
        FinalExtraction::Merge(
            MergeTableExtraction::new(
                table_id,
                simple_table_hash,
                mapping_table_hash,
                block_nr,
                contract,
                value_proof_version,
            ),
        )
    }

    /// Every proof that the step binds together is there.
    pub open spec fn filled(&self) -> bool {
        match self {
            FinalExtraction::Single(single) => single.filled(),
            FinalExtraction::Merge(merge) => merge.filled(),
        }
    }

    pub fn is_filled(&self) -> (r: bool)
        ensures
            r == self.filled(),
    {
        match self {
            FinalExtraction::Single(single) => single.is_filled(),
            FinalExtraction::Merge(merge) => merge.is_filled(),
        }
    }
}

/// A task of the preprocessing family.
#[derive(Debug, Clone, PartialEq, Eq)]
pub enum WorkerTaskType {
    MptNode(Mpt),
    MappingLeaf(MappingLeafInput),
    MappingBranch(MappingBranchInput),
    VariableBranch(VariableBranchInput),
    Length(BatchedLength),
    Contract(BatchedContract),
    Block(BlockExtractionInput),
    Final(FinalExtraction),
}

} // verus!
