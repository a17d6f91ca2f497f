//! Payloads of the query family.
//!
//! A tabular step carries row inputs and matching-row descriptors as two
//! parallel sequences: the row at a position belongs to the descriptor at the
//! same position. Nothing is matched by key and nothing is sorted.

use vstd::prelude::*;

verus! {

/// What the universal circuit needs to prove one row.
#[derive(Debug, Clone, PartialEq, Eq)]
pub struct RowInput {
    /// The cells of the row's columns, as the proving engine reads them.
    pub column_cells: Vec<u8>,
    /// The row's placeholder bindings, as the proving engine reads them.
    pub placeholders: Vec<u8>,
    /// Whether the row is a leaf of the rows tree.
    pub is_leaf: bool,
}

impl RowInput {
    pub fn new(column_cells: Vec<u8>, placeholders: Vec<u8>, is_leaf: bool) -> (r: Self)
        ensures
            r.column_cells == column_cells,
            r.placeholders == placeholders,
            r.is_leaf == is_leaf,
    {
        Self { column_cells, placeholders, is_leaf }
    }
}

/// A matching row that has its proof: the outcome of hydration.
#[derive(Debug, Clone, PartialEq, Eq)]
pub struct HydratedRow {
    pub descriptor: Vec<u8>,
    pub proof: Vec<u8>,
}

/// Descriptor of a row that matches the query, still without its proof.
#[derive(Debug, Clone, PartialEq, Eq)]
pub struct MatchingRow {
    /// Where the row lies in the index, as the proving engine reads it.
    pub descriptor: Vec<u8>,
}

impl MatchingRow {
    pub fn new(descriptor: Vec<u8>) -> (r: Self)
        ensures
            r.descriptor == descriptor,
    {
        Self { descriptor }
    }

    /// Attaches the proof of the row to its descriptor.
    pub fn hydrate(self, proof: Vec<u8>) -> (r: HydratedRow)
        ensures
            r == (HydratedRow { descriptor: self.descriptor, proof }),
    {
        HydratedRow { descriptor: self.descriptor, proof }
    }
}

/// What the revelation circuit needs besides the proofs of the rows.
#[derive(Debug, Clone, PartialEq, Eq)]
pub enum RevelationInput {
    Tabular {
        /// The query's placeholder bindings, as the proving engine reads them.
        placeholders: Vec<u8>,
        /// Proof of the index tree that the rows are revealed against.
        indexing_proof: Vec<u8>,
        /// One descriptor for each row input, in the order of the row inputs.
        matching_rows: Vec<MatchingRow>,
        /// The identifiers of the table's columns, as the proving engine reads
        /// them.
        column_ids: Vec<u8>,
        /// Most rows that the query returns.
        limit: u32,
        /// Number of matching rows that the query skips.
        offset: u32,
    },
}

/// One step of a query.
#[derive(Debug, Clone, PartialEq, Eq)]
pub enum QueryStep {
    /// Prove each row, then reveal them together.
    Tabular(Vec<RowInput>, RevelationInput),
    /// Prove one circuit whose input is already built.
    QueryCircuitInput(Vec<u8>),
}

/// A query task: one step, and the query plan it runs under.
#[derive(Debug, Clone, PartialEq, Eq)]
pub struct QueryInput {
    pub query_step: QueryStep,
    /// The query plan: predicate operations, result shape, value bounds. It
    /// stays encoded here; the proving engine decodes it.
    pub pis: Vec<u8>,
}

/// A task of the query family.
#[derive(Debug, Clone, PartialEq, Eq)]
pub enum WorkerTaskType {
    Query(QueryInput),
}

} // verus!
