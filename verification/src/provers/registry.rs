//! The registry of the capabilities: one for each task family, built once
//! when the worker starts and only read afterwards.

use super::groth16::Groth16Capability;
use super::preprocessing::PreprocessingProver;
use super::query::QueryProver;
use super::session::{correlated, result_view, Progress, ProgressView};
use super::{LgnProver, ProverError};
use crate::types::{MessageEnvelope, TaskFamily};
use vstd::prelude::*;

verus! {

/// Why a worker cannot be set up.
#[derive(Debug, Clone, Copy, PartialEq, Eq, Structural)]
pub enum RegistryError {
    /// No capability was given for this family.
    MissingProver(TaskFamily),
}

/// The capabilities of a worker, one for each family.
#[derive(Debug, Clone, PartialEq, Eq)]
pub struct ProversManager {
    preprocessing: PreprocessingProver,
    query: QueryProver,
    groth16: Groth16Capability,
}

impl ProversManager {
    /// The capability of the preprocessing family.
    pub closed spec fn spec_preprocessing(&self) -> PreprocessingProver {
        self.preprocessing
    }

    /// The capability of the query family.
    pub closed spec fn spec_query(&self) -> QueryProver {
        self.query
    }

    /// The capability of the Groth16 family.
    pub closed spec fn spec_groth16(&self) -> Groth16Capability {
        self.groth16
    }

    /// What the registry answers to a request: what the capability of the
    /// request's family answers.
    pub open spec fn spec_delegate(&self, envelope: MessageEnvelope) -> Result<
        ProgressView,
        ProverError,
    > {
        match envelope.task.family() {
            TaskFamily::Preprocessing => self.spec_preprocessing().answer(envelope),
            TaskFamily::Query => self.spec_query().answer(envelope),
            TaskFamily::Groth16 => self.spec_groth16().answer(envelope),
        }
    }

    /// Builds the registry. A family without a capability is an error of the
    /// set-up, found here and not when a task of that family arrives; the
    /// error names the first such family.
    pub fn new(
        preprocessing: Option<PreprocessingProver>,
        query: Option<QueryProver>,
        groth16: Option<Groth16Capability>,
    ) -> (r: Result<Self, RegistryError>)
        ensures
            match r {
                Ok(manager) => {
                    &&& preprocessing == Some(manager.spec_preprocessing())
                    &&& query == Some(manager.spec_query())
                    &&& groth16 == Some(manager.spec_groth16())
                },
                Err(RegistryError::MissingProver(family)) => family == (if preprocessing is None {
                    TaskFamily::Preprocessing
                } else if query is None {
                    TaskFamily::Query
                } else {
                    TaskFamily::Groth16
                }) && (preprocessing is None || query is None || groth16 is None),
            },
    {
        let preprocessing = match preprocessing {
            Some(prover) => prover,
            None => {
                return Err(RegistryError::MissingProver(TaskFamily::Preprocessing));
            },
        };
        let query = match query {
            Some(prover) => prover,
            None => {
                return Err(RegistryError::MissingProver(TaskFamily::Query));
            },
        };
        let groth16 = match groth16 {
            Some(prover) => prover,
            None => {
                return Err(RegistryError::MissingProver(TaskFamily::Groth16));
            },
        };
        Ok(Self { preprocessing, query, groth16 })
    }

    pub fn preprocessing(&self) -> (r: &PreprocessingProver)
        ensures
            *r == self.spec_preprocessing(),
    {
        &self.preprocessing
    }

    pub fn query(&self) -> (r: &QueryProver)
        ensures
            *r == self.spec_query(),
    {
        &self.query
    }

    pub fn groth16(&self) -> (r: &Groth16Capability)
        ensures
            *r == self.spec_groth16(),
    {
        &self.groth16
    }

    /// Hands a request to the capability of its family. The registry never
    /// answers with a routing error, and what it answers carries the
    /// identifier of the request.
    pub fn delegate_proving(&self, envelope: MessageEnvelope) -> (r: Result<
        Progress,
        ProverError,
    >)
        ensures
            result_view(r) == self.spec_delegate(envelope),
            !(r matches Err(ProverError::UnsupportedTaskType { .. })),
            r matches Ok(progress) ==> correlated(progress@, envelope.task_id@),
    {
        match envelope.task.family() {
            TaskFamily::Preprocessing => self.preprocessing.run(envelope),
            TaskFamily::Query => self.query.run(envelope),
            TaskFamily::Groth16 => self.groth16.run(envelope),
        }
    }
}

} // verus!
