//! Workflow records: workflows, their dependencies, and audit steps.

use vstd::prelude::*;

use super::types::{Address, Id, Owner};

verus! {

/// A workflow owned by a repository owner.
pub struct Workflow {
    pub owner: Owner,
    /// Associated multisig wallet address.
    pub wallet_address: Address,
    pub status: Status,
    pub created_at: u64,
    pub last_updated_at: u64,
}

/// A dependency tracked by a workflow.
pub struct Dependency {
    /// Dependency name or identifier.
    pub name: String,
    pub repository_url: String,
    pub license: String,
    /// JSON formatted additional data.
    pub metadata_json: String,
    pub status: Status,
    pub created_at: u64,
    pub last_updated_at: u64,
}

/// One audit step of a dependency.
pub struct Step {
    pub step_type: StepType,
    pub tx_hash: super::types::Hash,
    /// Related entity identifier: a receipt, inquiry, sign or
    /// allocation identifier.
    pub related_entity_id: Id,
    pub timestamp: u64,
    /// Previous step index, used for linking.
    pub prev_step_index: Id,
}

/// What kind of entity a step records.
#[derive(Clone, Copy, Debug, PartialEq, Eq, Structural)]
pub enum StepType {
    Receipt,
    Inquire,
    Sign,
    Allocation,
}

impl StepType {
    /// The on-chain encoding of the step kind.
    pub fn code(self) -> (r: &'static str)
        ensures
            self is Receipt ==> r@ == "1"@,
            self is Inquire ==> r@ == "2"@,
            self is Sign ==> r@ == "3"@,
            self is Allocation ==> r@ == "4"@,
    {
        match self {
            StepType::Receipt => "1",
            StepType::Inquire => "2",
            StepType::Sign => "3",
            StepType::Allocation => "4",
        }
    }
}

/// The lifecycle of a workflow or of one of its dependencies.
#[derive(Clone, Copy, Debug, PartialEq, Eq, Structural)]
pub enum Status {
    Created,
    InProgress,
    Completed,
}

} // verus!
