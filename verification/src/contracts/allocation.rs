//! Allocation records and the allocation contract interface.

use vstd::prelude::*;

use super::types::{Address, Id, Number};

verus! {

/// An allocation of funds attached to a workflow.
pub struct Allocation {
    pub workflow_id: Id,
    pub sign_id: Id,
    pub recipient: Address,
    pub amount: Number,
    pub token_address: Address,
    pub tx_hash: super::types::Hash,
    pub created_at: u64,
    pub status: Status,
}

/// The lifecycle of an allocation.
#[derive(Clone, Copy, Debug, PartialEq, Eq, Structural)]
pub enum Status {
    Pending,
    Executed,
    Failed,
}

impl Status {
    /// The on-chain encoding of the status.
    pub fn code(self) -> (r: &'static str)
        ensures
            self is Pending ==> r@ == "0"@,
            self is Executed ==> r@ == "1"@,
            self is Failed ==> r@ == "2"@,
    {
        match self {
            Status::Pending => "0",
            Status::Executed => "1",
            Status::Failed => "2",
        }
    }
}

/// Allocation contract interface.
pub trait AllocationContract {
    /// Create an allocation record.
    fn create_allocation(
        &self,
        workflow_id: Id,
        sign_id: Id,
        recipient: Address,
        amount: Number,
        token_address: Address,
    ) -> Id;

    /// Update an allocation's status.
    fn update_allocation_status(&self, allocation_id: Id, status: Status) -> bool;

    /// Get an allocation's details.
    fn get_allocation_details(&self, allocation_id: Id) -> Allocation;

    /// Get an allocation identifier by sign identifier.
    fn get_allocation_by_sign(&self, sign_id: Id) -> Id;
}

} // verus!
