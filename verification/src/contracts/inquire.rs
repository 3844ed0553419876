//! Inquiry records and the inquire contract interface.

use vstd::prelude::*;

use super::types::{Address, Id};

verus! {

/// An inquiry raised within a workflow.
pub struct Inquire {
    pub workflow_id: Id,
    pub inquirer: Address,
    pub inquiree: Address,
    pub question: String,
    pub response: String,
    pub status: Status,
    pub created_at: u64,
    pub responded_at: u64,
}

/// The lifecycle of an inquiry.
#[derive(Clone, Copy, Debug, PartialEq, Eq, Structural)]
pub enum Status {
    Pending,
    Responded,
    Rejected,
}

/// Inquire contract interface.
pub trait InquireContract {
    /// Create an inquiry.
    fn create_inquire(
        &self,
        workflow_id: Id,
        inquirer: Address,
        inquiree: Address,
        question: String,
    ) -> Id;

    /// Respond to an inquiry.
    fn respond_to_inquire(&self, inquire_id: Id, response: String) -> bool;

    /// Reject an inquiry.
    fn reject_inquire(&self, inquire_id: Id) -> bool;

    /// Get an inquiry's details.
    fn get_inquire_details(&self, inquire_id: Id) -> Inquire;
}

} // verus!
