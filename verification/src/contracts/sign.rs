//! Signature records and the sign contract interface.

use vstd::prelude::*;

use super::types::{Address, Id};

verus! {

/// A signature attached to an inquiry of a workflow.
pub struct Sign {
    pub workflow_id: Id,
    pub inquire_id: Id,
    pub signer: Address,
    pub signature_hash: super::types::Hash,
    pub tx_hash: super::types::Hash,
    pub created_at: u64,
}

/// Sign contract interface.
pub trait SignContract {
    /// Create a signature record.
    fn create_sign(
        &self,
        workflow_id: Id,
        inquire_id: Id,
        signer: Address,
        signature_hash: super::types::Hash,
    ) -> Id;

    /// Get a signature's details.
    fn get_sign_details(&self, sign_id: Id) -> Sign;

    /// Get a signature identifier by inquiry identifier.
    fn get_sign_by_inquire(&self, inquire_id: Id) -> Id;
}

} // verus!
