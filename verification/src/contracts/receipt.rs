//! Receipt records and the receipt contract interface.

use vstd::prelude::*;

use super::types::Id;

verus! {

/// A receipt for a dependency, anchored on the chain.
pub struct Receipt {
    pub workflow_id: Id,
    pub dependency_url: String,
    pub tx_hash: super::types::Hash,
    pub created_at: u64,
    /// Hash value of the complete metadata document.
    pub metadata_hash: super::types::Hash,
    /// URI pointing to the complete metadata document.
    pub metadata_uri: String,
}

/// Common key fields, stored directly on the chain.
pub struct ReceiptMetadata {
    pub name: String,
    pub version: String,
    pub author: String,
    pub license: String,
}

/// Receipt contract interface.
pub trait ReceiptContract {
    /// Create a receipt and store its metadata.
    fn create_receipt(
        &self,
        workflow_id: Id,
        dependency_url: String,
        metadata: ReceiptMetadata,
        metadata_hash: super::types::Hash,
        metadata_uri: super::types::Hash,
    ) -> Id;

    /// Get a receipt's details.
    fn get_receipt_details(&self, receipt_id: Id) -> (Receipt, ReceiptMetadata);

    /// Verify stored metadata against a provided hash.
    fn verify_metadata(&self, receipt_id: Id, provided_hash: super::types::Hash) -> bool;

    /// Update a receipt's transaction hash.
    fn update_tx_hash(&self, receipt_id: Id, tx_hash: super::types::Hash);
}

} // verus!
