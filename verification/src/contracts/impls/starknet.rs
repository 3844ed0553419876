//! Configuration of the Starknet-backed contract client.
//!
//! The client itself speaks JSON-RPC through the Starknet SDK and lives
//! with the I/O around the library; only its configuration, plain
//! strings read from flags or the environment, is modeled here.

use vstd::prelude::*;

verus! {

/// The addresses and credentials the Starknet client is built from.
pub struct StarknetConfig {
    /// URL of the Starknet JSON-RPC endpoint.
    pub starknet_rpc_url: String,
    /// Private key of the Starknet account.
    pub starknet_private_key: String,
    /// Address of the Starknet account.
    pub starknet_account_address: String,
    /// Chain identifier of the Starknet network.
    pub starknet_chain_id: String,
    /// Address of the Allocation contract.
    pub allocation_contract_address: String,
    /// Address of the Inquire contract.
    pub inquire_contract_address: String,
    /// Address of the Receipt contract.
    pub receipt_contract_address: String,
    /// Address of the Sign contract.
    pub sign_contract_address: String,
    /// Address of the Workflow contract.
    pub workflow_contract_address: String,
}

} // verus!
