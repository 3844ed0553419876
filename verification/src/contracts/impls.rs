//! Chain-specific pieces of the contract layer.

pub mod starknet;
