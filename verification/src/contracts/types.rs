//! The plain value types of the contract layer.

use vstd::prelude::*;

verus! {

/// An entity identifier, carried as a decimal string.
pub type Id = String;

/// An account or contract address, carried as a hexadecimal string.
pub type Address = String;

/// A transaction or content hash, carried as a hexadecimal string.
pub type Hash = String;

/// A numeric amount, carried as a decimal string.
pub type Number = String;

/// A repository owner name.
pub type Owner = String;

} // verus!
