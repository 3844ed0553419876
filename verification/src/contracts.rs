//! The contract layer's data model: the records and interfaces of the
//! workflow, allocation, inquiry, receipt and sign contracts, as plain
//! values.

pub mod allocation;
pub mod impls;
pub mod inquire;
pub mod receipt;
pub mod sign;
pub mod types;
pub mod workflow;
