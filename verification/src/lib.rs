//! DepRank: a dependency usage analyzer.
//!
//! Given the files of a checked-out source tree, the library detects the
//! project's ecosystem from its manifest, counts effective code lines, and
//! determines per dependency which lines evidence its usage, aggregated
//! into a ranked usage report.
//!
//! The analyzer proper is the pipeline `text` → `classify` / `matcher` →
//! `aggregate` → `report`, with `ecosystem` and `manifest` feeding it the
//! comment rules and the declared dependencies, and `analyzer` the service
//! handle around it. `storage` and `repo` name the places fetched
//! repositories are cached under; `contracts` and `errors` carry the data
//! model of the service around the analyzer.

pub mod aggregate;
pub mod analyzer;
pub mod classify;
pub mod contracts;
pub mod ecosystem;
pub mod errors;
pub mod manifest;
pub mod matcher;
pub mod repo;
pub mod report;
pub mod storage;
pub mod text;
