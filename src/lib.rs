//! Finds and removes disposable build and dependency directories (Cargo
//! `target`, `node_modules`, Python virtual environments, compiler and
//! toolchain caches) without ever mistaking a real project for one.
//!
//! The library decides; the caller reads the disk and acts:
//! - [`classify`]: the rule table of each kind and the classifier over a
//!   snapshot of a directory;
//! - [`walker`]: sorting the entries of a walk into result lists;
//! - [`delete`]: the re-check and outcome of a deletion;
//! - [`clean`]: the per-project cleanup plan;
//! - [`size`]: the size of a directory tree;
//! - [`select`]: which lists a run processes, and its tally;
//! - [`units`]: byte counts for people.

pub mod classify;
pub mod clean;
pub mod delete;
pub mod select;
pub mod size;
pub mod units;
pub mod walker;
