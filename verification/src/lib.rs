//! Verified core of a diagnostic-collection tool for a database node.
//!
//! The library models a fixed catalog of shell-command descriptors, resolves
//! `{placeholder}` templates against a configuration bundle (with masked
//! rendering for secrets), plans an availability probe pass that checks each
//! distinct resolved executable once, and decides for every catalog entry
//! whether it is skipped, ineligible, or run — and with which wrapped
//! invocation, output file, and audit-log line.  The thin unverified shell
//! around it performs the actual process spawns and file writes.

pub mod catalog;
pub mod config;
pub mod engine;
pub mod probe;
pub mod render;
pub mod text;
