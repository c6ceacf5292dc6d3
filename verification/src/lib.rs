//! Core of a small command-line file manager with three operations: list a
//! directory, create a directory, remove a file or directory.
//!
//! The library holds everything that can be decided without touching the
//! filesystem: which filesystem step each operation calls for, and the exact
//! line that is reported for every outcome, on standard output for a success
//! and on standard error for a failure. The surrounding binary performs the
//! filesystem calls themselves and feeds their results back in as plain
//! values.

pub mod messages;
pub mod ops;
pub mod report;
