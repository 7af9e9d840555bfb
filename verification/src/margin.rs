//! Stack margins by task.
//!
//! For every task in scope the command finds where the task's stack began,
//! resolves the region below that address, checks that the task alone owns
//! it, reads the stack and scans it for the high-water mark.

pub mod laws;
pub mod machine;
pub mod target;
