//! Filesystem traversal accounting: what a scan covered, what it skipped and why, and the
//! entries it visited.

pub mod coverage;
pub mod entry;
pub mod session;
pub mod traversal;
