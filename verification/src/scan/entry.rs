//! A visited filesystem entry.

use vstd::prelude::*;
use crate::platform::{EntryType, FileIdentity};

verus! {

/// What a scan records of one visited entry.
#[derive(Debug, Clone, PartialEq, Eq)]
pub struct ScannedEntry {
    pub original_path: String,
    pub canonical_path: String,
    pub normalized_path: String,
    pub identity: FileIdentity,
    pub entry_type: EntryType,
    pub apparent_size: u64,
    pub allocated_size: u64,
    pub modified_ms: Option<u64>,
}

} // verus!
