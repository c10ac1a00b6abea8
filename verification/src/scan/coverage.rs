//! What a scan covered, and what it skipped with the reason.

use vstd::prelude::*;

verus! {

/// Why part of the tree was not covered.
#[derive(Debug, Clone, PartialEq, Eq)]
pub enum SkipReason {
    PermissionDenied(String),
    MountBoundary { root_device: u64, path_device: u64 },
    Vanished,
    IoError(String),
}

/// A path the scan skipped.
#[derive(Debug, Clone, PartialEq, Eq)]
pub struct SkippedScope {
    pub path: String,
    pub reason: SkipReason,
}

/// Totals and coverage evidence of a scan.
#[derive(Debug, Clone, PartialEq, Eq)]
pub struct CoverageSummary {
    pub total_apparent_bytes: u64,
    pub total_allocated_bytes: u64,
    pub items_scanned: u64,
    pub files_count: u64,
    pub directories_count: u64,
    pub symlinks_count: u64,
    pub skipped_permissions_count: u64,
    pub skipped_mount_boundaries_count: u64,
    pub skipped_vanished_count: u64,
    pub skipped_scopes: Vec<SkippedScope>,
    pub is_complete: bool,
}

impl CoverageSummary {
    /// Empty coverage: nothing scanned, nothing skipped, not complete.
    pub fn new() -> (c: Self)
        ensures
            c.total_apparent_bytes == 0,
            c.total_allocated_bytes == 0,
            c.items_scanned == 0,
            c.files_count == 0,
            c.directories_count == 0,
            c.symlinks_count == 0,
            c.skipped_permissions_count == 0,
            c.skipped_mount_boundaries_count == 0,
            c.skipped_vanished_count == 0,
            c.skipped_scopes@.len() == 0,
            !c.is_complete,
    {
        CoverageSummary {
            total_apparent_bytes: 0,
            total_allocated_bytes: 0,
            items_scanned: 0,
            files_count: 0,
            directories_count: 0,
            symlinks_count: 0,
            skipped_permissions_count: 0,
            skipped_mount_boundaries_count: 0,
            skipped_vanished_count: 0,
            skipped_scopes: Vec::new(),
            is_complete: false,
        }
    }

    /// The totals are exact only when the scan completed and skipped nothing for
    /// permission or for a mount boundary.
    pub open spec fn spec_is_exact(&self) -> bool {
        self.is_complete && self.skipped_permissions_count == 0 && self.skipped_mount_boundaries_count == 0
    }

    pub fn is_exact(&self) -> (b: bool)
        ensures
            b == self.spec_is_exact(),
    {
        self.is_complete && self.skipped_permissions_count == 0 && self.skipped_mount_boundaries_count == 0
    }
}

impl Default for CoverageSummary {
    fn default() -> (c: Self)
        ensures
            c.items_scanned == 0,
            c.total_allocated_bytes == 0,
            c.skipped_scopes@.len() == 0,
            !c.is_complete,
    {
        CoverageSummary::new()
    }
}

} // verus!
