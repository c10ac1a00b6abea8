//! Event names and payloads pushed from the back end to the interface.

use vstd::prelude::*;

verus! {

pub const EVENT_SCAN_PROGRESS: &'static str = "scan:progress";

pub const EVENT_VERIFIED_COUNT: &'static str = "scan:verified-count";

pub const EVENT_COVERAGE_WARNING: &'static str = "scan:warning";

pub const EVENT_EXECUTION_OUTCOME: &'static str = "execute:item-outcome";

pub const EVENT_TERMINAL_COMPLETION: &'static str = "scan:terminal";

/// Phase of a scan, as reported in progress events.
#[derive(Debug, Clone, Copy, PartialEq, Eq, Structural)]
pub enum ScanPhase {
    Discovering,
    Scanning,
    Classifying,
    Coalescing,
    Complete,
}

/// Progress of a running scan.
#[derive(Debug, Clone, PartialEq, Eq)]
pub struct ScanProgressPayload {
    pub session_id: String,
    pub phase: ScanPhase,
    pub current_scope: String,
    pub items_visited: u64,
    pub bytes_visited: u64,
}

/// Count of items verified in a category.
#[derive(Debug, Clone, PartialEq, Eq)]
pub struct VerifiedCountPayload {
    pub session_id: String,
    pub category: String,
    pub verified_count: u64,
    pub verified_bytes: u64,
}

/// A path the scan could not fully cover.
#[derive(Debug, Clone, PartialEq, Eq)]
pub struct CoverageWarningPayload {
    pub session_id: String,
    pub path: String,
    pub warning_code: String,
    pub message: String,
}

/// The outcome of one executed plan item.
#[derive(Debug, Clone, PartialEq, Eq)]
pub struct ExecutionOutcomePayload {
    pub plan_id: String,
    pub item_id: String,
    pub success: bool,
    pub error: Option<String>,
    pub bytes_freed: u64,
}

/// How a scan ended.
#[derive(Debug, Clone, Copy, PartialEq, Eq, Structural)]
pub enum TerminalStatus {
    Completed,
    Cancelled,
    Failed,
}

/// The final event of a scan.
#[derive(Debug, Clone, PartialEq, Eq)]
pub struct TerminalCompletionPayload {
    pub session_id: String,
    pub status: TerminalStatus,
    pub total_items: u64,
    pub total_bytes: u64,
    pub summary_message: String,
}

impl ScanProgressPayload {
    /// An exact copy.
    pub fn duplicate(&self) -> (r: Self)
        ensures
            r == *self,
    {
        ScanProgressPayload {
            session_id: self.session_id.clone(),
            phase: self.phase,
            current_scope: self.current_scope.clone(),
            items_visited: self.items_visited,
            bytes_visited: self.bytes_visited,
        }
    }
}

} // verus!
