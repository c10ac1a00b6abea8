//! Read commands: starting and cancelling scans, paging findings, and the read commands
//! that are not offered yet.

use vstd::prelude::*;
use crate::boundary::cancellation::CancellationRegistry;
use crate::boundary::error::CommandError;
use crate::boundary::events::{CoverageWarningPayload, ScanProgressPayload, TerminalCompletionPayload, TerminalStatus};
use crate::platform::{PlatformAdapter, PlatformError, ScanRoot};
use crate::scan::coverage::CoverageSummary;
use crate::text::{concat2, concat3, decimal, owned, u64_to_decimal};

verus! {

#[derive(Debug, Clone, PartialEq, Eq)]
pub struct StartScanArgs {
    pub roots: Vec<String>,
}

#[derive(Debug, Clone, PartialEq, Eq)]
pub struct ScanSessionHeader {
    pub session_id: String,
    pub started_at_ms: u64,
    pub roots: Vec<String>,
}

#[derive(Debug, Clone, PartialEq, Eq)]
pub struct CancelScanArgs {
    pub session_id: String,
}

#[derive(Debug, Clone, PartialEq, Eq)]
pub struct CancelScanResult {
    pub session_id: String,
    pub cancelled: bool,
}

#[derive(Debug, Clone, PartialEq, Eq)]
pub struct FetchFindingsPageArgs {
    pub session_id: String,
    pub cursor: Option<String>,
    pub limit: u32,
}

#[derive(Debug, Clone, PartialEq, Eq)]
pub struct FindingItem {
    pub id: String,
    pub path: String,
    pub size_bytes: u64,
    pub category: String,
    pub action_kind: String,
}

#[derive(Debug, Clone, PartialEq, Eq)]
pub struct FindingsPage {
    pub session_id: String,
    pub items: Vec<FindingItem>,
    pub next_cursor: Option<String>,
    pub total_estimated: u64,
}

#[derive(Debug, Clone, PartialEq, Eq)]
pub struct FetchFolderAggregateArgs {
    pub session_id: String,
    pub path: String,
}

#[derive(Debug, Clone, PartialEq, Eq)]
pub struct FolderAggregateEntry {
    pub name: String,
    pub path: String,
    pub size_bytes: u64,
    pub file_count: u64,
    pub is_dir: bool,
}

#[derive(Debug, Clone, PartialEq, Eq)]
pub struct FolderAggregate {
    pub path: String,
    pub total_size_bytes: u64,
    pub file_count: u64,
    pub children: Vec<FolderAggregateEntry>,
}

#[derive(Debug, Clone, PartialEq, Eq)]
pub struct ApplicationEntry {
    pub bundle_id: String,
    pub name: String,
    pub install_path: String,
    pub size_bytes: u64,
}

#[derive(Debug, Clone, PartialEq, Eq)]
pub struct ApplicationInventory {
    pub applications: Vec<ApplicationEntry>,
}

/// Where a scan's events go.
pub trait ScanEventSink {
    fn emit_progress(&mut self, payload: ScanProgressPayload);

    fn emit_warning(&mut self, payload: CoverageWarningPayload);

    fn emit_terminal(&mut self, payload: TerminalCompletionPayload);
}

/// The roots a scan walks: those requested, or, when none is requested, the platform's
/// default roots; a failure to report them is an unsupported-feature error.
pub open spec fn scan_roots_outcome(requested: Seq<String>, defaults: Result<Vec<ScanRoot>, PlatformError>) -> Result<
    Seq<Seq<char>>,
    (Seq<char>, Seq<char>),
> {
    if requested.len() > 0 {
        Ok(requested.map_values(|s: String| s@))
    } else {
        match defaults {
            Ok(rs) => Ok(rs@.map_values(|r: ScanRoot| r.path@)),
            Err(e) => Err(("start_scan"@, "failed to resolve default roots: "@ + e.spec_message())),
        }
    }
}

pub open spec fn unsupported_view(e: CommandError) -> Option<(Seq<char>, Seq<char>)> {
    match e {
        CommandError::Unsupported { feature, reason } => Some((feature@, reason@)),
        _ => None,
    }
}

/// The roots a scan walks, from the request and the platform's default roots.
pub fn resolve_scan_roots(
    requested: &Vec<String>,
    defaults: &Result<Vec<ScanRoot>, PlatformError>,
) -> (r: Result<Vec<String>, CommandError>)
    ensures
        match scan_roots_outcome(requested@, *defaults) {
            Ok(roots) => r matches Ok(v) && v@.map_values(|s: String| s@) == roots,
            Err(why) => r matches Err(e) && unsupported_view(e) == Some(why),
        },
{
    if requested.len() > 0 {
        let mut out: Vec<String> = Vec::new();
        let mut i: usize = 0;
        while i < requested.len()
            invariant
                i <= requested@.len(),
                out@.len() == i,
                forall|j: int| 0 <= j < i ==> (#[trigger] out@[j])@ == requested@[j]@,
            decreases requested@.len() - i,
        {
            out.push(requested[i].clone());
            i = i + 1;
        }
        assert(out@.map_values(|s: String| s@) =~= requested@.map_values(|s: String| s@));
        return Ok(out);
    }
    match defaults {
        Ok(rs) => {
            let mut out: Vec<String> = Vec::new();
            let mut i: usize = 0;
            while i < rs.len()
                invariant
                    i <= rs@.len(),
                    out@.len() == i,
                    forall|j: int| 0 <= j < i ==> (#[trigger] out@[j])@ == rs@[j].path@,
                decreases rs@.len() - i,
            {
                out.push(rs[i].path.clone());
                i = i + 1;
            }
            assert(out@.map_values(|s: String| s@) =~= rs@.map_values(|r: ScanRoot| r.path@));
            Ok(out)
        },
        Err(e) => Err(
            CommandError::Unsupported {
                feature: owned("start_scan"),
                reason: concat2("failed to resolve default roots: ", e.message().as_str()),
            },
        ),
    }
}

/// The roots a scan walks, asking the platform for its defaults only when none is requested.
pub fn scan_roots<A: PlatformAdapter>(requested: &Vec<String>, adapter: &A) -> (r: Result<Vec<String>, CommandError>)
    ensures
        requested@.len() > 0 ==> (r matches Ok(v) && v@.map_values(|s: String| s@) == requested@.map_values(|s: String| s@)),
        requested@.len() == 0 ==> exists|defaults: Result<Vec<ScanRoot>, PlatformError>|
            adapter.reports_default_roots(defaults) && match #[trigger] scan_roots_outcome(requested@, defaults) {
                Ok(roots) => r matches Ok(v) && v@.map_values(|s: String| s@) == roots,
                Err(why) => r matches Err(e) && unsupported_view(e) == Some(why),
            },
{
    if requested.len() > 0 {
        resolve_scan_roots(requested, &Ok(Vec::new()))
    } else {
        let defaults = adapter.default_scan_roots();
        let r = resolve_scan_roots(requested, &defaults);
        assert(match scan_roots_outcome(requested@, defaults) {
            Ok(roots) => r matches Ok(v) && v@.map_values(|s: String| s@) == roots,
            Err(why) => r matches Err(e) && unsupported_view(e) == Some(why),
        });
        r
    }
}

/// The roots joined with `;`, as a session records them.
pub open spec fn joined(roots: Seq<Seq<char>>) -> Seq<char>
    decreases roots.len(),
{
    if roots.len() == 0 {
        Seq::empty()
    } else if roots.len() == 1 {
        roots[0]
    } else {
        joined(roots.drop_last()) + ";"@ + roots.last()
    }
}

pub fn join_roots(roots: &Vec<String>) -> (s: String)
    ensures
        s@ == joined(roots@.map_values(|r: String| r@)),
{
    let ghost rv = roots@.map_values(|r: String| r@);
    let mut s = String::new();
    let mut i: usize = 0;
    while i < roots.len()
        invariant
            rv == roots@.map_values(|r: String| r@),
            i <= roots@.len(),
            s@ == joined(rv.subrange(0, i as int)),
        decreases roots@.len() - i,
    {
        assert(rv.subrange(0, i + 1).drop_last() =~= rv.subrange(0, i as int));
        if i == 0 {
            s = roots[0].clone();
            assert(rv.subrange(0, 1).len() == 1);
        } else {
            s = concat3(s.as_str(), ";", roots[i].as_str());
        }
        i = i + 1;
    }
    assert(rv.subrange(0, rv.len() as int) =~= rv);
    s
}

/// The identifier a scan gives the finding for an entry.
pub fn scan_finding_id(session_id: &str, inode: u64) -> (s: String)
    ensures
        s@ == session_id@ + "-"@ + decimal(inode as nat),
{
    concat3(session_id, "-", u64_to_decimal(inode).as_str())
}

/// How a scan session is recorded as ending: completed when its coverage is complete,
/// cancelled otherwise.
pub fn scan_status(coverage: &CoverageSummary) -> (s: &'static str)
    ensures
        s@ == (if coverage.is_complete { "completed"@ } else { "cancelled"@ }),
{
    if coverage.is_complete {
        "completed"
    } else {
        "cancelled"
    }
}

/// The final event of a scan.
pub fn terminal_payload(session_id: String, coverage: &CoverageSummary) -> (p: TerminalCompletionPayload)
    ensures
        p.session_id == session_id,
        p.status == (if coverage.is_complete { TerminalStatus::Completed } else { TerminalStatus::Cancelled }),
        p.total_items == coverage.items_scanned,
        p.total_bytes == coverage.total_allocated_bytes,
        p.summary_message@ == "Scan "@ + (if coverage.is_complete { "completed"@ } else { "cancelled"@ }) + " with "@
            + decimal(coverage.items_scanned as nat) + " items and "@ + decimal(coverage.total_allocated_bytes as nat)
            + " bytes"@,
{
    let status = scan_status(coverage);
    let a = concat3("Scan ", status, " with ");
    let b = concat3(a.as_str(), u64_to_decimal(coverage.items_scanned).as_str(), " items and ");
    let message = concat3(b.as_str(), u64_to_decimal(coverage.total_allocated_bytes).as_str(), " bytes");
    TerminalCompletionPayload {
        session_id,
        status: if coverage.is_complete {
            TerminalStatus::Completed
        } else {
            TerminalStatus::Cancelled
        },
        total_items: coverage.items_scanned,
        total_bytes: coverage.total_allocated_bytes,
        summary_message: message,
    }
}

/// The header returned when a scan starts.
pub fn session_header(session_id: String, started_at_ms: u64, roots: Vec<String>) -> (h: ScanSessionHeader)
    ensures
        h.session_id == session_id,
        h.started_at_ms == started_at_ms,
        h.roots == roots,
{
    ScanSessionHeader { session_id, started_at_ms, roots }
}

/// Cancels a scan by session; reports whether a scan with that session was registered.
pub fn cancel_scan(args: CancelScanArgs, cancellations: &CancellationRegistry) -> (r: Result<CancelScanResult, CommandError>)
    ensures
        r matches Ok(res) && res.session_id == args.session_id && res.cancelled == cancellations.is_registered(
            args.session_id@,
        ),
{
    let cancelled = cancellations.cancel(args.session_id.as_str());
    Ok(CancelScanResult { session_id: args.session_id, cancelled })
}

/// Folder aggregation is not offered yet.
pub fn fetch_folder_aggregate(args: FetchFolderAggregateArgs) -> (r: Result<FolderAggregate, CommandError>)
    ensures
        r matches Err(e) && unsupported_view(e) == Some(
            ("fetch_folder_aggregate"@, "Folder aggregation is not implemented in this milestone"@),
        ),
{
    Err(
        CommandError::Unsupported {
            feature: owned("fetch_folder_aggregate"),
            reason: owned("Folder aggregation is not implemented in this milestone"),
        },
    )
}

/// Application inventory is not offered yet.
pub fn fetch_application_inventory() -> (r: Result<ApplicationInventory, CommandError>)
    ensures
        r matches Err(e) && unsupported_view(e) == Some(
            ("fetch_application_inventory"@, "Application inventory discovery is not implemented in this milestone"@),
        ),
{
    Err(
        CommandError::Unsupported {
            feature: owned("fetch_application_inventory"),
            reason: owned("Application inventory discovery is not implemented in this milestone"),
        },
    )
}

} // verus!
