//! Operation history: what each execution recorded, which trashed items can still be
//! restored and why not, the checks a restore must pass, and the lifetime totals that
//! keep bytes pending in the Trash apart from bytes permanently reclaimed.

use vstd::prelude::*;
use crate::boundary::destructive::{ActionMode, ExecutionLedger, ItemOutcomeRecord, ItemOutcomeStatus};
use crate::boundary::error::CommandError;
use crate::boundary::plan::PlanItemDetail;
use crate::classify::protected::ProtectedReason;
use crate::platform::{FileIdentity, PlatformError};
use crate::text::{ascii_lower, clone_opt, concat2, concat3, decimal, owned, push_char, str_chars, str_eq, u64_to_decimal};

verus! {

#[derive(Debug, Clone, PartialEq, Eq)]
pub struct FetchHistoryOperationsArgs {
    pub outcome_filter: Option<String>,
    pub date_from_ms: Option<u64>,
    pub date_to_ms: Option<u64>,
}

#[derive(Debug, Clone, PartialEq, Eq)]
pub struct HistoryOperationSummary {
    pub id: String,
    pub plan_id: String,
    pub action_mode: ActionMode,
    pub created_at_ms: u64,
    pub completed_at_ms: u64,
    pub succeeded_items: u64,
    pub failed_items: u64,
    pub skipped_items: u64,
    pub blocked_items: u64,
    pub vanished_items: u64,
    pub permission_denied_items: u64,
    pub bytes_pending_trash: u64,
    pub bytes_permanently_reclaimed: u64,
    pub total_items: u64,
}

#[derive(Debug, Clone, PartialEq, Eq)]
pub struct FetchOperationDetailArgs {
    pub operation_id: String,
    pub outcome_filter: Option<String>,
}

/// Whether a trashed item can be restored, and why not.
#[derive(Debug, Clone, PartialEq, Eq)]
pub enum RestoreEligibility {
    Eligible {
        trashed_path: String,
        original_destination: String,
        destination_occupied: bool,
        suggested_alternate_destination: Option<String>,
    },
    Ineligible { reason: String },
    Restored { restored_to_path: String, restored_at_ms: u64 },
}

#[derive(Debug, Clone, PartialEq, Eq)]
pub struct TrashHistoryItemDetail {
    pub operation_item_id: String,
    pub item_id: String,
    pub original_path: String,
    pub trashed_path: Option<String>,
    pub size_bytes: u64,
    pub status: ItemOutcomeStatus,
    pub bytes_pending_trash: u64,
    pub error_message: Option<String>,
    pub created_at_ms: u64,
    pub restore_eligibility: RestoreEligibility,
}

#[derive(Debug, Clone, PartialEq, Eq)]
pub struct PermanentDeleteHistoryItemDetail {
    pub operation_item_id: String,
    pub item_id: String,
    pub original_path: String,
    pub size_bytes: u64,
    pub status: ItemOutcomeStatus,
    pub bytes_permanently_reclaimed: u64,
    pub error_message: Option<String>,
    pub created_at_ms: u64,
}

/// A history item: a permanently deleted item has no restore information at all.
#[derive(Debug, Clone, PartialEq, Eq)]
pub enum HistoryItemDetail {
    Trash(TrashHistoryItemDetail),
    PermanentDelete(PermanentDeleteHistoryItemDetail),
}

#[derive(Debug, Clone, PartialEq, Eq)]
pub struct HistoryOperationDetail {
    pub operation: HistoryOperationSummary,
    pub items: Vec<HistoryItemDetail>,
}

#[derive(Debug, Clone, PartialEq, Eq)]
pub struct RestoreItemArgs {
    pub operation_item_id: String,
    pub alternate_destination: Option<String>,
}

#[derive(Debug, Clone, PartialEq, Eq)]
pub struct RestoreItemSummary {
    pub restore_id: String,
    pub operation_item_id: String,
    pub restored_to_path: String,
    pub size_bytes: u64,
    pub restored_at_ms: u64,
}

#[derive(Debug, Clone, PartialEq, Eq)]
pub struct LifetimeReclamationTotals {
    pub pending_in_trash_bytes: u64,
    pub permanently_reclaimed_bytes: u64,
}

/// An item of an operation as recorded.
#[derive(Debug, Clone, PartialEq, Eq)]
pub struct PersistedOperationItem {
    pub id: String,
    pub operation_id: String,
    pub item_id: String,
    pub original_path: String,
    pub canonical_path: String,
    pub trashed_path: Option<String>,
    pub device_id: u64,
    pub inode: u64,
    pub size_bytes: u64,
    pub status: ItemOutcomeStatus,
    pub bytes_pending_trash: u64,
    pub bytes_permanently_reclaimed: u64,
    pub error_message: Option<String>,
    pub created_at_ms: u64,
}

// ---------------------------------------------------------------------------
// Stored names
// ---------------------------------------------------------------------------

/// The name an action mode is stored under.
pub fn action_mode_name(mode: ActionMode) -> (s: &'static str)
    ensures
        s@ == (match mode {
            ActionMode::Trash => "Trash"@,
            ActionMode::PermanentDelete => "PermanentDelete"@,
        }),
{
    match mode {
        ActionMode::Trash => "Trash",
        ActionMode::PermanentDelete => "PermanentDelete",
    }
}

/// The action mode a stored name denotes: permanent deletion only for its exact name.
pub fn action_mode_from_name(name: &str) -> (m: ActionMode)
    ensures
        m == (if name@ == "PermanentDelete"@ {
            ActionMode::PermanentDelete
        } else {
            ActionMode::Trash
        }),
{
    if str_eq(name, "PermanentDelete") {
        ActionMode::PermanentDelete
    } else {
        ActionMode::Trash
    }
}

/// The name an outcome status is stored under.
pub open spec fn status_name_spec(s: ItemOutcomeStatus) -> Seq<char> {
    match s {
        ItemOutcomeStatus::Succeeded => "Succeeded"@,
        ItemOutcomeStatus::Failed => "Failed"@,
        ItemOutcomeStatus::SkippedProtected => "SkippedProtected"@,
        ItemOutcomeStatus::BlockedChanged => "BlockedChanged"@,
        ItemOutcomeStatus::Vanished => "Vanished"@,
        ItemOutcomeStatus::PermissionDenied => "PermissionDenied"@,
        ItemOutcomeStatus::Unattempted => "Unattempted"@,
    }
}

pub fn status_name(s: ItemOutcomeStatus) -> (n: &'static str)
    ensures
        n@ == status_name_spec(s),
{
    match s {
        ItemOutcomeStatus::Succeeded => "Succeeded",
        ItemOutcomeStatus::Failed => "Failed",
        ItemOutcomeStatus::SkippedProtected => "SkippedProtected",
        ItemOutcomeStatus::BlockedChanged => "BlockedChanged",
        ItemOutcomeStatus::Vanished => "Vanished",
        ItemOutcomeStatus::PermissionDenied => "PermissionDenied",
        ItemOutcomeStatus::Unattempted => "Unattempted",
    }
}

/// The status a stored name denotes; an unknown name reads as `Failed`.
pub fn status_from_name(name: &str) -> (s: ItemOutcomeStatus)
    ensures
        (exists|t: ItemOutcomeStatus| status_name_spec(t) == name@) ==> status_name_spec(s) == name@,
        !(exists|t: ItemOutcomeStatus| status_name_spec(t) == name@) ==> s == ItemOutcomeStatus::Failed,
{
    if str_eq(name, "Succeeded") {
        assert(status_name_spec(ItemOutcomeStatus::Succeeded) == name@);
        ItemOutcomeStatus::Succeeded
    } else if str_eq(name, "SkippedProtected") {
        assert(status_name_spec(ItemOutcomeStatus::SkippedProtected) == name@);
        ItemOutcomeStatus::SkippedProtected
    } else if str_eq(name, "BlockedChanged") {
        assert(status_name_spec(ItemOutcomeStatus::BlockedChanged) == name@);
        ItemOutcomeStatus::BlockedChanged
    } else if str_eq(name, "Vanished") {
        assert(status_name_spec(ItemOutcomeStatus::Vanished) == name@);
        ItemOutcomeStatus::Vanished
    } else if str_eq(name, "PermissionDenied") {
        assert(status_name_spec(ItemOutcomeStatus::PermissionDenied) == name@);
        ItemOutcomeStatus::PermissionDenied
    } else if str_eq(name, "Unattempted") {
        assert(status_name_spec(ItemOutcomeStatus::Unattempted) == name@);
        ItemOutcomeStatus::Unattempted
    } else {
        proof {
            if exists|t: ItemOutcomeStatus| status_name_spec(t) == name@ {
                let t = choose|t: ItemOutcomeStatus| status_name_spec(t) == name@;
                assert(t == ItemOutcomeStatus::Failed);
            }
        }
        ItemOutcomeStatus::Failed
    }
}

// ---------------------------------------------------------------------------
// Outcome filters
// ---------------------------------------------------------------------------

/// Which outcomes a filter word selects.
#[derive(Debug, Clone, Copy, PartialEq, Eq, Structural)]
pub enum OutcomeFilter {
    Succeeded,
    Failed,
    Skipped,
    Blocked,
    Everything,
}

/// Lower-casing as far as it decides equality with a lower-case ASCII word: ASCII
/// capitals, and the Kelvin sign, the one other character that lower-cases to an ASCII
/// letter (`k`).
pub open spec fn fold_for_match(c: char) -> char {
    if c == '\u{212A}' {
        'k'
    } else {
        ascii_lower(c)
    }
}

pub open spec fn folded(s: Seq<char>) -> Seq<char> {
    s.map_values(|c: char| fold_for_match(c))
}

/// The filter a word names, compared without regard to case; any other word selects
/// everything.
pub open spec fn filter_for(word: Seq<char>) -> OutcomeFilter {
    if folded(word) == "succeeded"@ {
        OutcomeFilter::Succeeded
    } else if folded(word) == "failed"@ {
        OutcomeFilter::Failed
    } else if folded(word) == "skipped"@ {
        OutcomeFilter::Skipped
    } else if folded(word) == "blocked"@ {
        OutcomeFilter::Blocked
    } else {
        OutcomeFilter::Everything
    }
}

fn fold_char(c: char) -> (d: char)
    ensures
        d == fold_for_match(c),
{
    if c == '\u{212A}' {
        'k'
    } else {
        crate::text::ascii_lower_char(c)
    }
}

/// The filter a word names.
pub fn parse_outcome_filter(word: &str) -> (f: OutcomeFilter)
    ensures
        f == filter_for(word@),
{
    let cs = str_chars(word);
    let mut out = String::new();
    let mut i: usize = 0;
    while i < cs.len()
        invariant
            cs@ == word@,
            i <= cs@.len(),
            out@ == folded(word@.subrange(0, i as int)),
        decreases cs@.len() - i,
    {
        push_char(&mut out, fold_char(cs[i]));
        i = i + 1;
        assert(out@ =~= folded(word@.subrange(0, i as int)));
    }
    assert(word@.subrange(0, word@.len() as int) =~= word@);
    if str_eq(out.as_str(), "succeeded") {
        OutcomeFilter::Succeeded
    } else if str_eq(out.as_str(), "failed") {
        OutcomeFilter::Failed
    } else if str_eq(out.as_str(), "skipped") {
        OutcomeFilter::Skipped
    } else if str_eq(out.as_str(), "blocked") {
        OutcomeFilter::Blocked
    } else {
        OutcomeFilter::Everything
    }
}

/// Whether an item's outcome passes a filter: failures include permission refusals, and
/// blocked items include vanished ones.
pub open spec fn status_selected(f: OutcomeFilter, s: ItemOutcomeStatus) -> bool {
    match f {
        OutcomeFilter::Succeeded => s == ItemOutcomeStatus::Succeeded,
        OutcomeFilter::Failed => s == ItemOutcomeStatus::Failed || s == ItemOutcomeStatus::PermissionDenied,
        OutcomeFilter::Skipped => s == ItemOutcomeStatus::SkippedProtected,
        OutcomeFilter::Blocked => s == ItemOutcomeStatus::BlockedChanged || s == ItemOutcomeStatus::Vanished,
        OutcomeFilter::Everything => true,
    }
}

pub fn item_selected(filter: &Option<String>, status: ItemOutcomeStatus) -> (b: bool)
    ensures
        b == match *filter {
            None => true,
            Some(w) => status_selected(filter_for(w@), status),
        },
{
    match filter {
        None => true,
        Some(w) => match parse_outcome_filter(w.as_str()) {
            OutcomeFilter::Succeeded => status == ItemOutcomeStatus::Succeeded,
            OutcomeFilter::Failed => status == ItemOutcomeStatus::Failed || status
                == ItemOutcomeStatus::PermissionDenied,
            OutcomeFilter::Skipped => status == ItemOutcomeStatus::SkippedProtected,
            OutcomeFilter::Blocked => status == ItemOutcomeStatus::BlockedChanged || status
                == ItemOutcomeStatus::Vanished,
            OutcomeFilter::Everything => true,
        },
    }
}

/// Whether an operation passes a filter: it has at least one item of a selected outcome.
pub open spec fn operation_selected(f: OutcomeFilter, op: HistoryOperationSummary) -> bool {
    match f {
        OutcomeFilter::Succeeded => op.succeeded_items > 0,
        OutcomeFilter::Failed => op.failed_items > 0 || op.permission_denied_items > 0,
        OutcomeFilter::Skipped => op.skipped_items > 0,
        OutcomeFilter::Blocked => op.blocked_items > 0 || op.vanished_items > 0,
        OutcomeFilter::Everything => true,
    }
}

/// The query for the operations a history request selects, and its parameters: the
/// date bounds, when given, then the outcome condition; newest first.
pub fn operations_query(args: &FetchHistoryOperationsArgs) -> (r: (String, Vec<u64>))
    ensures
        r.1@ == (match args.date_from_ms {
            Some(f) => seq![f],
            None => Seq::empty(),
        }) + (match args.date_to_ms {
            Some(t) => seq![t],
            None => Seq::empty(),
        }),
{
    let mut sql = owned(
        "SELECT id, plan_id, action_mode, created_at_ms, completed_at_ms, succeeded_items, failed_items, skipped_items, blocked_items, vanished_items, permission_denied_items, bytes_pending_trash, bytes_permanently_reclaimed FROM operations WHERE 1=1",
    );
    let mut params: Vec<u64> = Vec::new();
    match args.date_from_ms {
        Some(f) => {
            sql = concat2(sql.as_str(), " AND created_at_ms >= ?");
            params.push(f);
        },
        None => {},
    }
    match args.date_to_ms {
        Some(t) => {
            sql = concat2(sql.as_str(), " AND created_at_ms <= ?");
            params.push(t);
        },
        None => {},
    }
    match &args.outcome_filter {
        Some(w) => match parse_outcome_filter(w.as_str()) {
            OutcomeFilter::Failed => {
                sql = concat2(sql.as_str(), " AND (failed_items > 0 OR permission_denied_items > 0)");
            },
            OutcomeFilter::Succeeded => {
                sql = concat2(sql.as_str(), " AND succeeded_items > 0");
            },
            OutcomeFilter::Skipped => {
                sql = concat2(sql.as_str(), " AND skipped_items > 0");
            },
            OutcomeFilter::Blocked => {
                sql = concat2(sql.as_str(), " AND (blocked_items > 0 OR vanished_items > 0)");
            },
            OutcomeFilter::Everything => {},
        },
        None => {},
    }
    sql = concat2(sql.as_str(), " ORDER BY created_at_ms DESC");
    proof {
        match args.date_from_ms {
            Some(f) => {},
            None => {},
        }
        assert(params@ =~= (match args.date_from_ms {
            Some(f) => seq![f],
            None => Seq::<u64>::empty(),
        }) + (match args.date_to_ms {
            Some(t) => seq![t],
            None => Seq::<u64>::empty(),
        }));
    }
    (sql, params)
}

/// The total item count of a stored operation: the sum of its outcome counts.
pub fn stored_total_items(
    succeeded: u64,
    failed: u64,
    skipped: u64,
    blocked: u64,
    vanished: u64,
    permission_denied: u64,
) -> (t: u64)
    requires
        succeeded + failed + skipped + blocked + vanished + permission_denied <= u64::MAX,
    ensures
        t == succeeded + failed + skipped + blocked + vanished + permission_denied,
{
    succeeded + failed + skipped + blocked + vanished + permission_denied
}

// ---------------------------------------------------------------------------
// Restore eligibility
// ---------------------------------------------------------------------------

/// What the filesystem and the records say about a trashed item now.
#[derive(Debug)]
pub struct TrashObservation {
    /// The latest successful restore of the item, if any: where to, and when.
    pub already_restored: Option<(String, u64)>,
    /// Something (even a dangling link) is at the recorded trash path.
    pub trashed_exists: bool,
    /// The identity read at the trash path.
    pub trashed_identity: Result<FileIdentity, PlatformError>,
    /// Something (even a dangling link) is at the original path.
    pub destination_occupied: bool,
    /// A free path next to the original, offered when the original is occupied.
    pub suggested_alternate: Option<String>,
}

pub open spec fn identity_mismatch_reason(item: PersistedOperationItem, found: FileIdentity) -> Seq<char> {
    "File identity in Trash changed (expected device "@ + decimal(item.device_id as nat) + " inode "@
        + decimal(item.inode as nat) + ", got device "@ + decimal(found.device_id as nat) + " inode "@
        + decimal(found.inode as nat) + ")"@
}

pub open spec fn status_debug(s: ItemOutcomeStatus) -> Seq<char> {
    status_name_spec(s)
}

/// Whether a trashed item can be restored, in this order: an item already restored is
/// reported as restored; one that did not reach the Trash, has no recorded trash path, is
/// no longer in the Trash, or whose identity there cannot be read or changed, is
/// ineligible with the stated reason; otherwise it is eligible, with the occupancy of its
/// original path and, when occupied, a suggested alternate.
pub open spec fn eligibility_holds(e: RestoreEligibility, item: PersistedOperationItem, obs: TrashObservation) -> bool {
    match obs.already_restored {
        Some((to, at)) => e == RestoreEligibility::Restored { restored_to_path: to, restored_at_ms: at },
        None => if item.status != ItemOutcomeStatus::Succeeded {
            e matches RestoreEligibility::Ineligible { reason } && reason@
                == "Item was not successfully moved to Trash (status: "@ + status_debug(item.status)
                + ")"@
        } else {
            match item.trashed_path {
                None => e matches RestoreEligibility::Ineligible { reason } && reason@
                    == "No trash location recorded for this item"@,
                Some(t) => if !obs.trashed_exists {
                    e matches RestoreEligibility::Ineligible { reason } && reason@
                        == "Item is no longer in Trash (emptied from Trash or moved)"@
                } else {
                    match obs.trashed_identity {
                        Err(err) => e matches RestoreEligibility::Ineligible { reason } && reason@
                            == "Cannot read file identity in Trash: "@ + err.spec_message(),
                        Ok(id) => if id.device_id != item.device_id || id.inode != item.inode {
                            e matches RestoreEligibility::Ineligible { reason } && reason@
                                == identity_mismatch_reason(item, id)
                        } else {
                            e == RestoreEligibility::Eligible {
                                trashed_path: t,
                                original_destination: item.original_path,
                                destination_occupied: obs.destination_occupied,
                                suggested_alternate_destination: if obs.destination_occupied {
                                    obs.suggested_alternate
                                } else {
                                    None
                                },
                            }
                        },
                    }
                },
            }
        },
    }
}

fn ineligible(reason: String) -> (e: RestoreEligibility)
    ensures
        e matches RestoreEligibility::Ineligible { reason: r } && r == reason,
{
    RestoreEligibility::Ineligible { reason }
}

/// Decides whether a trashed item can be restored.
pub fn compute_restore_eligibility(item: &PersistedOperationItem, obs: &TrashObservation) -> (e: RestoreEligibility)
    ensures
        eligibility_holds(e, *item, *obs),
{
    match &obs.already_restored {
        Some((to, at)) => {
            return RestoreEligibility::Restored { restored_to_path: to.clone(), restored_at_ms: *at };
        },
        None => {},
    }
    if item.status != ItemOutcomeStatus::Succeeded {
        let r = concat3("Item was not successfully moved to Trash (status: ", status_name(item.status), ")");
        return ineligible(r);
    }
    let trashed = match &item.trashed_path {
        Some(t) => t,
        None => {
            return ineligible(owned("No trash location recorded for this item"));
        },
    };
    if !obs.trashed_exists {
        return ineligible(owned("Item is no longer in Trash (emptied from Trash or moved)"));
    }
    let id = match &obs.trashed_identity {
        Err(err) => {
            return ineligible(concat2("Cannot read file identity in Trash: ", err.message().as_str()));
        },
        Ok(id) => *id,
    };
    if id.device_id != item.device_id || id.inode != item.inode {
        let a = concat3(
            "File identity in Trash changed (expected device ",
            u64_to_decimal(item.device_id).as_str(),
            " inode ",
        );
        let b = concat3(a.as_str(), u64_to_decimal(item.inode).as_str(), ", got device ");
        let c = concat3(b.as_str(), u64_to_decimal(id.device_id).as_str(), " inode ");
        let d = concat3(c.as_str(), u64_to_decimal(id.inode).as_str(), ")");
        return ineligible(d);
    }
    RestoreEligibility::Eligible {
        trashed_path: trashed.clone(),
        original_destination: item.original_path.clone(),
        destination_occupied: obs.destination_occupied,
        suggested_alternate_destination: if obs.destination_occupied {
            clone_opt(&obs.suggested_alternate)
        } else {
            None
        },
    }
}

/// The history entry for a recorded item: a Trash operation's item carries its restore
/// eligibility; a permanent deletion's item carries none.
pub fn history_item_detail(
    mode: ActionMode,
    item: PersistedOperationItem,
    eligibility: RestoreEligibility,
) -> (d: HistoryItemDetail)
    ensures
        match mode {
            ActionMode::Trash => d == HistoryItemDetail::Trash(
                TrashHistoryItemDetail {
                    operation_item_id: item.id,
                    item_id: item.item_id,
                    original_path: item.original_path,
                    trashed_path: item.trashed_path,
                    size_bytes: item.size_bytes,
                    status: item.status,
                    bytes_pending_trash: item.bytes_pending_trash,
                    error_message: item.error_message,
                    created_at_ms: item.created_at_ms,
                    restore_eligibility: eligibility,
                },
            ),
            ActionMode::PermanentDelete => d == HistoryItemDetail::PermanentDelete(
                PermanentDeleteHistoryItemDetail {
                    operation_item_id: item.id,
                    item_id: item.item_id,
                    original_path: item.original_path,
                    size_bytes: item.size_bytes,
                    status: item.status,
                    bytes_permanently_reclaimed: item.bytes_permanently_reclaimed,
                    error_message: item.error_message,
                    created_at_ms: item.created_at_ms,
                },
            ),
        },
{
    match mode {
        ActionMode::Trash => HistoryItemDetail::Trash(
            TrashHistoryItemDetail {
                operation_item_id: item.id,
                item_id: item.item_id,
                original_path: item.original_path,
                trashed_path: item.trashed_path,
                size_bytes: item.size_bytes,
                status: item.status,
                bytes_pending_trash: item.bytes_pending_trash,
                error_message: item.error_message,
                created_at_ms: item.created_at_ms,
                restore_eligibility: eligibility,
            },
        ),
        ActionMode::PermanentDelete => HistoryItemDetail::PermanentDelete(
            PermanentDeleteHistoryItemDetail {
                operation_item_id: item.id,
                item_id: item.item_id,
                original_path: item.original_path,
                size_bytes: item.size_bytes,
                status: item.status,
                bytes_permanently_reclaimed: item.bytes_permanently_reclaimed,
                error_message: item.error_message,
                created_at_ms: item.created_at_ms,
            },
        ),
    }
}

// ---------------------------------------------------------------------------
// Restore
// ---------------------------------------------------------------------------

/// What a restore request finds before it moves anything.
#[derive(Debug)]
pub struct RestoreObservation {
    /// The stored action mode of the item's operation.
    pub operation_action_mode: String,
    /// A successful restore of the item is already recorded.
    pub already_restored: bool,
    /// Something (even a dangling link) is at the recorded trash path.
    pub trashed_exists: bool,
    /// The identity read at the trash path.
    pub trashed_identity: Result<FileIdentity, PlatformError>,
    /// Something (even a dangling link) is at the destination.
    pub destination_occupied: bool,
    /// The protected root that covers the destination, if any.
    pub destination_protection: Option<ProtectedReason>,
}

/// Where a restore puts the item: the alternate destination when one is given, else the
/// original path.
pub open spec fn restore_destination(item: PersistedOperationItem, alternate: Option<String>) -> Seq<char> {
    match alternate {
        Some(a) => a@,
        None => item.original_path@,
    }
}

/// The position of the last `.` in `name`, if any.
pub open spec fn last_dot(name: Seq<char>) -> Option<int>
    decreases name.len(),
{
    if name.len() == 0 {
        None
    } else if name.last() == '.' {
        Some(name.len() - 1)
    } else {
        last_dot(name.drop_last())
    }
}

/// A file name split into its stem and its extension (`Path::file_stem`,
/// `Path::extension`): at the last `.`, unless that `.` begins the name or the name is `..`.
pub open spec fn stem_and_extension(name: Seq<char>) -> (Seq<char>, Option<Seq<char>>) {
    if name == seq!['.', '.'] {
        (name, None)
    } else {
        match last_dot(name) {
            Some(i) => if i == 0 {
                (name, None)
            } else {
                (name.subrange(0, i), Some(name.subrange(i + 1, name.len() as int)))
            },
            None => (name, None),
        }
    }
}

/// The text before a path's last name: empty where the path has no name to drop.
pub open spec fn parent_text(path: Seq<char>) -> Seq<char> {
    let comps = crate::paths::components(path);
    if comps.len() > 0 && comps.last() != crate::paths::root_component() {
        crate::paths::drop_last_name(crate::paths::trim_trailing_separators(path))
    } else {
        Seq::empty()
    }
}

/// The name a restored item takes when its own place is occupied: its stem (`restored`
/// where it has none), ` (Restored)` or ` (Restored n)`, and its extension.
pub open spec fn restored_name(original_path: Seq<char>, counter: Option<u64>) -> Seq<char> {
    let (stem, ext) = match crate::paths::file_name(original_path) {
        Some(n) => stem_and_extension(n),
        None => ("restored"@, None),
    };
    let mark = match counter {
        None => " (Restored)"@,
        Some(n) => " (Restored "@ + decimal(n as nat) + ")"@,
    };
    stem + mark + match ext {
        Some(e) => "."@ + e,
        None => Seq::empty(),
    }
}

/// Where an item is suggested to be restored beside its original place: the first
/// suggestion has no counter, the next ones count up from 2.
pub open spec fn restored_candidate(original_path: Seq<char>, counter: Option<u64>) -> Seq<char> {
    crate::paths::path_join(parent_text(original_path), restored_name(original_path, counter))
}

fn last_dot_exec(cs: &Vec<char>) -> (r: Option<usize>)
    ensures
        match r {
            Some(i) => i < cs@.len() && last_dot(cs@) == Some(i as int),
            None => last_dot(cs@) is None,
        },
{
    let mut n: usize = cs.len();
    assert(cs@.subrange(0, cs@.len() as int) =~= cs@);
    while n > 0
        invariant
            n <= cs@.len(),
            last_dot(cs@) == last_dot(cs@.subrange(0, n as int)),
        decreases n,
    {
        assert(cs@.subrange(0, n as int).drop_last() =~= cs@.subrange(0, n - 1));
        if cs[n - 1] == '.' {
            return Some(n - 1);
        }
        n = n - 1;
    }
    None
}

/// A place beside the original for a restored item, for the given attempt.
pub fn suggest_non_colliding_path(original_path: &str, counter: Option<u64>) -> (p: String)
    ensures
        p@ == restored_candidate(original_path@, counter),
{
    proof {
        reveal_strlit(".");
    }
    let (stem, ext): (Vec<char>, Option<Vec<char>>) = match crate::paths::file_name_of(original_path) {
        Some(n) => {
            let cs = str_chars(&n);
            if cs.len() == 2 && cs[0] == '.' && cs[1] == '.' {
                assert(cs@ =~= seq!['.', '.']);
                (cs, None)
            } else {
                proof {
                    if cs@ == seq!['.', '.'] {
                        assert(cs@[0] == '.' && cs@[1] == '.');
                    }
                }
                match last_dot_exec(&cs) {
                    Some(i) => {
                        if i == 0 {
                            (cs, None)
                        } else {
                            let stem = crate::text::chars_range(cs.as_slice(), 0, i);
                            let ext = crate::text::chars_range(cs.as_slice(), i + 1, cs.len());
                            (stem, Some(ext))
                        }
                    },
                    None => (cs, None),
                }
            }
        },
        None => (str_chars("restored"), None),
    };
    let stem_text = crate::text::string_from_chars(stem.as_slice());
    let mark = match counter {
        None => owned(" (Restored)"),
        Some(n) => concat3(" (Restored ", &u64_to_decimal(n), ")"),
    };
    let ext_text = match &ext {
        Some(e) => concat2(".", &crate::text::string_from_chars(e.as_slice())),
        None => String::new(),
    };
    let name = concat3(&stem_text, &mark, &ext_text);
    let comps = crate::paths::path_components(original_path);
    let n = comps.len();
    let has_name = n > 0 && !(comps[n - 1].len() == 1 && comps[n - 1][0] == '/');
    proof {
        if n > 0 {
            assert(crate::paths::vs(comps@).last() == comps@[n - 1]@);
            if comps@[n - 1]@ == crate::paths::root_component() {
                assert(comps@[n - 1]@[0] == '/');
            }
            if comps@[n - 1]@.len() == 1 && comps@[n - 1]@[0] == '/' {
                assert(comps@[n - 1]@ =~= crate::paths::root_component());
            }
        }
    }
    let parent = if has_name {
        let cs = str_chars(original_path);
        let trimmed_len = crate::paths::trim_separators_len(&cs);
        let trimmed = crate::text::chars_range(cs.as_slice(), 0, trimmed_len);
        let parent_len = crate::paths::drop_name_len(&trimmed);
        crate::text::string_from_chars(crate::text::chars_range(trimmed.as_slice(), 0, parent_len).as_slice())
    } else {
        String::new()
    };
    crate::paths::join(&parent, &name)
}

pub fn restore_destination_of(item: &PersistedOperationItem, alternate: &Option<String>) -> (d: String)
    ensures
        d@ == restore_destination(*item, *alternate),
{
    match alternate {
        Some(a) => a.clone(),
        None => item.original_path.clone(),
    }
}

/// The error a restore refuses with, with its texts as character sequences: the kind,
/// then the path or plan identifier, then the reason or details.
pub open spec fn refusal(e: CommandError) -> (int, Seq<char>, Seq<char>) {
    match e {
        CommandError::PermissionDenied { path, reason } => match path {
            Some(p) => (0, p@, reason@),
            None => (4, Seq::empty(), reason@),
        },
        CommandError::PathVanished { path } => (1, path@, Seq::empty()),
        CommandError::ChangedAfterReview { plan_id, details } => (2, plan_id@, details@),
        CommandError::Unsupported { feature, reason } => (3, feature@, reason@),
    }
}

pub open spec fn unsupported_restore(reason: Seq<char>) -> (int, Seq<char>, Seq<char>) {
    (3, "restore_item"@, reason)
}

/// The checks a restore must pass, in order, and the error for the first it fails: the
/// item's operation moved it to the Trash (a permanent deletion can never be restored);
/// it was not restored already; a trash location is recorded and still holds something;
/// its identity there can be read and is unchanged; the destination is free (nothing is
/// ever overwritten); and no protected root covers the destination.
pub open spec fn restore_refusal(
    item: PersistedOperationItem,
    alternate: Option<String>,
    obs: RestoreObservation,
) -> Option<(int, Seq<char>, Seq<char>)> {
    let dest = restore_destination(item, alternate);
    if obs.operation_action_mode@ != "Trash"@ {
        Some(unsupported_restore(
            "Permanently deleted items cannot be restored. History records permanent deletion as audit evidence only; destroyed bytes are unrecoverable."@,
        ))
    } else if obs.already_restored {
        Some(unsupported_restore("Item has already been restored"@))
    } else {
        match item.trashed_path {
            None => Some(unsupported_restore("No trash location recorded for this item"@)),
            Some(t) => if !obs.trashed_exists {
                Some((1, t@, Seq::empty()))
            } else {
                match obs.trashed_identity {
                    Err(err) => Some(unsupported_restore(
                        "Failed to read file identity in Trash: "@ + err.spec_message(),
                    )),
                    Ok(id) => if id.device_id != item.device_id || id.inode != item.inode {
                        Some(
                            (
                                2,
                                item.operation_id@,
                                "File identity in Trash changed: expected device "@ + decimal(
                                    item.device_id as nat,
                                ) + " inode "@ + decimal(item.inode as nat) + ", got device "@
                                    + decimal(id.device_id as nat) + " inode "@ + decimal(
                                    id.inode as nat,
                                ),
                            ),
                        )
                    } else if obs.destination_occupied {
                        Some(
                            (
                                0,
                                dest,
                                "Destination is occupied. Overwriting existing files during restore is strictly prohibited. Choose a non-colliding alternate destination or decline."@,
                            ),
                        )
                    } else {
                        match obs.destination_protection {
                            Some(reason) => Some(
                                (
                                    0,
                                    dest,
                                    "Refusing to restore into protected root '"@ + reason.root_name@
                                        + "' ("@ + reason.description@ + ")"@,
                                ),
                            ),
                            None => None,
                        }
                    },
                }
            },
        }
    }
}

/// Whether a restore still depends on what is observed of the Trash and the destination:
/// only an item moved to the Trash and not restored yet does; any other is refused
/// whatever is observed.
pub fn restore_needs_observation(operation_action_mode: &str, already_restored: bool) -> (r: bool)
    ensures
        r == (operation_action_mode@ == "Trash"@ && !already_restored),
        !r ==> forall|item: PersistedOperationItem, alternate: Option<String>, obs: RestoreObservation|
            obs.operation_action_mode@ == operation_action_mode@ && obs.already_restored == already_restored
                ==> #[trigger] restore_refusal(item, alternate, obs) is Some,
{
    str_eq(operation_action_mode, "Trash") && !already_restored
}

fn unsupported(reason: String) -> (e: CommandError)
    ensures
        refusal(e) == unsupported_restore(reason@),
{
    CommandError::Unsupported { feature: owned("restore_item"), reason }
}

/// Checks a restore request; on success returns the trash path to restore from and the
/// destination to restore to.
pub fn check_restore(
    item: &PersistedOperationItem,
    alternate: &Option<String>,
    obs: &RestoreObservation,
) -> (r: Result<(String, String), CommandError>)
    ensures
        match restore_refusal(*item, *alternate, *obs) {
            Some(why) => r matches Err(e) && refusal(e) == why,
            None => r matches Ok((from, to)) && item.trashed_path == Some(from) && to@
                == restore_destination(*item, *alternate),
        },
{
    let dest = restore_destination_of(item, alternate);
    if !str_eq(obs.operation_action_mode.as_str(), "Trash") {
        return Err(
            unsupported(
                owned(
                    "Permanently deleted items cannot be restored. History records permanent deletion as audit evidence only; destroyed bytes are unrecoverable.",
                ),
            ),
        );
    }
    if obs.already_restored {
        return Err(unsupported(owned("Item has already been restored")));
    }
    let trashed = match &item.trashed_path {
        None => {
            return Err(unsupported(owned("No trash location recorded for this item")));
        },
        Some(t) => t,
    };
    if !obs.trashed_exists {
        return Err(CommandError::PathVanished { path: trashed.clone() });
    }
    let id = match &obs.trashed_identity {
        Err(err) => {
            return Err(unsupported(concat2("Failed to read file identity in Trash: ", err.message().as_str())));
        },
        Ok(id) => *id,
    };
    if id.device_id != item.device_id || id.inode != item.inode {
        let a = concat3(
            "File identity in Trash changed: expected device ",
            u64_to_decimal(item.device_id).as_str(),
            " inode ",
        );
        let b = concat3(a.as_str(), u64_to_decimal(item.inode).as_str(), ", got device ");
        let c = concat3(b.as_str(), u64_to_decimal(id.device_id).as_str(), " inode ");
        let d = concat2(c.as_str(), u64_to_decimal(id.inode).as_str());
        return Err(CommandError::ChangedAfterReview { plan_id: item.operation_id.clone(), details: d });
    }
    if obs.destination_occupied {
        return Err(
            CommandError::PermissionDenied {
                path: Some(dest),
                reason: owned(
                    "Destination is occupied. Overwriting existing files during restore is strictly prohibited. Choose a non-colliding alternate destination or decline.",
                ),
            },
        );
    }
    match &obs.destination_protection {
        Some(reason) => {
            let a = concat3("Refusing to restore into protected root '", reason.root_name.as_str(), "' (");
            let text = concat3(a.as_str(), reason.description.as_str(), ")");
            return Err(CommandError::PermissionDenied { path: Some(dest), reason: text });
        },
        None => {},
    }
    Ok((trashed.clone(), dest))
}

/// A restore never overwrites: whenever a restore is allowed, the destination was free
/// and was not covered by a protected root, and the item came from the Trash.
pub proof fn law_restore_never_overwrites(item: PersistedOperationItem, alternate: Option<String>, obs: RestoreObservation)
    requires
        restore_refusal(item, alternate, obs) is None,
    ensures
        !obs.destination_occupied,
        obs.destination_protection is None,
        obs.operation_action_mode@ == "Trash"@,
        !obs.already_restored,
{
}

// ---------------------------------------------------------------------------
// Totals and operation records
// ---------------------------------------------------------------------------

/// The bytes of the items still eligible for restore.
pub open spec fn pending_total(items: Seq<PersistedOperationItem>, eligibility: Seq<RestoreEligibility>) -> nat
    decreases items.len(),
{
    if items.len() == 0 || eligibility.len() != items.len() {
        0
    } else {
        pending_total(items.drop_last(), eligibility.drop_last()) + if eligibility.last() is Eligible {
            items.last().size_bytes as nat
        } else {
            0nat
        }
    }
}

/// The lifetime totals: bytes still pending in the Trash, counted live from what is
/// eligible for restore, kept apart from the bytes permanently reclaimed.
pub fn lifetime_totals(
    trash_items: &Vec<PersistedOperationItem>,
    eligibility: &Vec<RestoreEligibility>,
    permanently_reclaimed_bytes: u64,
) -> (t: LifetimeReclamationTotals)
    requires
        trash_items@.len() == eligibility@.len(),
        pending_total(trash_items@, eligibility@) <= u64::MAX,
    ensures
        t.pending_in_trash_bytes == pending_total(trash_items@, eligibility@),
        t.permanently_reclaimed_bytes == permanently_reclaimed_bytes,
{
    let mut pending: u64 = 0;
    let mut i: usize = 0;
    while i < trash_items.len()
        invariant
            trash_items@.len() == eligibility@.len(),
            i <= trash_items@.len(),
            pending == pending_total(trash_items@.subrange(0, i as int), eligibility@.subrange(0, i as int)),
            pending_total(trash_items@, eligibility@) <= u64::MAX,
        decreases trash_items@.len() - i,
    {
        assert(trash_items@.subrange(0, i + 1).drop_last() =~= trash_items@.subrange(0, i as int));
        assert(eligibility@.subrange(0, i + 1).drop_last() =~= eligibility@.subrange(0, i as int));
        proof {
            lemma_pending_prefix(trash_items@, eligibility@, i + 1);
        }
        match &eligibility[i] {
            RestoreEligibility::Eligible { .. } => {
                pending = pending + trash_items[i].size_bytes;
            },
            _ => {},
        }
        i = i + 1;
    }
    assert(trash_items@.subrange(0, trash_items@.len() as int) =~= trash_items@);
    assert(eligibility@.subrange(0, eligibility@.len() as int) =~= eligibility@);
    LifetimeReclamationTotals { pending_in_trash_bytes: pending, permanently_reclaimed_bytes }
}

proof fn lemma_pending_prefix(items: Seq<PersistedOperationItem>, el: Seq<RestoreEligibility>, n: int)
    requires
        items.len() == el.len(),
        0 <= n <= items.len(),
    ensures
        pending_total(items.subrange(0, n), el.subrange(0, n)) <= pending_total(items, el),
    decreases items.len(),
{
    if n == items.len() {
        assert(items.subrange(0, n) =~= items);
        assert(el.subrange(0, n) =~= el);
    } else {
        lemma_pending_prefix(items.drop_last(), el.drop_last(), n);
        assert(items.drop_last().subrange(0, n) =~= items.subrange(0, n));
        assert(el.drop_last().subrange(0, n) =~= el.subrange(0, n));
    }
}

/// The operation record of an execution: pending bytes only under Trash, reclaimed bytes
/// only under permanent deletion, and protection skips recorded as skipped items.
pub fn operation_summary(
    ledger: &ExecutionLedger,
    operation_id: String,
    plan_id: String,
    mode: ActionMode,
    created_at_ms: u64,
    completed_at_ms: u64,
    total_items: u64,
) -> (s: HistoryOperationSummary)
    ensures
        s.id == operation_id,
        s.plan_id == plan_id,
        s.action_mode == mode,
        s.created_at_ms == created_at_ms,
        s.completed_at_ms == completed_at_ms,
        s.succeeded_items == ledger.succeeded_items,
        s.failed_items == ledger.failed_items,
        s.skipped_items == ledger.skipped_protected,
        s.blocked_items == ledger.blocked_changed,
        s.vanished_items == ledger.vanished_items,
        s.permission_denied_items == ledger.permission_denied_items,
        s.bytes_pending_trash == (if mode == ActionMode::Trash { ledger.bytes_pending_trash } else { 0 }),
        s.bytes_permanently_reclaimed == (if mode == ActionMode::PermanentDelete { ledger.bytes_freed } else { 0 }),
        s.total_items == total_items,
{
    HistoryOperationSummary {
        id: operation_id,
        plan_id,
        action_mode: mode,
        created_at_ms,
        completed_at_ms,
        succeeded_items: ledger.succeeded_items,
        failed_items: ledger.failed_items,
        skipped_items: ledger.skipped_protected,
        blocked_items: ledger.blocked_changed,
        vanished_items: ledger.vanished_items,
        permission_denied_items: ledger.permission_denied_items,
        bytes_pending_trash: match mode {
            ActionMode::Trash => ledger.bytes_pending_trash,
            ActionMode::PermanentDelete => 0,
        },
        bytes_permanently_reclaimed: match mode {
            ActionMode::PermanentDelete => ledger.bytes_freed,
            ActionMode::Trash => 0,
        },
        total_items,
    }
}

/// The first plan item, from position `i` on, with the given identifier.
pub open spec fn plan_item_index(items: Seq<PlanItemDetail>, item_id: Seq<char>, i: int) -> Option<int>
    decreases items.len() - i,
{
    if i < 0 || i >= items.len() {
        None
    } else if items[i].item_id@ == item_id {
        Some(i)
    } else {
        plan_item_index(items, item_id, i + 1)
    }
}

fn plan_item_index_exec(items: &Vec<PlanItemDetail>, item_id: &str) -> (r: Option<usize>)
    ensures
        match r {
            Some(k) => plan_item_index(items@, item_id@, 0) == Some(k as int) && k < items@.len(),
            None => plan_item_index(items@, item_id@, 0) is None,
        },
{
    let mut i: usize = 0;
    while i < items.len()
        invariant
            i <= items@.len(),
            plan_item_index(items@, item_id@, 0) == plan_item_index(items@, item_id@, i as int),
        decreases items@.len() - i,
    {
        if str_eq(items[i].item_id.as_str(), item_id) {
            return Some(i);
        }
        i = i + 1;
    }
    None
}

/// The record kept of one outcome, joined with the plan item it belongs to.
pub open spec fn persisted_from(
    p: PersistedOperationItem,
    id: String,
    operation_id: String,
    item: PlanItemDetail,
    o: ItemOutcomeRecord,
    created_at_ms: u64,
) -> bool {
    &&& p.id == id
    &&& p.operation_id == operation_id
    &&& p.item_id == item.item_id
    &&& p.original_path == item.original_path
    &&& p.canonical_path == item.canonical_path
    &&& p.trashed_path == o.trashed_path
    &&& p.device_id == item.device_id
    &&& p.inode == item.inode
    &&& p.size_bytes == item.size_bytes
    &&& p.status == o.status
    &&& p.bytes_pending_trash == o.bytes_pending_trash
    &&& p.bytes_permanently_reclaimed == o.bytes_reclaimed
    &&& p.error_message == o.error_message
    &&& p.created_at_ms == created_at_ms
}

/// The positions of the outcomes whose item is in the plan, among the first `n`.
pub open spec fn kept_outcomes(outcomes: Seq<ItemOutcomeRecord>, items: Seq<PlanItemDetail>, n: int) -> Seq<int>
    decreases n,
{
    if n <= 0 {
        Seq::empty()
    } else if plan_item_index(items, outcomes[n - 1].item_id@, 0) is Some {
        kept_outcomes(outcomes, items, n - 1).push(n - 1)
    } else {
        kept_outcomes(outcomes, items, n - 1)
    }
}

/// The records kept of an execution's outcomes, one per outcome whose item is in the
/// plan, in outcome order; `record_ids[i]` identifies the record of outcome `i`.
pub fn persisted_items(
    outcomes: &Vec<ItemOutcomeRecord>,
    items: &Vec<PlanItemDetail>,
    operation_id: &String,
    record_ids: &Vec<String>,
    created_at_ms: u64,
) -> (r: Vec<PersistedOperationItem>)
    requires
        record_ids@.len() == outcomes@.len(),
    ensures
        r@.len() == kept_outcomes(outcomes@, items@, outcomes@.len() as int).len(),
        forall|k: int| 0 <= k < r@.len() ==> {
            let i = kept_outcomes(outcomes@, items@, outcomes@.len() as int)[k];
            persisted_from(
                #[trigger] r@[k],
                record_ids@[i],
                *operation_id,
                items@[plan_item_index(items@, outcomes@[i].item_id@, 0)->0],
                outcomes@[i],
                created_at_ms,
            )
        },
{
    let mut out: Vec<PersistedOperationItem> = Vec::new();
    let mut i: usize = 0;
    while i < outcomes.len()
        invariant
            record_ids@.len() == outcomes@.len(),
            i <= outcomes@.len(),
            out@.len() == kept_outcomes(outcomes@, items@, i as int).len(),
            forall|k: int| 0 <= k < out@.len() ==> {
                let a = kept_outcomes(outcomes@, items@, i as int)[k];
                persisted_from(
                    #[trigger] out@[k],
                    record_ids@[a],
                    *operation_id,
                    items@[plan_item_index(items@, outcomes@[a].item_id@, 0)->0],
                    outcomes@[a],
                    created_at_ms,
                )
            },
        decreases outcomes@.len() - i,
    {
        let o = &outcomes[i];
        let ghost before = out@;
        match plan_item_index_exec(items, o.item_id.as_str()) {
            Some(j) => {
                let item = &items[j];
                let p = PersistedOperationItem {
                    id: record_ids[i].clone(),
                    operation_id: operation_id.clone(),
                    item_id: item.item_id.clone(),
                    original_path: item.original_path.clone(),
                    canonical_path: item.canonical_path.clone(),
                    trashed_path: clone_opt(&o.trashed_path),
                    device_id: item.device_id,
                    inode: item.inode,
                    size_bytes: item.size_bytes,
                    status: o.status,
                    bytes_pending_trash: o.bytes_pending_trash,
                    bytes_permanently_reclaimed: o.bytes_reclaimed,
                    error_message: clone_opt(&o.error_message),
                    created_at_ms,
                };
                out.push(p);
                assert forall|k: int| 0 <= k < out@.len() implies {
                    let a = kept_outcomes(outcomes@, items@, i + 1)[k];
                    persisted_from(
                        #[trigger] out@[k],
                        record_ids@[a],
                        *operation_id,
                        items@[plan_item_index(items@, outcomes@[a].item_id@, 0)->0],
                        outcomes@[a],
                        created_at_ms,
                    )
                } by {
                    if k < before.len() {
                        assert(out@[k] == before[k]);
                        assert(kept_outcomes(outcomes@, items@, i + 1)[k] == kept_outcomes(outcomes@, items@, i as int)[k]);
                    }
                }
            },
            None => {
                assert(kept_outcomes(outcomes@, items@, i + 1) == kept_outcomes(outcomes@, items@, i as int));
            },
        }
        i = i + 1;
    }
    out
}

} // verus!
