//! Review plans: admission of findings into an immutable plan, and revalidation of a plan
//! against the filesystem before anything is executed.

use vstd::prelude::*;
use crate::boundary::context::{revalidation_context, StandardDirs};
use crate::boundary::destructive::ActionMode;
use crate::boundary::error::CommandError;
use crate::classify::matcher::MatchContext;
use crate::classify::protected::{
    evaluate_protected_roots, is_protected_item, lemma_protection_ignores_original_path, ProtectedReason,
};
use crate::paths::{path_eq, paths_equal};
use crate::platform::{EntryMetadata, EntryType, FileIdentity, PlatformAdapter, PlatformError, ResolvedPath};
use crate::text::{concat3, eq_ignore_ascii_case, owned, str_eq, str_eq_ignore_ascii_case};

verus! {

#[derive(Debug, Clone, PartialEq, Eq)]
pub struct BuildPlanArgs {
    pub session_id: String,
    pub finding_ids: Vec<String>,
}

#[derive(Debug, Clone, PartialEq, Eq)]
pub struct ReviewPlanHeader {
    pub plan_id: String,
    pub session_id: String,
    pub item_count: u64,
    pub total_bytes: u64,
    pub created_at_ms: u64,
}

#[derive(Debug, Clone, PartialEq, Eq)]
pub struct FetchPlanArgs {
    pub plan_id: String,
}

#[derive(Debug, Clone, PartialEq, Eq)]
pub struct PlanItemSummary {
    pub item_id: String,
    pub original_path: String,
    pub size_bytes: u64,
    pub class_name: String,
    pub action_name: String,
    pub recoverable: bool,
}

#[derive(Debug, Clone, PartialEq, Eq)]
pub struct ReviewPlan {
    pub plan_id: String,
    pub session_id: String,
    pub items: Vec<PlanItemSummary>,
    pub default_action_mode: ActionMode,
    pub created_at_ms: u64,
}

#[derive(Debug, Clone, PartialEq, Eq)]
pub struct RevalidatePlanArgs {
    pub plan_id: String,
}

#[derive(Debug, Clone, PartialEq, Eq)]
pub struct RevalidationResult {
    pub plan_id: String,
    pub is_valid: bool,
    pub stale_item_ids: Vec<String>,
}

/// A plan item as persisted, with the identity it had when the plan was built.
#[derive(Debug, Clone, PartialEq, Eq)]
pub struct PlanItemDetail {
    pub item_id: String,
    pub plan_id: String,
    pub original_path: String,
    pub canonical_path: String,
    pub device_id: u64,
    pub inode: u64,
    pub size_bytes: u64,
    pub class_name: String,
    pub rule_id: String,
    pub rule_version: u32,
    pub action_name: String,
    pub recoverable: bool,
}

/// A finding as stored by a scan session, as plan building reads it.
#[derive(Debug, Clone, PartialEq, Eq)]
pub struct FindingRow {
    pub id: String,
    pub path: String,
    pub size_bytes: u64,
    pub safety_class: String,
    pub category: String,
    pub rule_id: Option<String>,
}

// ---------------------------------------------------------------------------
// Staleness of a plan item
// ---------------------------------------------------------------------------

/// Why an approved plan item may no longer be acted on.
#[derive(Debug, Clone, PartialEq, Eq)]
pub enum Staleness {
    /// Its metadata could not be read now.
    Unreadable(PlatformError),
    /// Its device or inode differs from the recorded ones.
    IdentityChanged(FileIdentity),
    /// Its path could not be resolved now.
    Unresolvable(PlatformError),
    /// Its canonical path differs from the recorded one.
    CanonicalShifted(String),
    /// It became a symbolic link after review.
    BecameSymlink,
    /// A protected root covers it now.
    Protected,
}

pub open spec fn symlink_class() -> Seq<char> {
    "Symlink"@
}

/// The checks made of a plan item just before anything is done to it, in order: its
/// metadata can be read, its device and inode are unchanged, its path still resolves to
/// the recorded canonical path, it did not become a symbolic link (unless it was planned
/// as one), and no protected root covers it (`protected_now`, evaluated by the caller).
pub open spec fn staleness(
    item: PlanItemDetail,
    metadata: Result<EntryMetadata, PlatformError>,
    resolved: Result<ResolvedPath, PlatformError>,
    protected_now: bool,
) -> Option<Staleness> {
    match metadata {
        Err(e) => Some(Staleness::Unreadable(e)),
        Ok(m) => if m.identity.device_id != item.device_id || m.identity.inode != item.inode {
            Some(Staleness::IdentityChanged(m.identity))
        } else {
            match resolved {
                Err(e) => Some(Staleness::Unresolvable(e)),
                Ok(r) => if !path_eq(r.canonical@, item.canonical_path@) {
                    Some(Staleness::CanonicalShifted(r.canonical))
                } else if m.entry_type == EntryType::Symlink && item.class_name@ != symlink_class() {
                    Some(Staleness::BecameSymlink)
                } else if protected_now {
                    Some(Staleness::Protected)
                } else {
                    None
                },
            }
        },
    }
}

/// Decides whether a plan item is stale.
pub fn check_staleness(
    item: &PlanItemDetail,
    metadata: &Result<EntryMetadata, PlatformError>,
    resolved: &Result<ResolvedPath, PlatformError>,
    protected_now: bool,
) -> (s: Option<Staleness>)
    ensures
        s == staleness(*item, *metadata, *resolved, protected_now),
{
    let m = match metadata {
        Err(e) => {
            return Some(Staleness::Unreadable(e.duplicate()));
        },
        Ok(m) => *m,
    };
    if m.identity.device_id != item.device_id || m.identity.inode != item.inode {
        return Some(Staleness::IdentityChanged(m.identity));
    }
    let r = match resolved {
        Err(e) => {
            return Some(Staleness::Unresolvable(e.duplicate()));
        },
        Ok(r) => r,
    };
    if !paths_equal(r.canonical.as_str(), item.canonical_path.as_str()) {
        return Some(Staleness::CanonicalShifted(r.canonical.clone()));
    }
    if m.entry_type == EntryType::Symlink && !str_eq(item.class_name.as_str(), "Symlink") {
        return Some(Staleness::BecameSymlink);
    }
    if protected_now {
        return Some(Staleness::Protected);
    }
    None
}

/// The context in which `item` is re-checked against the protected roots, from the
/// metadata and resolution reported for it now.
pub open spec fn recheck_context(
    item: PlanItemDetail,
    m: EntryMetadata,
    r: ResolvedPath,
    symlink_target_canonical: Option<String>,
    dirs: StandardDirs,
) -> MatchContext {
    MatchContext {
        original_path: item.original_path,
        canonical_path: r.canonical,
        normalized_path: r.normalized,
        entry_type: m.entry_type,
        identity: m.identity,
        apparent_size: m.apparent_size,
        allocated_size: m.allocated_size,
        modified_ms: m.modified_ms,
        is_symlink: m.entry_type == EntryType::Symlink,
        symlink_target_canonical: if m.entry_type == EntryType::Symlink {
            symlink_target_canonical
        } else {
            None
        },
        home_dir: dirs.home,
        home_dir_canonical: None,
        app_support_dir: dirs.app_support,
        caches_dir: dirs.caches,
        crosses_mount_boundary: false,
        inside_git_repo: false,
        is_git_internal: false,
    }
}

/// Whether a protected root covers the item now, from what was reported; nothing is
/// protected where the metadata or the resolution could not be had.
pub open spec fn protected_now_for(
    item: PlanItemDetail,
    metadata: Result<EntryMetadata, PlatformError>,
    resolved: Result<ResolvedPath, PlatformError>,
    symlink_target_canonical: Option<String>,
    dirs: StandardDirs,
) -> bool {
    match (metadata, resolved) {
        (Ok(m), Ok(r)) => is_protected_item(recheck_context(item, m, r, symlink_target_canonical, dirs)),
        _ => false,
    }
}

/// The metadata was read and shows the recorded device and inode.
pub open spec fn identity_unchanged(item: PlanItemDetail, metadata: Result<EntryMetadata, PlatformError>) -> bool {
    metadata matches Ok(m) && m.identity.device_id == item.device_id && m.identity.inode == item.inode
}

/// The verdict of re-checking `item` through `adapter`: the staleness of the metadata the
/// adapter reported for the item's original path, of the resolution it reported for that
/// path (asked only when the identity is unchanged), and of the protection of the
/// context built from them.
pub open spec fn verdict_for<A: PlatformAdapter>(
    adapter: &A,
    item: PlanItemDetail,
    symlink_target_canonical: Option<String>,
    dirs: StandardDirs,
    s: Option<Staleness>,
) -> bool {
    exists|metadata: Result<EntryMetadata, PlatformError>, resolved: Result<ResolvedPath, PlatformError>|
        adapter.reports_metadata(item.original_path@, metadata)
            && (identity_unchanged(item, metadata) ==> adapter.reports_resolution(item.original_path@, resolved))
            && s == staleness(
                item,
                metadata,
                resolved,
                #[trigger] protected_now_for(item, metadata, resolved, symlink_target_canonical, dirs),
            )
}

/// Checks one plan item now, asking the platform for what it reports of the item's
/// original path; `symlink_target_canonical` is where that path leads when it is a
/// symbolic link.
pub fn revalidate_item<A: PlatformAdapter>(
    item: &PlanItemDetail,
    adapter: &A,
    symlink_target_canonical: &Option<String>,
    dirs: &StandardDirs,
) -> (s: Option<Staleness>)
    ensures
        verdict_for(adapter, *item, *symlink_target_canonical, *dirs, s),
{
    let metadata = adapter.read_entry_metadata(item.original_path.as_str());
    let ghost no_res: Result<ResolvedPath, PlatformError> = arbitrary();
    let m = match &metadata {
        Ok(m) => *m,
        Err(_) => {
            let s = check_staleness(item, &metadata, &Err(PlatformError::Io(String::new())), false);
            assert(s == staleness(*item, metadata, no_res, protected_now_for(*item, metadata, no_res, *symlink_target_canonical, *dirs)));
            return s;
        },
    };
    if m.identity.device_id != item.device_id || m.identity.inode != item.inode {
        let s = check_staleness(item, &metadata, &Err(PlatformError::Io(String::new())), false);
        assert(s == staleness(*item, metadata, no_res, protected_now_for(*item, metadata, no_res, *symlink_target_canonical, *dirs)));
        return s;
    }
    let resolved = adapter.canonicalize_and_normalize(item.original_path.as_str());
    match &resolved {
        Ok(r) => {
            let ctx = revalidation_context(item.original_path.as_str(), &m, r, symlink_target_canonical, dirs);
            let protected_now = evaluate_protected_roots(&ctx).is_some();
            proof {
                lemma_protection_ignores_original_path(ctx, recheck_context(*item, m, *r, *symlink_target_canonical, *dirs));
            }
            let s = check_staleness(item, &metadata, &resolved, protected_now);
            assert(s == staleness(*item, metadata, resolved, protected_now_for(*item, metadata, resolved, *symlink_target_canonical, *dirs)));
            s
        },
        Err(_) => check_staleness(item, &metadata, &resolved, false),
    }
}

/// The identifiers of the items whose verdict is stale, in plan order.
pub open spec fn stale_ids(items: Seq<PlanItemDetail>, verdicts: Seq<Option<Staleness>>) -> Seq<Seq<char>>
    decreases items.len(),
{
    if items.len() == 0 || verdicts.len() != items.len() {
        Seq::empty()
    } else if verdicts.last() is Some {
        stale_ids(items.drop_last(), verdicts.drop_last()).push(items.last().item_id@)
    } else {
        stale_ids(items.drop_last(), verdicts.drop_last())
    }
}

/// The outcome of revalidating a plan: valid exactly when no item is stale.
pub fn revalidation_result(
    plan_id: String,
    items: &Vec<PlanItemDetail>,
    verdicts: &Vec<Option<Staleness>>,
) -> (r: RevalidationResult)
    requires
        items@.len() == verdicts@.len(),
    ensures
        r.plan_id == plan_id,
        r.stale_item_ids@.map_values(|s: String| s@) == stale_ids(items@, verdicts@),
        r.is_valid == (r.stale_item_ids@.len() == 0),
{
    let mut ids: Vec<String> = Vec::new();
    let mut i: usize = 0;
    while i < items.len()
        invariant
            items@.len() == verdicts@.len(),
            i <= items@.len(),
            ids@.map_values(|s: String| s@) == stale_ids(items@.subrange(0, i as int), verdicts@.subrange(0, i as int)),
        decreases items@.len() - i,
    {
        let ghost before = ids@;
        assert(items@.subrange(0, i + 1).drop_last() =~= items@.subrange(0, i as int));
        assert(verdicts@.subrange(0, i + 1).drop_last() =~= verdicts@.subrange(0, i as int));
        if verdicts[i].is_some() {
            ids.push(items[i].item_id.clone());
            assert(ids@.map_values(|s: String| s@) =~= before.map_values(|s: String| s@).push(items@[i as int].item_id@));
        }
        i = i + 1;
    }
    assert(items@.subrange(0, items@.len() as int) =~= items@);
    assert(verdicts@.subrange(0, verdicts@.len() as int) =~= verdicts@);
    let valid = ids.len() == 0;
    RevalidationResult { plan_id, is_valid: valid, stale_item_ids: ids }
}

/// Revalidates every item of a plan; `symlink_targets[i]` is where item `i` leads when it
/// is a symbolic link. The plan is valid exactly when no item is stale.
pub fn revalidate_plan_items<A: PlatformAdapter>(
    plan_id: String,
    items: &Vec<PlanItemDetail>,
    adapter: &A,
    symlink_targets: &Vec<Option<String>>,
    dirs: &StandardDirs,
) -> (r: RevalidationResult)
    requires
        items@.len() == symlink_targets@.len(),
    ensures
        r.plan_id == plan_id,
        r.is_valid == (r.stale_item_ids@.len() == 0),
        r.stale_item_ids@.len() <= items@.len(),
        exists|verdicts: Seq<Option<Staleness>>|
            verdicts.len() == items@.len() && (forall|i: int|
                0 <= i < items@.len() ==> verdict_for(adapter, items@[i], symlink_targets@[i], *dirs, #[trigger] verdicts[i]))
                && r.stale_item_ids@.map_values(|s: String| s@) == #[trigger] stale_ids(items@, verdicts),
{
    let mut verdicts: Vec<Option<Staleness>> = Vec::new();
    let mut i: usize = 0;
    while i < items.len()
        invariant
            items@.len() == symlink_targets@.len(),
            i <= items@.len(),
            verdicts@.len() == i,
            forall|k: int| 0 <= k < i ==> verdict_for(adapter, items@[k], symlink_targets@[k], *dirs, #[trigger] verdicts@[k]),
        decreases items@.len() - i,
    {
        verdicts.push(revalidate_item(&items[i], adapter, &symlink_targets[i], dirs));
        i = i + 1;
    }
    let r = revalidation_result(plan_id, items, &verdicts);
    proof {
        lemma_stale_ids_len(items@, verdicts@);
        assert(r.stale_item_ids@.map_values(|s: String| s@) == stale_ids(items@, verdicts@));
    }
    r
}

proof fn lemma_stale_ids_len(items: Seq<PlanItemDetail>, verdicts: Seq<Option<Staleness>>)
    ensures
        stale_ids(items, verdicts).len() <= items.len(),
    decreases items.len(),
{
    if items.len() > 0 && verdicts.len() == items.len() {
        lemma_stale_ids_len(items.drop_last(), verdicts.drop_last());
    }
}

/// A plan is valid only when every item passed every check.
pub proof fn law_valid_plan_has_no_stale_item(items: Seq<PlanItemDetail>, verdicts: Seq<Option<Staleness>>)
    requires
        items.len() == verdicts.len(),
        stale_ids(items, verdicts).len() == 0,
    ensures
        forall|i: int| 0 <= i < verdicts.len() ==> (#[trigger] verdicts[i]) is None,
    decreases items.len(),
{
    if items.len() > 0 {
        if verdicts.last() is Some {
            assert(stale_ids(items, verdicts).len() > 0);
        }
        law_valid_plan_has_no_stale_item(items.drop_last(), verdicts.drop_last());
        assert forall|i: int| 0 <= i < verdicts.len() implies (#[trigger] verdicts[i]) is None by {
            if i < verdicts.len() - 1 {
                assert(verdicts.drop_last()[i] == verdicts[i]);
            }
        }
    }
}

// ---------------------------------------------------------------------------
// Building a plan
// ---------------------------------------------------------------------------

pub open spec fn protected_class() -> Seq<char> {
    "Protected"@
}

pub open spec fn review_class() -> Seq<char> {
    "Review"@
}

/// The action a plan takes on an admitted finding: review for review-class findings,
/// Trash otherwise.
pub open spec fn action_for_class(class: Seq<char>) -> Seq<char> {
    if eq_ignore_ascii_case(class, review_class()) {
        "Review"@
    } else {
        "Trash"@
    }
}

/// Why a finding is refused admission into a plan, if it is.
pub open spec fn admission_refusal(row: FindingRow, protection: Option<ProtectedReason>) -> Option<CommandError> {
    if eq_ignore_ascii_case(row.safety_class@, protected_class()) {
        Some(
            CommandError::PermissionDenied {
                path: Some(row.path),
                reason: arbitrary_string("Protected items cannot be admitted into a deletion plan"@),
            },
        )
    } else {
        match protection {
            Some(reason) => Some(
                CommandError::PermissionDenied {
                    path: Some(row.path),
                    reason: arbitrary_string(
                        "Target matches protected root '"@ + reason.root_name@ + "' ("@
                            + reason.description@ + ")"@,
                    ),
                },
            ),
            None => None,
        }
    }
}

/// A string with the given characters.
pub open spec fn arbitrary_string(s: Seq<char>) -> String {
    choose|x: String| x@ == s
}

/// `a` and `b` are the same error, comparing texts by their characters.
pub open spec fn same_error(a: CommandError, b: CommandError) -> bool {
    match (a, b) {
        (
            CommandError::PermissionDenied { path: p1, reason: r1 },
            CommandError::PermissionDenied { path: p2, reason: r2 },
        ) => crate::text::opt_view(p1) == crate::text::opt_view(p2) && r1@ == r2@,
        (CommandError::PathVanished { path: p1 }, CommandError::PathVanished { path: p2 }) => p1@
            == p2@,
        (
            CommandError::ChangedAfterReview { plan_id: a1, details: d1 },
            CommandError::ChangedAfterReview { plan_id: a2, details: d2 },
        ) => a1@ == a2@ && d1@ == d2@,
        (
            CommandError::Unsupported { feature: f1, reason: r1 },
            CommandError::Unsupported { feature: f2, reason: r2 },
        ) => f1@ == f2@ && r1@ == r2@,
        _ => false,
    }
}

/// Plan items accumulated from findings, and the bytes they hold.
pub struct PlanDraft {
    pub plan_id: String,
    pub summaries: Vec<PlanItemSummary>,
    pub details: Vec<PlanItemDetail>,
    pub total_bytes: u64,
}

impl PlanDraft {
    pub fn new(plan_id: String) -> (d: Self)
        ensures
            d.plan_id == plan_id,
            d.summaries@.len() == 0,
            d.details@.len() == 0,
            d.total_bytes == 0,
    {
        PlanDraft { plan_id, summaries: Vec::new(), details: Vec::new(), total_bytes: 0 }
    }

    /// Admits a finding into the plan, or refuses it: a protected-class finding, or one a
    /// protected root covers (`protection`, evaluated by the caller), is refused and the
    /// draft is unchanged. An admitted item records the resolved canonical path and the
    /// identity read now; it is recoverable and its action follows from its class.
    pub fn admit_finding(
        &mut self,
        row: &FindingRow,
        canonical_path: &str,
        identity: FileIdentity,
        protection: &Option<ProtectedReason>,
    ) -> (r: Result<(), CommandError>)
        requires
            old(self).total_bytes + row.size_bytes <= u64::MAX,
        ensures
            match admission_refusal(*row, *protection) {
                Some(e) => r matches Err(got) && same_error(got, e) && *final(self) == *old(self),
                None => {
                    &&& r is Ok
                    &&& final(self).plan_id == old(self).plan_id
                    &&& final(self).total_bytes == old(self).total_bytes + row.size_bytes
                    &&& final(self).summaries@.len() == old(self).summaries@.len() + 1
                    &&& final(self).details@.len() == old(self).details@.len() + 1
                    &&& final(self).summaries@.drop_last() == old(self).summaries@
                    &&& final(self).details@.drop_last() == old(self).details@
                    &&& admitted_as(final(self).summaries@.last(), final(self).details@.last(), *row, old(self).plan_id@, canonical_path@, identity)
                },
            },
    {
        if str_eq_ignore_ascii_case(row.safety_class.as_str(), "Protected") {
            return Err(
                CommandError::PermissionDenied {
                    path: Some(row.path.clone()),
                    reason: owned("Protected items cannot be admitted into a deletion plan"),
                },
            );
        }
        match protection {
            Some(reason) => {
                let head = concat3("Target matches protected root '", reason.root_name.as_str(), "' (");
                let text = concat3(head.as_str(), reason.description.as_str(), ")");
                return Err(CommandError::PermissionDenied { path: Some(row.path.clone()), reason: text });
            },
            None => {},
        }
        let action_name = if str_eq_ignore_ascii_case(row.safety_class.as_str(), "Review") {
            owned("Review")
        } else {
            owned("Trash")
        };
        let rule_id = match &row.rule_id {
            Some(r) => r.clone(),
            None => String::new(),
        };
        self.total_bytes = self.total_bytes + row.size_bytes;
        self.summaries.push(
            PlanItemSummary {
                item_id: row.id.clone(),
                original_path: row.path.clone(),
                size_bytes: row.size_bytes,
                class_name: row.safety_class.clone(),
                action_name: action_name.clone(),
                recoverable: true,
            },
        );
        self.details.push(
            PlanItemDetail {
                item_id: row.id.clone(),
                plan_id: self.plan_id.clone(),
                original_path: row.path.clone(),
                canonical_path: owned(canonical_path),
                device_id: identity.device_id,
                inode: identity.inode,
                size_bytes: row.size_bytes,
                class_name: row.safety_class.clone(),
                rule_id,
                rule_version: 1,
                action_name,
                recoverable: true,
            },
        );
        assert(self.summaries@.drop_last() =~= old(self).summaries@);
        assert(self.details@.drop_last() =~= old(self).details@);
        Ok(())
    }

    /// The plan and its header, with Trash as the default action.
    pub fn finish(self, session_id: String, created_at_ms: u64) -> (r: (ReviewPlan, Vec<PlanItemDetail>, ReviewPlanHeader))
        ensures
            r.0.plan_id == self.plan_id,
            r.0.session_id == session_id,
            r.0.items@ == self.summaries@,
            r.0.default_action_mode == ActionMode::Trash,
            r.0.created_at_ms == created_at_ms,
            r.1@ == self.details@,
            r.2.plan_id == self.plan_id,
            r.2.session_id == session_id,
            r.2.item_count == self.summaries@.len(),
            r.2.total_bytes == self.total_bytes,
            r.2.created_at_ms == created_at_ms,
    {
        let count = self.summaries.len() as u64;
        let header = ReviewPlanHeader {
            plan_id: self.plan_id.clone(),
            session_id: session_id.clone(),
            item_count: count,
            total_bytes: self.total_bytes,
            created_at_ms,
        };
        let plan = ReviewPlan {
            plan_id: self.plan_id,
            session_id,
            items: self.summaries,
            default_action_mode: ActionMode::Trash,
            created_at_ms,
        };
        (plan, self.details, header)
    }
}

/// The summary and detail record of an admitted finding.
pub open spec fn admitted_as(
    s: PlanItemSummary,
    d: PlanItemDetail,
    row: FindingRow,
    plan_id: Seq<char>,
    canonical_path: Seq<char>,
    identity: FileIdentity,
) -> bool {
    &&& s.item_id == row.id
    &&& s.original_path == row.path
    &&& s.size_bytes == row.size_bytes
    &&& s.class_name == row.safety_class
    &&& s.action_name@ == action_for_class(row.safety_class@)
    &&& s.recoverable
    &&& d.item_id == row.id
    &&& d.plan_id@ == plan_id
    &&& d.original_path == row.path
    &&& d.canonical_path@ == canonical_path
    &&& d.device_id == identity.device_id
    &&& d.inode == identity.inode
    &&& d.size_bytes == row.size_bytes
    &&& d.class_name == row.safety_class
    &&& d.rule_id@ == (match row.rule_id {
        Some(r) => r@,
        None => Seq::empty(),
    })
    &&& d.rule_version == 1
    &&& d.action_name@ == action_for_class(row.safety_class@)
    &&& d.recoverable
}

/// No protected finding ever enters a plan: admission either refuses it or the finding
/// was neither of protected class nor covered by a protected root.
pub proof fn law_protected_never_admitted(row: FindingRow, protection: Option<ProtectedReason>)
    requires
        admission_refusal(row, protection) is None,
    ensures
        !eq_ignore_ascii_case(row.safety_class@, protected_class()),
        protection is None,
{
}

} // verus!
