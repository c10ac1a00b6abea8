//! The inventory of installed applications and of the leftovers of removed ones.

use vstd::prelude::*;
use crate::applications::adapter::{ApplicationPlatform, sat_add};
use crate::applications::associate::{association_views, associations_for_application, associations_upto, list_views};
use crate::applications::model::{
    ApplicationEntry, ApplicationInventory, AssociationView, Candidate, EvidenceView, MatchReason, MatchStrength,
    RelatedFile, RelatedFileView, RemovalState,
};
use crate::applications::names::{exact_identity, is_exact_identity_candidate, string_views};
use crate::applications::related::{
    build_related_file, built_through, eligible, file_path_keys, finished, from_listed_tie, identity_wording, listed_safely,
    related_file_view, related_files_for_application, sensitive_paths_of,
};
use crate::boundary::context::{StandardDirs, carries_dirs, standard_dirs};
use crate::classify::class::SafetyClass;
use crate::classify::matcher::MatchContext;
use crate::classify::protected::{evaluate_protected_roots, is_protected_item};
use crate::duplicates::order::{path_order_key, path_order_key_exec};
use crate::keyed::{comes_from, key_views, sort_dedup_keyed, strictly_sorted};
use crate::platform::{ApplicationDataRoot, ApplicationMetadata, EntryMetadata, EntryType, FileIdentity, PlatformError, ResolvedPath};
use crate::text::{clone_opt, opt_view, owned};

verus! {

/// The largest number of candidates gathered from the data roots.
pub const CANDIDATE_LIMIT: usize = 10000;

/// How deep below a data root candidates are gathered.
pub const CANDIDATE_DEPTH_LIMIT: usize = 4;

/// The context in which a candidate is checked against the protected roots: the path as
/// resolved, its metadata as read now, the identity met during the walk, and the standard
/// directories.
pub open spec fn policy_context_holds(
    ctx: MatchContext,
    path: Seq<char>,
    resolved: ResolvedPath,
    metadata: EntryMetadata,
    identity: FileIdentity,
    dirs: StandardDirs,
) -> bool {
    &&& ctx.original_path@ == path
    &&& ctx.canonical_path@ == resolved.canonical@
    &&& ctx.normalized_path@ == resolved.normalized@
    &&& ctx.entry_type == metadata.entry_type
    &&& ctx.identity == identity
    &&& ctx.apparent_size == metadata.apparent_size
    &&& ctx.allocated_size == metadata.allocated_size
    &&& ctx.modified_ms == metadata.modified_ms
    &&& ctx.is_symlink == (metadata.entry_type == EntryType::Symlink)
    &&& ctx.symlink_target_canonical is None
    &&& carries_dirs(ctx, dirs)
}

pub fn policy_context(
    path: &str,
    resolved: &ResolvedPath,
    metadata: &EntryMetadata,
    identity: FileIdentity,
    dirs: &StandardDirs,
) -> (ctx: MatchContext)
    ensures
        policy_context_holds(ctx, path@, *resolved, *metadata, identity, *dirs),
{
    MatchContext {
        original_path: owned(path),
        canonical_path: resolved.canonical.clone(),
        normalized_path: resolved.normalized.clone(),
        entry_type: metadata.entry_type,
        identity,
        apparent_size: metadata.apparent_size,
        allocated_size: metadata.allocated_size,
        modified_ms: metadata.modified_ms,
        is_symlink: metadata.entry_type == EntryType::Symlink,
        symlink_target_canonical: None,
        home_dir: clone_opt(&dirs.home),
        home_dir_canonical: None,
        app_support_dir: clone_opt(&dirs.app_support),
        caches_dir: clone_opt(&dirs.caches),
        crosses_mount_boundary: false,
        inside_git_repo: false,
        is_git_internal: false,
    }
}

/// The policy verdict `r` on the path's resolution and metadata: protected where either
/// could not be had, and otherwise exactly when a standard protected root covers the
/// policy context built from them.
pub open spec fn policy_verdict(
    path: Seq<char>,
    resolved: Result<ResolvedPath, PlatformError>,
    metadata: Result<EntryMetadata, PlatformError>,
    identity: FileIdentity,
    dirs: StandardDirs,
    r: bool,
) -> bool {
    match (resolved, metadata) {
        (Ok(res), Ok(m)) => exists|ctx: MatchContext|
            policy_context_holds(ctx, path, res, m, identity, dirs) && r == is_protected_item(ctx),
        _ => r,
    }
}

/// A candidate is kept from the inventory when its path cannot be resolved or read, or
/// when a standard protected root covers it.
pub fn policy_protected_given(
    path: &str,
    resolved: &Result<ResolvedPath, PlatformError>,
    metadata: &Result<EntryMetadata, PlatformError>,
    identity: FileIdentity,
    dirs: &StandardDirs,
) -> (r: bool)
    ensures
        (resolved is Err || metadata is Err) ==> r,
        match (*resolved, *metadata) {
            (Ok(res), Ok(m)) => exists|ctx: MatchContext|
                policy_context_holds(ctx, path@, res, m, identity, *dirs) && r == is_protected_item(ctx),
            _ => true,
        },
{
    match (resolved, metadata) {
        (Ok(res), Ok(m)) => {
            let ctx = policy_context(path, res, m, identity, dirs);
            let verdict = evaluate_protected_roots(&ctx);
            verdict.is_some()
        },
        _ => true,
    }
}

fn is_policy_protected<A: ApplicationPlatform>(
    adapter: &A,
    path: &str,
    identity: FileIdentity,
    dirs: &StandardDirs,
) -> (r: bool)
    ensures
        !r ==> exists|resolved: ResolvedPath, metadata: EntryMetadata, ctx: MatchContext|
            #[trigger] policy_context_holds(ctx, path@, resolved, metadata, identity, *dirs) && !is_protected_item(ctx),
        exists|resolved: Result<ResolvedPath, PlatformError>, metadata: Result<EntryMetadata, PlatformError>|
            adapter.reports_resolution(path@, resolved) && adapter.reports_metadata(path@, metadata)
                && #[trigger] policy_verdict(path@, resolved, metadata, identity, *dirs, r),
{
    let resolved = adapter.canonicalize_and_normalize(path);
    let metadata = adapter.read_entry_metadata(path);
    let r = policy_protected_given(path, &resolved, &metadata, identity, dirs);
    assert(policy_verdict(path@, resolved, metadata, identity, *dirs, r));
    r
}

/// Candidate `c` was found under one of the data roots.
pub open spec fn under_listed_root(c: Candidate, roots: Seq<ApplicationDataRoot>) -> bool {
    exists|i: int| 0 <= i < roots.len() && #[trigger] roots[i].path@ == c.root.path@ && roots[i].kind == c.root.kind
}

/// Gathers the entry at `path` and, for a directory, what lies below it, down to the depth
/// limit and up to the candidate limit; links, entries of other users and protected
/// entries are left out with all they hold.
fn collect_candidate_tree<A: ApplicationPlatform>(
    adapter: &A,
    root: &ApplicationDataRoot,
    path: String,
    depth: usize,
    dirs: &StandardDirs,
    candidates: &mut Vec<Candidate>,
)
    requires
        depth <= CANDIDATE_DEPTH_LIMIT + 1,
    ensures
        final(candidates)@.len() >= old(candidates)@.len(),
        final(candidates)@.subrange(0, old(candidates)@.len() as int) == old(candidates)@,
        final(candidates)@.len() <= if old(candidates)@.len() >= CANDIDATE_LIMIT {
            old(candidates)@.len() as int
        } else {
            CANDIDATE_LIMIT as int
        },
        forall|k: int| #![trigger final(candidates)@[k]] old(candidates)@.len() <= k < final(candidates)@.len() ==> {
            &&& final(candidates)@[k].root.path@ == root.path@
            &&& final(candidates)@[k].root.kind == root.kind
        },
        depth > CANDIDATE_DEPTH_LIMIT ==> final(candidates)@ == old(candidates)@,
        final(candidates)@.len() > old(candidates)@.len() ==> final(candidates)@[old(candidates)@.len() as int].path@
            == path@,
        final(candidates)@.len() > old(candidates)@.len() ==> adapter.reports_owned(path@, true) && exists|
            m: EntryMetadata,
        | #[trigger] adapter.reports_metadata(path@, Ok(m)) && m.entry_type != EntryType::Symlink,
    decreases CANDIDATE_DEPTH_LIMIT + 1 - depth,
{
    if candidates.len() >= CANDIDATE_LIMIT || depth > CANDIDATE_DEPTH_LIMIT {
        assert(candidates@.subrange(0, candidates@.len() as int) =~= candidates@);
        return;
    }
    let metadata = match adapter.read_entry_metadata(&path) {
        Ok(m) => m,
        Err(_) => {
            assert(candidates@.subrange(0, candidates@.len() as int) =~= candidates@);
            return;
        },
    };
    if metadata.entry_type == EntryType::Symlink || !adapter.path_is_owned_by_current_user(&path)
        || is_policy_protected(adapter, &path, metadata.identity, dirs) {
        assert(candidates@.subrange(0, candidates@.len() as int) =~= candidates@);
        return;
    }
    let is_directory = metadata.entry_type == EntryType::Directory;
    let ghost start = candidates@;
    candidates.push(Candidate {
        path: path.clone(),
        root: ApplicationDataRoot { path: root.path.clone(), kind: root.kind },
    });
    assert(candidates@.subrange(0, start.len() as int) =~= start);
    assert(candidates@[start.len() as int].root.path@ == root.path@);
    if is_directory {
        if let Ok(entries) = adapter.list_directory(&path) {
            let mut i: usize = 0;
            while i < entries.len()
                invariant
                    depth <= CANDIDATE_DEPTH_LIMIT,
                    start.len() < candidates@.len(),
                    start.len() < CANDIDATE_LIMIT,
                    candidates@.subrange(0, start.len() as int) == start,
                    candidates@[start.len() as int].path@ == path@,
                    candidates@.len() <= CANDIDATE_LIMIT,
                    forall|k: int| #![trigger candidates@[k]] start.len() <= k < candidates@.len() ==> {
                        &&& candidates@[k].root.path@ == root.path@
                        &&& candidates@[k].root.kind == root.kind
                    },
                decreases entries@.len() - i,
            {
                let ghost before = candidates@;
                collect_candidate_tree(adapter, root, entries[i].clone(), depth + 1, dirs, candidates);
                assert(candidates@.subrange(0, start.len() as int) =~= before.subrange(0, start.len() as int));
                assert(candidates@.subrange(0, before.len() as int)[start.len() as int] == before[start.len() as int]);
                assert forall|k: int| #![trigger candidates@[k]] start.len() <= k < candidates@.len() implies {
                    &&& candidates@[k].root.path@ == root.path@
                    &&& candidates@[k].root.kind == root.kind
                } by {
                    if k < before.len() {
                        assert(candidates@.subrange(0, before.len() as int)[k] == before[k]);
                    }
                }
                i = i + 1;
            }
        }
    }
}

/// The sort key of each candidate's path.
pub open spec fn candidate_path_keys(cands: Seq<Candidate>) -> Seq<Seq<u64>> {
    cands.map_values(|c: Candidate| path_order_key(c.path@))
}

/// The candidates under the data roots, sorted by path with one candidate per path.
fn collect_candidates<A: ApplicationPlatform>(
    adapter: &A,
    roots: &Vec<ApplicationDataRoot>,
) -> (r: Result<Vec<Candidate>, PlatformError>)
    ensures
        r matches Ok(cands) && {
            &&& strictly_sorted(candidate_path_keys(cands@))
            &&& cands@.len() <= CANDIDATE_LIMIT
            &&& forall|k: int| 0 <= k < cands@.len() ==> under_listed_root(#[trigger] cands@[k], roots@)
        },
{
    let dirs = standard_dirs(adapter);
    let mut candidates: Vec<Candidate> = Vec::new();
    let mut r: usize = 0;
    while r < roots.len()
        invariant
            r <= roots@.len(),
            candidates@.len() <= CANDIDATE_LIMIT,
            forall|k: int| 0 <= k < candidates@.len() ==> under_listed_root(#[trigger] candidates@[k], roots@),
        decreases roots@.len() - r,
    {
        let root = &roots[r];
        if let Ok(entries) = adapter.list_directory(&root.path) {
            let mut i: usize = 0;
            while i < entries.len()
                invariant
                    r < roots@.len(),
                    root == roots@[r as int],
                    candidates@.len() <= CANDIDATE_LIMIT,
                    forall|k: int| 0 <= k < candidates@.len() ==> under_listed_root(#[trigger] candidates@[k], roots@),
                decreases entries@.len() - i,
            {
                let ghost before = candidates@;
                collect_candidate_tree(adapter, root, entries[i].clone(), 0, &dirs, &mut candidates);
                assert forall|k: int| 0 <= k < candidates@.len() implies under_listed_root(#[trigger] candidates@[k], roots@) by {
                    if k < before.len() {
                        assert(candidates@.subrange(0, before.len() as int)[k] == before[k]);
                    } else {
                        assert(roots@[r as int].path@ == candidates@[k].root.path@);
                    }
                }
                i = i + 1;
            }
        }
        r = r + 1;
    }
    let mut keys: Vec<Vec<u64>> = Vec::new();
    let mut i: usize = 0;
    while i < candidates.len()
        invariant
            i <= candidates@.len(),
            keys@.len() == i,
            forall|k: int| 0 <= k < i ==> #[trigger] key_views(keys@)[k] == path_order_key(candidates@[k].path@),
        decreases candidates@.len() - i,
    {
        let ghost kb = key_views(keys@);
        let key = path_order_key_exec(&candidates[i].path);
        keys.push(key);
        assert(key_views(keys@) =~= kb.push(key@));
        i = i + 1;
    }
    let ghost in_cands = candidates@;
    let ghost in_keys = key_views(keys@);
    let (sorted, sorted_keys) = sort_dedup_keyed(candidates, keys);
    proof {
        assert forall|k: int| 0 <= k < sorted@.len() implies #[trigger] candidate_path_keys(sorted@)[k]
            == key_views(sorted_keys@)[k] && under_listed_root(sorted@[k], roots@) by {
            assert(comes_from(key_views(sorted_keys@)[k], sorted@[k], in_keys, in_cands));
            let p = choose|p: int| 0 <= p < in_cands.len() && in_keys[p] == key_views(sorted_keys@)[k] && in_cands[p] == sorted@[k];
            assert(under_listed_root(in_cands[p], roots@));
        }
        assert(candidate_path_keys(sorted@) =~= key_views(sorted_keys@));
        assert forall|k: int| 0 <= k < sorted@.len() implies under_listed_root(#[trigger] sorted@[k], roots@) by {
            assert(candidate_path_keys(sorted@)[k] == key_views(sorted_keys@)[k]);
        }
    }
    Ok(sorted)
}

/// The total footprint of the files, adding up to at most `u64::MAX`.
pub open spec fn footprint_total(files: Seq<RelatedFile>) -> u64
    decreases files.len(),
{
    if files.len() == 0 {
        0
    } else {
        sat_add(footprint_total(files.drop_last()), files.last().measured_footprint_bytes)
    }
}

pub fn related_footprint(files: &Vec<RelatedFile>) -> (total: u64)
    ensures
        total == footprint_total(files@),
{
    let mut total: u64 = 0;
    let mut i: usize = 0;
    while i < files.len()
        invariant
            i <= files@.len(),
            total == footprint_total(files@.subrange(0, i as int)),
        decreases files@.len() - i,
    {
        assert(files@.subrange(0, i + 1).drop_last() =~= files@.subrange(0, i as int));
        total = total.saturating_add(files[i].measured_footprint_bytes);
        i = i + 1;
    }
    assert(files@.subrange(0, files@.len() as int) =~= files@);
    total
}

/// What the entry tells about a running application.
pub open spec fn quit_wording() -> Seq<char> {
    "Quit this application before removing its bundle or related files."@
}

/// What the entry tells about an application that is not running.
pub open spec fn ready_wording() -> Seq<char> {
    "Application is not running and can enter a reviewed removal plan."@
}

/// An application's entry as it must stand: a running application can be neither
/// removed nor selected and must be quit first; the footprints add up.
pub open spec fn entry_settled(e: ApplicationEntry) -> bool {
    &&& e.can_remove == !e.is_running
    &&& e.bundle_selected_by_default == !e.is_running
    &&& e.removal_state == if e.is_running {
        RemovalState::QuitRequired
    } else {
        RemovalState::Ready
    }
    &&& e.removal_explanation@ == if e.is_running {
        quit_wording()
    } else {
        ready_wording()
    }
    &&& e.related_files_footprint_bytes == footprint_total(e.related_files@)
    &&& e.combined_footprint_bytes == sat_add(e.bundle_footprint_bytes, e.related_files_footprint_bytes)
}

/// The entry of an application with its related files and whether it is running.
pub fn application_entry(
    metadata: &ApplicationMetadata,
    related_files: Vec<RelatedFile>,
    is_running: bool,
) -> (e: ApplicationEntry)
    ensures
        entry_settled(e),
        opt_view(e.bundle_id) == opt_view(metadata.bundle_identifier),
        e.name@ == metadata.name@,
        opt_view(e.version) == opt_view(metadata.version),
        e.install_path@ == metadata.install_location@,
        e.bundle_footprint_bytes == metadata.measured_footprint_bytes,
        e.is_running == is_running,
        e.related_files@ == related_files@,
{
    let related_total = related_footprint(&related_files);
    let removal_state = if is_running {
        RemovalState::QuitRequired
    } else {
        RemovalState::Ready
    };
    let removal_explanation = if is_running {
        owned("Quit this application before removing its bundle or related files.")
    } else {
        owned("Application is not running and can enter a reviewed removal plan.")
    };
    ApplicationEntry {
        bundle_id: clone_opt(&metadata.bundle_identifier),
        name: metadata.name.clone(),
        version: clone_opt(&metadata.version),
        install_path: metadata.install_location.clone(),
        bundle_footprint_bytes: metadata.measured_footprint_bytes,
        related_files_footprint_bytes: related_total,
        combined_footprint_bytes: metadata.measured_footprint_bytes.saturating_add(related_total),
        is_running,
        can_remove: !is_running,
        bundle_selected_by_default: !is_running,
        removal_state,
        removal_explanation,
        related_files,
    }
}

/// A leftover as it must stand: measured for its identity, for review, never selected.
pub open spec fn orphan_settled(o: RelatedFileView) -> bool {
    &&& o.safety_class == SafetyClass::Review
    &&& !o.selected_by_default
    &&& o.offered_for_removal
    &&& o.evidence == EvidenceView {
        reason: MatchReason::ExactBundleIdentifier,
        strength: MatchStrength::Strong,
        explanation: identity_wording(),
    }
}

/// Whether some path of the list is `path`.
fn path_listed(paths: &Vec<String>, path: &str) -> (r: bool)
    ensures
        r == exists|k: int| 0 <= k < paths@.len() && crate::paths::path_eq(#[trigger] paths@[k]@, path@),
{
    let mut i: usize = 0;
    while i < paths.len()
        invariant
            i <= paths@.len(),
            forall|k: int| 0 <= k < i ==> !crate::paths::path_eq(#[trigger] paths@[k]@, path@),
        decreases paths@.len() - i,
    {
        if crate::paths::paths_equal(paths[i].as_str(), path) {
            return true;
        }
        i = i + 1;
    }
    false
}

/// Entry `e` describes the installed application whose metadata is `m`, one that is not
/// the system's own.
pub open spec fn entry_from(e: ApplicationEntry, m: ApplicationMetadata) -> bool {
    &&& !m.is_system_application
    &&& opt_view(e.bundle_id) == opt_view(m.bundle_identifier)
    &&& e.name@ == m.name@
    &&& opt_view(e.version) == opt_view(m.version)
    &&& e.install_path@ == m.install_location@
    &&& e.bundle_footprint_bytes == m.measured_footprint_bytes
}

/// Leftover `o` is the measured file of a candidate that carries an application identity.
pub open spec fn orphan_of_candidate(o: RelatedFileView) -> bool {
    exists|c: Candidate, v: u64|
        #[trigger] related_file_view(c, v) == o && exact_identity(c.path@, c.root.path@, None)
}

/// Some string of `paths` reads `p`.
pub open spec fn path_recorded(paths: Seq<String>, p: Seq<char>) -> bool {
    exists|m: int| 0 <= m < paths.len() && (#[trigger] paths[m])@ == p
}

/// The bundles, with their metadata, among the first `n` that are not the system's own,
/// in bundle order.
pub open spec fn kept_apps(bundles: Seq<String>, metas: Seq<ApplicationMetadata>, n: int) -> Seq<
    (Seq<char>, ApplicationMetadata),
>
    decreases n,
{
    if n <= 0 {
        Seq::empty()
    } else {
        let before = kept_apps(bundles, metas, n - 1);
        if metas[n - 1].is_system_application {
            before
        } else {
            before.push((bundles[n - 1]@, metas[n - 1]))
        }
    }
}

/// Entry `e` is `application_entry` of metadata `m`, related files `files` and the running
/// state `running`.
pub open spec fn entry_of(e: ApplicationEntry, m: ApplicationMetadata, files: Seq<RelatedFile>, running: bool) -> bool {
    &&& entry_settled(e)
    &&& opt_view(e.bundle_id) == opt_view(m.bundle_identifier)
    &&& e.name@ == m.name@
    &&& opt_view(e.version) == opt_view(m.version)
    &&& e.install_path@ == m.install_location@
    &&& e.bundle_footprint_bytes == m.measured_footprint_bytes
    &&& e.is_running == running
    &&& e.related_files@ == files
}

/// The paths tied to the first `n` kept applications, application by application, each in
/// candidate order.
pub open spec fn tied_paths(
    kept: Seq<(Seq<char>, ApplicationMetadata)>,
    cands: Seq<Candidate>,
    lists: Seq<Seq<Seq<char>>>,
    n: int,
) -> Seq<Seq<char>>
    decreases n,
{
    if n <= 0 {
        Seq::empty()
    } else {
        tied_paths(kept, cands, lists, n - 1) + associations_upto(
            kept[n - 1].1,
            cands,
            lists,
            lists[n - 1],
            cands.len() as int,
        ).map_values(|a: AssociationView| a.path)
    }
}

/// No tied path is `path`.
pub open spec fn untied(tied: Seq<Seq<char>>, path: Seq<char>) -> bool {
    forall|m: int| 0 <= m < tied.len() ==> !crate::paths::path_eq(#[trigger] tied[m], path)
}

/// Candidate `c` is a leftover to measure: tied to no application, and it carries an
/// application identity.
pub open spec fn leftover(tied: Seq<Seq<char>>, c: Candidate) -> bool {
    untied(tied, c.path@) && exact_identity(c.path@, c.root.path@, None)
}

/// The measured files of the leftovers among the first `n` candidates, in candidate order,
/// where measuring found something.
pub open spec fn orphans_upto(
    cands: Seq<Candidate>,
    tied: Seq<Seq<char>>,
    measured: Seq<Option<RelatedFile>>,
    n: int,
) -> Seq<RelatedFile>
    decreases n,
{
    if n <= 0 {
        Seq::empty()
    } else {
        let before = orphans_upto(cands, tied, measured, n - 1);
        if leftover(tied, cands[n - 1]) && measured[n - 1] is Some {
            before.push(measured[n - 1]->0)
        } else {
            before
        }
    }
}

/// Error `e` is one the platform reported: in listing the bundles or the data roots, in
/// reading a bundle's metadata or its shared components, or in measuring a file.
pub open spec fn inventory_failure<A: ApplicationPlatform>(adapter: &A, e: PlatformError) -> bool {
    ||| adapter.reports_bundles(Err(e))
    ||| adapter.reports_data_roots(Err(e))
    ||| exists|p: Seq<char>| #[trigger] adapter.reports_app_metadata(p, Err(e))
    ||| exists|p: Seq<char>| #[trigger] adapter.reports_shared_components(p, Err(e))
    ||| exists|p: Seq<char>| #[trigger] adapter.reports_footprint(p, Err(e))
}

/// The inventory assembled from what the platform reported: the applications are exactly
/// the listed bundles that are not the system's own, in order, each the entry of its
/// metadata, of its related files and of its reported running state; the orphans are
/// exactly the measured files of the identity candidates tied to no application, in
/// candidate order.
pub open spec fn inventory_from<A: ApplicationPlatform>(
    adapter: &A,
    bundles: Vec<String>,
    metas: Seq<ApplicationMetadata>,
    lists: Seq<Vec<String>>,
    roots: Vec<ApplicationDataRoot>,
    cands: Seq<Candidate>,
    related: Seq<Vec<RelatedFile>>,
    running: Seq<bool>,
    measured: Seq<Option<RelatedFile>>,
    inv: ApplicationInventory,
) -> bool {
    let kept = kept_apps(bundles@, metas, bundles@.len() as int);
    let tied = tied_paths(kept, cands, list_views(lists), kept.len() as int);
    &&& adapter.reports_bundles(Ok(bundles))
    &&& metas.len() == bundles@.len()
    &&& forall|i: int| 0 <= i < metas.len() ==> adapter.reports_app_metadata(bundles@[i]@, Ok(#[trigger] metas[i]))
    &&& lists.len() == kept.len()
    &&& forall|k: int| 0 <= k < lists.len() ==> adapter.reports_shared_components(kept[k].0, Ok(#[trigger] lists[k]))
    &&& adapter.reports_data_roots(Ok(roots))
    &&& strictly_sorted(candidate_path_keys(cands))
    &&& forall|k: int| 0 <= k < cands.len() ==> under_listed_root(#[trigger] cands[k], roots@)
    &&& inv.applications@.len() == kept.len()
    &&& related.len() == kept.len()
    &&& running.len() == kept.len()
    &&& forall|k: int|
        0 <= k < kept.len() ==> entry_of(#[trigger] inv.applications@[k], kept[k].1, related[k]@, running[k])
            && adapter.reports_running(kept[k].1.install_location@, running[k])
    &&& measured.len() == cands.len()
    &&& forall|i: int|
        0 <= i < cands.len() && leftover(tied, #[trigger] cands[i]) ==> built_through(
            adapter,
            cands[i],
            Ok(measured[i]),
        )
    &&& inv.orphans@ == orphans_upto(cands, tied, measured, cands.len() as int)
}

proof fn lemma_kept_agree(bundles: Seq<String>, a: Seq<ApplicationMetadata>, b: Seq<ApplicationMetadata>, n: int)
    requires
        0 <= n <= a.len(),
        n <= b.len(),
        forall|j: int| 0 <= j < n ==> a[j] == b[j],
    ensures
        kept_apps(bundles, a, n) == kept_apps(bundles, b, n),
    decreases n,
{
    if n > 0 {
        lemma_kept_agree(bundles, a, b, n - 1);
    }
}

proof fn lemma_orphans_agree(
    cands: Seq<Candidate>,
    tied: Seq<Seq<char>>,
    a: Seq<Option<RelatedFile>>,
    b: Seq<Option<RelatedFile>>,
    n: int,
)
    requires
        0 <= n <= a.len(),
        n <= b.len(),
        forall|j: int| 0 <= j < n ==> a[j] == b[j],
    ensures
        orphans_upto(cands, tied, a, n) == orphans_upto(cands, tied, b, n),
    decreases n,
{
    if n > 0 {
        lemma_orphans_agree(cands, tied, a, b, n - 1);
    }
}

/// The installed applications other than the system's own, each with the files tied to
/// it, and the leftovers under the data roots that carry an application identity but
/// belong to no installed application. An error of the platform while listing bundles or
/// roots, reading a bundle, or measuring a file is returned.
pub fn discover_inventory<A: ApplicationPlatform>(adapter: &A) -> (r: Result<ApplicationInventory, PlatformError>)
    ensures
        r matches Ok(inv) ==> {
            &&& forall|k: int| 0 <= k < inv.applications@.len() ==> {
                &&& entry_settled(#[trigger] inv.applications@[k])
                &&& strictly_sorted(file_path_keys(inv.applications@[k].related_files@))
                &&& exists|m: ApplicationMetadata| entry_from(inv.applications@[k], m)
                &&& forall|j: int|
                    0 <= j < inv.applications@[k].related_files@.len() ==> listed_safely(
                        #[trigger] inv.applications@[k].related_files@[j]@,
                    )
            }
            &&& forall|k: int| 0 <= k < inv.orphans@.len() ==> {
                &&& orphan_settled(#[trigger] inv.orphans@[k]@)
                &&& orphan_of_candidate(inv.orphans@[k]@)
            }
            &&& forall|o: int, k: int, j: int|
                0 <= o < inv.orphans@.len() && 0 <= k < inv.applications@.len() && 0 <= j
                    < inv.applications@[k].related_files@.len() ==> !crate::paths::path_eq(
                    #[trigger] inv.orphans@[o].path@,
                    #[trigger] inv.applications@[k].related_files@[j].path@,
                )
        },
        r matches Ok(inv) ==> exists|
            bundles: Vec<String>,
            metas: Seq<ApplicationMetadata>,
            lists: Seq<Vec<String>>,
            roots: Vec<ApplicationDataRoot>,
            cands: Seq<Candidate>,
            related: Seq<Vec<RelatedFile>>,
            running: Seq<bool>,
            measured: Seq<Option<RelatedFile>>,
        |
            #[trigger] inventory_from(adapter, bundles, metas, lists, roots, cands, related, running, measured, inv),
        r matches Err(e) ==> inventory_failure(adapter, e),
{
    let bundles_reported = adapter.installed_application_bundles();
    let bundle_paths = match bundles_reported {
        Ok(b) => b,
        Err(e) => {
            return Err(e);
        },
    };
    let roots_reported = adapter.application_data_roots();
    let roots = match roots_reported {
        Ok(r) => r,
        Err(e) => {
            return Err(e);
        },
    };
    let candidates = collect_candidates(adapter, &roots)?;
    let mut applications: Vec<ApplicationMetadata> = Vec::new();
    let mut component_lists: Vec<Vec<String>> = Vec::new();
    let ghost mut metas: Seq<ApplicationMetadata> = Seq::empty();
    let mut b: usize = 0;
    while b < bundle_paths.len()
        invariant
            b <= bundle_paths@.len(),
            applications@.len() == component_lists@.len(),
            forall|k: int| 0 <= k < applications@.len() ==> !(#[trigger] applications@[k]).is_system_application,
            metas.len() == b,
            forall|i: int| 0 <= i < metas.len() ==> adapter.reports_app_metadata(bundle_paths@[i]@, Ok(#[trigger] metas[i])),
            applications@.len() == kept_apps(bundle_paths@, metas, b as int).len(),
            forall|k: int| 0 <= k < applications@.len() ==> #[trigger] applications@[k] == kept_apps(bundle_paths@, metas, b as int)[k].1,
            forall|k: int|
                0 <= k < component_lists@.len() ==> adapter.reports_shared_components(
                    kept_apps(bundle_paths@, metas, b as int)[k].0,
                    Ok(#[trigger] component_lists@[k]),
                ),
        decreases bundle_paths@.len() - b,
    {
        let metadata = match adapter.application_metadata(&bundle_paths[b]) {
            Ok(m) => m,
            Err(e) => {
                assert(adapter.reports_app_metadata(bundle_paths@[b as int]@, Err(e)));
                return Err(e);
            },
        };
        let ghost before = metas;
        proof {
            metas = metas.push(metadata);
            lemma_kept_agree(bundle_paths@, before, metas, b as int);
        }
        if !metadata.is_system_application {
            let shared_components = match adapter.application_shared_components(&bundle_paths[b]) {
                Ok(c) => c,
                Err(e) => {
                    assert(adapter.reports_shared_components(bundle_paths@[b as int]@, Err(e)));
                    return Err(e);
                },
            };
            applications.push(metadata);
            component_lists.push(shared_components);
        }
        b = b + 1;
    }
    let ghost kept = kept_apps(bundle_paths@, metas, bundle_paths@.len() as int);
    let ghost lists = list_views(component_lists@);
    let ghost mut related: Seq<Vec<RelatedFile>> = Seq::empty();
    let ghost mut running: Seq<bool> = Seq::empty();
    let mut entries: Vec<ApplicationEntry> = Vec::new();
    let mut associated_paths: Vec<String> = Vec::new();
    let mut a: usize = 0;
    while a < applications.len()
        invariant
            a <= applications@.len(),
            applications@.len() == component_lists@.len(),
            forall|k: int| 0 <= k < applications@.len() ==> !(#[trigger] applications@[k]).is_system_application,
            forall|k: int| 0 <= k < entries@.len() ==> {
                &&& entry_settled(#[trigger] entries@[k])
                &&& strictly_sorted(file_path_keys(entries@[k].related_files@))
                &&& exists|m: ApplicationMetadata| entry_from(entries@[k], m)
                &&& forall|j: int|
                    0 <= j < entries@[k].related_files@.len() ==> listed_safely(#[trigger] entries@[k].related_files@[j]@)
            },
            forall|k: int, j: int|
                0 <= k < entries@.len() && 0 <= j < entries@[k].related_files@.len() ==> path_recorded(
                    associated_paths@,
                    #[trigger] entries@[k].related_files@[j].path@,
                ),
            kept == kept_apps(bundle_paths@, metas, bundle_paths@.len() as int),
            lists == list_views(component_lists@),
            applications@.len() == kept.len(),
            forall|k: int| 0 <= k < applications@.len() ==> #[trigger] applications@[k] == kept[k].1,
            entries@.len() == a,
            related.len() == a,
            running.len() == a,
            forall|k: int| 0 <= k < a ==> entry_of(#[trigger] entries@[k], kept[k].1, related[k]@, running[k]),
            forall|k: int| 0 <= k < a ==> adapter.reports_running(kept[k].1.install_location@, #[trigger] running[k]),
            string_views(associated_paths@) == tied_paths(kept, candidates@, lists, a as int),
        decreases applications@.len() - a,
    {
        let metadata = &applications[a];
        let associations = associations_for_application(
            metadata,
            &candidates,
            &component_lists,
            &component_lists[a],
        );
        let related_files = match related_files_for_application(adapter, &associations) {
            Ok(files) => files,
            Err(e) => {
                return Err(e);
            },
        };
        let ghost paths_before = associated_paths@;
        let mut j: usize = 0;
        while j < associations.len()
            invariant
                j <= associations@.len(),
                associated_paths@.len() == paths_before.len() + j,
                associated_paths@.subrange(0, paths_before.len() as int) == paths_before,
                forall|t: int| 0 <= t < j ==> (#[trigger] associated_paths@[paths_before.len() + t])@
                    == associations@[t].candidate.path@,
            decreases associations@.len() - j,
        {
            let ghost pb = associated_paths@;
            associated_paths.push(associations[j].candidate.path.clone());
            assert(associated_paths@.subrange(0, paths_before.len() as int) =~= pb.subrange(0, paths_before.len() as int));
            assert forall|t: int| 0 <= t < j + 1 implies (#[trigger] associated_paths@[paths_before.len() + t])@
                == associations@[t].candidate.path@ by {
                if t < j {
                    assert(associated_paths@[paths_before.len() + t] == pb[paths_before.len() + t]);
                }
            }
            j = j + 1;
        }
        assert forall|t: int| 0 <= t < associations@.len() implies path_recorded(associated_paths@, #[trigger] associations@[t].candidate.path@) by {
            assert(associated_paths@[paths_before.len() + t]@ == associations@[t].candidate.path@);
        }
        assert forall|p: Seq<char>| path_recorded(paths_before, p) implies #[trigger] path_recorded(associated_paths@, p) by {
            let m = choose|m: int| 0 <= m < paths_before.len() && (#[trigger] paths_before[m])@ == p;
            assert(associated_paths@.subrange(0, paths_before.len() as int)[m] == paths_before[m]);
        }
        assert forall|f: RelatedFile| from_listed_tie(f@, associations@) implies #[trigger] path_recorded(associated_paths@, f.path@) by {
            let t = choose|t: int|
                0 <= t < associations@.len() && eligible(#[trigger] associations@[t]@) && exists|v: u64|
                    f@ == finished(
                        related_file_view(associations@[t].candidate, v),
                        associations@[t]@,
                        sensitive_paths_of(association_views(associations@)),
                    );
            assert(path_recorded(associated_paths@, associations@[t].candidate.path@));
        }
        proof {
            let added = association_views(associations@).map_values(|v: AssociationView| v.path);
            assert(lists[a as int] == string_views(component_lists@[a as int]@));
            assert(string_views(associated_paths@) =~= string_views(paths_before) + added) by {
                assert forall|t: int| 0 <= t < associated_paths@.len() implies #[trigger] string_views(associated_paths@)[t]
                    == (string_views(paths_before) + added)[t] by {
                    if t < paths_before.len() {
                        assert(associated_paths@.subrange(0, paths_before.len() as int)[t] == paths_before[t]);
                    } else {
                        assert(associated_paths@[paths_before.len() + (t - paths_before.len())]@
                            == associations@[t - paths_before.len()].candidate.path@);
                    }
                }
            }
        }
        let ghost related_now = related_files;
        let is_running = adapter.is_application_running(&metadata.install_location);
        let entry = application_entry(metadata, related_files, is_running);
        let ghost rb = related;
        let ghost runb = running;
        proof {
            related = related.push(related_now);
            running = running.push(is_running);
        }
        let ghost eb = entries@;
        entries.push(entry);
        assert(entry_from(entries@[eb.len() as int], applications@[a as int]));
        assert forall|k: int| 0 <= k < entries@.len() implies {
            &&& entry_settled(#[trigger] entries@[k])
            &&& strictly_sorted(file_path_keys(entries@[k].related_files@))
            &&& exists|m: ApplicationMetadata| entry_from(entries@[k], m)
            &&& forall|j: int|
                0 <= j < entries@[k].related_files@.len() ==> listed_safely(#[trigger] entries@[k].related_files@[j]@)
        } by {
            if k < eb.len() {
                assert(entries@[k] == eb[k]);
            } else {
                assert(entry_from(entries@[k], applications@[a as int]));
            }
        }
        assert forall|k: int, j: int|
            0 <= k < entries@.len() && 0 <= j < entries@[k].related_files@.len() implies path_recorded(
                associated_paths@,
                #[trigger] entries@[k].related_files@[j].path@,
            ) by {
            if k < eb.len() {
                assert(entries@[k] == eb[k]);
                assert(path_recorded(paths_before, eb[k].related_files@[j].path@));
            } else {
                assert(from_listed_tie(entries@[k].related_files@[j]@, associations@));
            }
        }
        assert(applications@[a as int] == kept[a as int].1);
        assert(related[a as int] == related_now);
        assert(entry_of(entries@[a as int], kept[a as int].1, related[a as int]@, running[a as int]));
        assert forall|k: int|
            0 <= k < a + 1 implies entry_of(#[trigger] entries@[k], kept[k].1, related[k]@, running[k]) by {
            if k < a {
                assert(entries@[k] == eb[k]);
                assert(related[k] == rb[k]);
                assert(running[k] == runb[k]);
                assert(entry_of(eb[k], kept[k].1, rb[k]@, runb[k]));
            }
        }
        assert forall|k: int| 0 <= k < a + 1 implies adapter.reports_running(kept[k].1.install_location@, #[trigger] running[k]) by {
            if k < a {
                assert(running[k] == runb[k]);
            }
        }
        a = a + 1;
    }
    let ghost tied = tied_paths(kept, candidates@, lists, kept.len() as int);
    let ghost mut measured: Seq<Option<RelatedFile>> = Seq::empty();
    let mut orphans: Vec<RelatedFile> = Vec::new();
    let mut c: usize = 0;
    while c < candidates.len()
        invariant
            c <= candidates@.len(),
            string_views(associated_paths@) == tied,
            measured.len() == c,
            forall|i: int|
                0 <= i < c && leftover(tied, #[trigger] candidates@[i]) ==> built_through(
                    adapter,
                    candidates@[i],
                    Ok(measured[i]),
                ),
            orphans@ == orphans_upto(candidates@, tied, measured, c as int),
            forall|k: int| 0 <= k < orphans@.len() ==> {
                &&& orphan_settled(#[trigger] orphans@[k]@)
                &&& orphan_of_candidate(orphans@[k]@)
            },
            forall|o: int, m: int|
                0 <= o < orphans@.len() && 0 <= m < associated_paths@.len() ==> !crate::paths::path_eq(
                    (#[trigger] associated_paths@[m])@,
                    #[trigger] orphans@[o].path@,
                ),
            forall|k: int, j: int|
                0 <= k < entries@.len() && 0 <= j < entries@[k].related_files@.len() ==> path_recorded(
                    associated_paths@,
                    #[trigger] entries@[k].related_files@[j].path@,
                ),
        decreases candidates@.len() - c,
    {
        let candidate = &candidates[c];
        let skip = path_listed(&associated_paths, &candidate.path)
            || !is_exact_identity_candidate(&candidate.path, &candidate.root.path, None);
        proof {
            if !skip {
                assert forall|m: int| 0 <= m < tied.len() implies !crate::paths::path_eq(#[trigger] tied[m], candidate.path@) by {
                    assert(tied[m] == associated_paths@[m]@);
                }
            } else if exact_identity(candidate.path@, candidate.root.path@, None) {
                let m = choose|m: int| 0 <= m < associated_paths@.len() && crate::paths::path_eq(#[trigger] associated_paths@[m]@, candidate.path@);
                assert(tied[m] == associated_paths@[m]@);
            }
            assert(leftover(tied, candidates@[c as int]) == !skip);
        }
        let ghost mb = measured;
        let ghost orphans_before = orphans@;
        if !skip {
            let built = build_related_file(adapter, candidate);
            match built {
                Err(e) => {
                    assert(adapter.reports_footprint(candidate.path@, Err(e)));
                    return Err(e);
                },
                Ok(None) => {
                    proof {
                        measured = measured.push(None);
                    }
                },
                Ok(Some(related)) => {
                    proof {
                        measured = measured.push(Some(related));
                    }
                    let ghost ob = orphans@;
                    let ghost v = choose|v: u64| related@ == related_file_view(*candidate, v);
                    assert(related@ == related_file_view(*candidate, v));
                    assert(orphan_of_candidate(related@));
                    orphans.push(related);
                    assert forall|k: int| 0 <= k < orphans@.len() implies {
                        &&& orphan_settled(#[trigger] orphans@[k]@)
                        &&& orphan_of_candidate(orphans@[k]@)
                    } by {
                        if k < ob.len() {
                            assert(orphans@[k] == ob[k]);
                        }
                    }
                    assert forall|o: int, m: int|
                        0 <= o < orphans@.len() && 0 <= m < associated_paths@.len() implies !crate::paths::path_eq(
                            (#[trigger] associated_paths@[m])@,
                            #[trigger] orphans@[o].path@,
                        ) by {
                        if o < ob.len() {
                            assert(orphans@[o] == ob[o]);
                        } else {
                            assert(orphans@[o].path@ == candidate.path@);
                        }
                    }
                },
            }
        } else {
            proof {
                measured = measured.push(None);
            }
        }
        proof {
            lemma_orphans_agree(candidates@, tied, mb, measured, c as int);
            assert(orphans@ == orphans_upto(candidates@, tied, measured, c + 1));
            assert forall|i: int|
                0 <= i < c + 1 && leftover(tied, #[trigger] candidates@[i]) implies built_through(
                    adapter,
                    candidates@[i],
                    Ok(measured[i]),
                ) by {
                if i < c {
                    assert(measured[i] == mb[i]);
                }
            }
        }
        c = c + 1;
    }
    assert forall|o: int, k: int, j: int|
        0 <= o < orphans@.len() && 0 <= k < entries@.len() && 0 <= j < entries@[k].related_files@.len()
            implies !crate::paths::path_eq(
            #[trigger] orphans@[o].path@,
            #[trigger] entries@[k].related_files@[j].path@,
        ) by {
        assert(path_recorded(associated_paths@, entries@[k].related_files@[j].path@));
        let m = choose|m: int|
            0 <= m < associated_paths@.len() && (#[trigger] associated_paths@[m])@
                == entries@[k].related_files@[j].path@;
        assert(!crate::paths::path_eq(associated_paths@[m]@, orphans@[o].path@));
    }
    let inv = ApplicationInventory { applications: entries, orphans };
    proof {
        assert(inventory_from(
            adapter,
            bundle_paths,
            metas,
            component_lists@,
            roots,
            candidates@,
            related,
            running,
            measured,
            inv,
        ));
    }
    Ok(inv)
}

} // verus!
