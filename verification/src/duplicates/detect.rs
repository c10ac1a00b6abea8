//! Candidate records, exclusion of protected and version-controlled paths, and storage
//! sharing between copies.

use vstd::prelude::*;
use crate::classify::matcher::MatchContext;
use crate::classify::protected::{
    evaluate_protected_roots, is_protected_item, lemma_protection_ignores_original_path, protected_root_table,
};
use crate::duplicates::model::StorageSharingKind;
use crate::paths::{components, path_components, path_join, path_starts_with, vs};
use crate::platform::{
    DiscoveredPath, EntryMetadata, EntryType, FileIdentity, PlatformAdapter, PlatformError,
    ResolvedPath,
};
use crate::text::chars_eq;

verus! {

/// Candidate file record before grouping.
#[derive(Debug, Clone)]
pub struct CandidateFile {
    pub path: String,
    pub canonical_path: String,
    pub normalized_path: String,
    pub identity: FileIdentity,
    pub size_bytes: u64,
    pub modified_ms: Option<u64>,
}

impl CandidateFile {
    /// An exact copy.
    pub fn duplicate(&self) -> (r: Self)
        ensures
            r == *self,
    {
        CandidateFile {
            path: self.path.clone(),
            canonical_path: self.canonical_path.clone(),
            normalized_path: self.normalized_path.clone(),
            identity: self.identity,
            size_bytes: self.size_bytes,
            modified_ms: self.modified_ms,
        }
    }
}

pub open spec fn git_dir_name() -> Seq<char> {
    seq!['.', 'g', 'i', 't']
}

/// Some component of the path is `.git`.
pub open spec fn has_git_component(p: Seq<char>) -> bool {
    exists|i: int| 0 <= i < components(p).len() && #[trigger] components(p)[i] == git_dir_name()
}

/// Whether some component of the path is `.git`.
pub fn is_git_internal(path: &str) -> (b: bool)
    ensures
        b == has_git_component(path@),
{
    let comps = path_components(path);
    let git: Vec<char> = vec!['.', 'g', 'i', 't'];
    assert(git@ == git_dir_name());
    let mut i: usize = 0;
    while i < comps.len()
        invariant
            vs(comps@) == components(path@),
            git@ == git_dir_name(),
            i <= comps@.len(),
            forall|j: int| 0 <= j < i ==> #[trigger] components(path@)[j] != git_dir_name(),
        decreases comps@.len() - i,
    {
        assert(vs(comps@)[i as int] == comps@[i as int]@);
        if chars_eq(comps[i].as_slice(), git.as_slice()) {
            return true;
        }
        i = i + 1;
    }
    assert(comps@.len() == components(path@).len());
    false
}

/// Some string whose characters are `s`.
pub open spec fn string_with_view(s: Seq<char>) -> String {
    choose|t: String| t@ == s
}

/// The path reported, where the platform reported one.
pub open spec fn reported_dir_path(d: Result<DiscoveredPath, PlatformError>) -> Option<String> {
    match d {
        Ok(p) => Some(p.path),
        Err(_) => None,
    }
}

/// The context the protected-root table is evaluated against for a duplicate candidate,
/// from what the platform reported of it and of the standard directories.
pub open spec fn exclusion_ctx(
    path: Seq<char>,
    resolved: ResolvedPath,
    identity: FileIdentity,
    metadata: EntryMetadata,
    home: Result<DiscoveredPath, PlatformError>,
    app_support: Result<DiscoveredPath, PlatformError>,
    caches: Result<DiscoveredPath, PlatformError>,
) -> MatchContext {
    MatchContext {
        original_path: string_with_view(path),
        canonical_path: resolved.canonical,
        normalized_path: resolved.normalized,
        entry_type: metadata.entry_type,
        identity,
        apparent_size: metadata.apparent_size,
        allocated_size: metadata.allocated_size,
        modified_ms: metadata.modified_ms,
        is_symlink: metadata.entry_type == EntryType::Symlink,
        symlink_target_canonical: None,
        home_dir: reported_dir_path(home),
        home_dir_canonical: None,
        app_support_dir: reported_dir_path(app_support),
        caches_dir: reported_dir_path(caches),
        crosses_mount_boundary: false,
        inside_git_repo: true,
        is_git_internal: false,
    }
}

/// Exclusion from what the platform reported: any failed query excludes the path, and
/// otherwise it is excluded exactly when a protected root covers it.
pub open spec fn excluded_by_reports(
    path: Seq<char>,
    resolved: Result<ResolvedPath, PlatformError>,
    identity: Result<FileIdentity, PlatformError>,
    metadata: Result<EntryMetadata, PlatformError>,
    home: Result<DiscoveredPath, PlatformError>,
    app_support: Result<DiscoveredPath, PlatformError>,
    caches: Result<DiscoveredPath, PlatformError>,
) -> bool {
    match (resolved, identity, metadata) {
        (Ok(r), Ok(i), Ok(m)) => is_protected_item(exclusion_ctx(path, r, i, m, home, app_support, caches)),
        _ => true,
    }
}

fn dir_path(d: &Result<DiscoveredPath, PlatformError>) -> (r: Option<String>)
    ensures
        r == reported_dir_path(*d),
{
    match d {
        Ok(p) => Some(p.path.clone()),
        Err(_) => None,
    }
}

/// Decides exclusion from what the platform reported about the path: any failed query
/// excludes it, and otherwise it is excluded exactly when a protected root covers it.
pub fn exclusion_from_reports(
    path: &str,
    resolved: &Result<ResolvedPath, PlatformError>,
    identity: &Result<FileIdentity, PlatformError>,
    metadata: &Result<EntryMetadata, PlatformError>,
    home: &Result<DiscoveredPath, PlatformError>,
    app_support: &Result<DiscoveredPath, PlatformError>,
    caches: &Result<DiscoveredPath, PlatformError>,
) -> (excluded: bool)
    ensures
        excluded == excluded_by_reports(path@, *resolved, *identity, *metadata, *home, *app_support, *caches),
{
    let r = match resolved {
        Ok(r) => r,
        Err(_) => {
            return true;
        },
    };
    let id = match identity {
        Ok(i) => *i,
        Err(_) => {
            return true;
        },
    };
    let meta = match metadata {
        Ok(m) => *m,
        Err(_) => {
            return true;
        },
    };
    let ctx = MatchContext {
        original_path: crate::text::owned(path),
        canonical_path: r.canonical.clone(),
        normalized_path: r.normalized.clone(),
        entry_type: meta.entry_type,
        identity: id,
        apparent_size: meta.apparent_size,
        allocated_size: meta.allocated_size,
        modified_ms: meta.modified_ms,
        is_symlink: meta.entry_type == EntryType::Symlink,
        symlink_target_canonical: None,
        home_dir: dir_path(home),
        home_dir_canonical: None,
        app_support_dir: dir_path(app_support),
        caches_dir: dir_path(caches),
        crosses_mount_boundary: false,
        inside_git_repo: true,
        is_git_internal: false,
    };
    proof {
        lemma_protection_ignores_original_path(ctx, exclusion_ctx(path@, *r, id, meta, *home, *app_support, *caches));
    }
    let found = evaluate_protected_roots(&ctx);
    found.is_some()
}

/// When the resolution, identity and metadata queries about a path all succeeded, the
/// path is excluded from duplicate detection exactly when some standard protected root
/// covers it, judged on the context built from those reports.
pub proof fn law_reported_path_excluded_iff_protected(
    path: Seq<char>,
    resolved: ResolvedPath,
    identity: FileIdentity,
    metadata: EntryMetadata,
    home: Result<DiscoveredPath, PlatformError>,
    app_support: Result<DiscoveredPath, PlatformError>,
    caches: Result<DiscoveredPath, PlatformError>,
)
    ensures
        excluded_by_reports(path, Ok(resolved), Ok(identity), Ok(metadata), home, app_support, caches)
            <==> exists|j: int|
            0 <= j < protected_root_table().len() && #[trigger] protected_root_table()[j].spec_matches(
                exclusion_ctx(path, resolved, identity, metadata, home, app_support, caches),
            ),
{
}

/// A path that resolves inside a protected root's system prefix, or inside its location
/// relative to the reported home directory, is never a duplicate candidate.
pub proof fn law_paths_under_protected_roots_are_excluded(
    path: Seq<char>,
    resolved: ResolvedPath,
    identity: FileIdentity,
    metadata: EntryMetadata,
    home: Result<DiscoveredPath, PlatformError>,
    app_support: Result<DiscoveredPath, PlatformError>,
    caches: Result<DiscoveredPath, PlatformError>,
    j: int,
)
    requires
        0 <= j < protected_root_table().len(),
        ({
            let d = protected_root_table()[j];
            ||| d.system_prefix matches Some(p) && path_starts_with(resolved.canonical@, p@)
            ||| home matches Ok(h) && d.home_relative_prefix matches Some(rel) && path_starts_with(
                resolved.canonical@,
                path_join(h.path@, rel@),
            )
        }),
    ensures
        excluded_by_reports(path, Ok(resolved), Ok(identity), Ok(metadata), home, app_support, caches),
{
    let ctx = exclusion_ctx(path, resolved, identity, metadata, home, app_support, caches);
    assert(protected_root_table()[j].spec_matches_path(ctx));
    assert(protected_root_table()[j].spec_matches(ctx));
}

/// Key material under `~/.ssh` is never a duplicate candidate.
pub proof fn law_ssh_material_is_excluded(
    path: Seq<char>,
    resolved: ResolvedPath,
    identity: FileIdentity,
    metadata: EntryMetadata,
    home: DiscoveredPath,
    app_support: Result<DiscoveredPath, PlatformError>,
    caches: Result<DiscoveredPath, PlatformError>,
)
    requires
        path_starts_with(resolved.canonical@, path_join(home.path@, ".ssh"@)),
    ensures
        excluded_by_reports(path, Ok(resolved), Ok(identity), Ok(metadata), Ok(home), app_support, caches),
{
    assert(protected_root_table()[26].home_relative_prefix == Some(".ssh"));
    law_paths_under_protected_roots_are_excluded(
        path,
        resolved,
        identity,
        metadata,
        Ok(home),
        app_support,
        caches,
        26,
    );
}

/// What `is_excluded_path` decides for `path` through `adapter`: a `.git` component or a
/// found `.git` entry excludes it; otherwise the exclusion is decided by
/// `excluded_by_reports` on what the adapter reported for that path (its resolution, then
/// its identity, then its metadata, each asked only while the earlier ones succeeded) and
/// on the standard directories it reported.
pub open spec fn exclusion_reported<A: PlatformAdapter>(
    adapter: &A,
    path: Seq<char>,
    git_marker_found: bool,
    excluded: bool,
) -> bool {
    if has_git_component(path) || git_marker_found {
        excluded
    } else {
        exists|
            resolved: Result<ResolvedPath, PlatformError>,
            identity: Result<FileIdentity, PlatformError>,
            metadata: Result<EntryMetadata, PlatformError>,
            home: Result<DiscoveredPath, PlatformError>,
            app_support: Result<DiscoveredPath, PlatformError>,
            caches: Result<DiscoveredPath, PlatformError>,
        |
            {
                &&& adapter.reports_resolution(path, resolved)
                &&& resolved is Ok ==> adapter.reports_identity(path, identity)
                &&& resolved is Ok && identity is Ok ==> adapter.reports_metadata(path, metadata)
                &&& resolved is Ok && identity is Ok && metadata is Ok ==> {
                    &&& adapter.reports_home(home)
                    &&& adapter.reports_app_support(app_support)
                    &&& adapter.reports_caches(caches)
                }
                &&& excluded == #[trigger] excluded_by_reports(
                    path,
                    resolved,
                    identity,
                    metadata,
                    home,
                    app_support,
                    caches,
                )
            }
    }
}

/// Whether a path is excluded from duplicate detection: a `.git` component, a `.git`
/// entry found in one of its ancestors (`git_marker_found`, which the caller learns from
/// the filesystem), a failed platform query, or a protected root that covers it.
pub fn is_excluded_path<A: PlatformAdapter>(path: &str, adapter: &A, git_marker_found: bool) -> (excluded: bool)
    ensures
        exclusion_reported(adapter, path@, git_marker_found, excluded),
{
    if is_git_internal(path) || git_marker_found {
        return true;
    }
    let ghost no_identity: Result<FileIdentity, PlatformError> = arbitrary();
    let ghost no_metadata: Result<EntryMetadata, PlatformError> = arbitrary();
    let ghost no_dir: Result<DiscoveredPath, PlatformError> = arbitrary();
    let resolved = adapter.canonicalize_and_normalize(path);
    if resolved.is_err() {
        assert(excluded_by_reports(path@, resolved, no_identity, no_metadata, no_dir, no_dir, no_dir));
        return true;
    }
    let identity = adapter.file_identity(path);
    if identity.is_err() {
        assert(excluded_by_reports(path@, resolved, identity, no_metadata, no_dir, no_dir, no_dir));
        return true;
    }
    let metadata = adapter.read_entry_metadata(path);
    if metadata.is_err() {
        assert(excluded_by_reports(path@, resolved, identity, metadata, no_dir, no_dir, no_dir));
        return true;
    }
    let home = adapter.home_directory();
    let app_support = adapter.application_support_directory();
    let caches = adapter.caches_directory();
    let excluded = exclusion_from_reports(path, &resolved, &identity, &metadata, &home, &app_support, &caches);
    assert(excluded == excluded_by_reports(path@, resolved, identity, metadata, home, app_support, caches));
    excluded
}

/// What storage a copy shares with the reference copy: the same inode on the same device
/// is a hardlink; on the same device, a non-empty copy whose first physical extent equals
/// the reference's is a copy-on-write clone; anything else is independent. The extents
/// are those the filesystem reports, `None` where it reports none.
pub open spec fn storage_sharing(
    candidate: CandidateFile,
    reference: CandidateFile,
    candidate_extent: Option<i64>,
    reference_extent: Option<i64>,
) -> StorageSharingKind {
    if candidate.identity.device_id == reference.identity.device_id && candidate.identity.inode
        == reference.identity.inode {
        StorageSharingKind::Hardlink
    } else if candidate.identity.device_id == reference.identity.device_id && candidate.size_bytes
        > 0 && candidate_extent is Some && reference_extent is Some && candidate_extent
        == reference_extent {
        StorageSharingKind::ApfsClone
    } else {
        StorageSharingKind::Independent
    }
}

/// Identifies whether a candidate copy shares physical storage with a reference copy.
pub fn detect_storage_sharing(
    candidate: &CandidateFile,
    reference: &CandidateFile,
    candidate_extent: Option<i64>,
    reference_extent: Option<i64>,
) -> (kind: StorageSharingKind)
    ensures
        kind == storage_sharing(*candidate, *reference, candidate_extent, reference_extent),
{
    if candidate.identity.device_id == reference.identity.device_id && candidate.identity.inode
        == reference.identity.inode {
        return StorageSharingKind::Hardlink;
    }
    if candidate.identity.device_id == reference.identity.device_id && candidate.size_bytes > 0 {
        match (candidate_extent, reference_extent) {
            (Some(a), Some(b)) => {
                if a == b {
                    return StorageSharingKind::ApfsClone;
                }
            },
            _ => {},
        }
    }
    StorageSharingKind::Independent
}

} // verus!
