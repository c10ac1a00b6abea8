//! What the boundary commands observe about a path, and the protected-root contexts they
//! build from it.

use vstd::prelude::*;
use crate::classify::matcher::MatchContext;
use crate::platform::{DiscoveredPath, EntryMetadata, EntryType, FileIdentity, PlatformAdapter, PlatformError, ResolvedPath};
use crate::text::{clone_opt, opt_view, owned};

verus! {

/// What the filesystem reports about a path without following it: whether it is a
/// symbolic link, whether it is (or leads to) a directory, and, for a link, its target
/// with every link resolved, where that could be resolved.
#[derive(Debug, Clone, PartialEq, Eq)]
pub struct FsObservation {
    pub is_symlink: bool,
    pub is_dir: bool,
    pub symlink_target_canonical: Option<String>,
}

/// The standard directories the platform reported, `None` where it reported an error.
#[derive(Debug, Clone, PartialEq, Eq)]
pub struct StandardDirs {
    pub home: Option<String>,
    pub app_support: Option<String>,
    pub caches: Option<String>,
}

pub open spec fn reported_dir(d: Result<DiscoveredPath, PlatformError>) -> Option<Seq<char>> {
    match d {
        Ok(p) => Some(p.path@),
        Err(_) => None,
    }
}

/// The path reported, where the platform reported one.
pub open spec fn reported_path(d: Result<DiscoveredPath, PlatformError>) -> Option<String> {
    match d {
        Ok(p) => Some(p.path),
        Err(_) => None,
    }
}

/// The standard directories from what the platform reported.
pub open spec fn dirs_from(
    home: Result<DiscoveredPath, PlatformError>,
    app_support: Result<DiscoveredPath, PlatformError>,
    caches: Result<DiscoveredPath, PlatformError>,
) -> StandardDirs {
    StandardDirs {
        home: reported_path(home),
        app_support: reported_path(app_support),
        caches: reported_path(caches),
    }
}

/// The standard directories from what the platform reported.
pub fn standard_dirs_from(
    home: &Result<DiscoveredPath, PlatformError>,
    app_support: &Result<DiscoveredPath, PlatformError>,
    caches: &Result<DiscoveredPath, PlatformError>,
) -> (d: StandardDirs)
    ensures
        opt_view(d.home) == reported_dir(*home),
        opt_view(d.app_support) == reported_dir(*app_support),
        opt_view(d.caches) == reported_dir(*caches),
        d == dirs_from(*home, *app_support, *caches),
{
    StandardDirs {
        home: match home {
            Ok(p) => Some(p.path.clone()),
            Err(_) => None,
        },
        app_support: match app_support {
            Ok(p) => Some(p.path.clone()),
            Err(_) => None,
        },
        caches: match caches {
            Ok(p) => Some(p.path.clone()),
            Err(_) => None,
        },
    }
}

/// Asks the platform for its standard directories.
pub fn standard_dirs<A: PlatformAdapter>(adapter: &A) -> (d: StandardDirs)
    ensures
        exists|
            home: Result<DiscoveredPath, PlatformError>,
            app_support: Result<DiscoveredPath, PlatformError>,
            caches: Result<DiscoveredPath, PlatformError>,
        |
            adapter.reports_home(home) && adapter.reports_app_support(app_support) && adapter.reports_caches(caches)
                && d == #[trigger] dirs_from(home, app_support, caches),
{
    let home = adapter.home_directory();
    let app_support = adapter.application_support_directory();
    let caches = adapter.caches_directory();
    standard_dirs_from(&home, &app_support, &caches)
}

/// The resolution of `path`, or the path itself for each form when it could not be resolved.
pub open spec fn resolved_or(path: Seq<char>, resolved: Result<ResolvedPath, PlatformError>) -> (Seq<char>, Seq<char>) {
    match resolved {
        Ok(r) => (r.canonical@, r.normalized@),
        Err(_) => (path, path),
    }
}

pub open spec fn identity_or_zero(identity: Result<FileIdentity, PlatformError>) -> FileIdentity {
    match identity {
        Ok(i) => i,
        Err(_) => FileIdentity { device_id: 0, inode: 0 },
    }
}

pub open spec fn observed_type(fs: FsObservation) -> EntryType {
    if fs.is_symlink {
        EntryType::Symlink
    } else if fs.is_dir {
        EntryType::Directory
    } else {
        EntryType::File
    }
}

/// The directories of `dirs` carried into `ctx`, with no resolved home.
pub open spec fn carries_dirs(ctx: MatchContext, dirs: StandardDirs) -> bool {
    &&& ctx.home_dir == dirs.home
    &&& ctx.home_dir_canonical is None
    &&& ctx.app_support_dir == dirs.app_support
    &&& ctx.caches_dir == dirs.caches
    &&& !ctx.crosses_mount_boundary
    &&& !ctx.inside_git_repo
    &&& !ctx.is_git_internal
}

fn resolved_forms(path: &str, resolved: &Result<ResolvedPath, PlatformError>) -> (r: (String, String))
    ensures
        (r.0@, r.1@) == resolved_or(path@, *resolved),
{
    match resolved {
        Ok(r) => (r.canonical.clone(), r.normalized.clone()),
        Err(_) => (owned(path), owned(path)),
    }
}

fn identity_or_zero_exec(identity: &Result<FileIdentity, PlatformError>) -> (i: FileIdentity)
    ensures
        i == identity_or_zero(*identity),
{
    match identity {
        Ok(i) => *i,
        Err(_) => FileIdentity { device_id: 0, inode: 0 },
    }
}

/// The context in which a finding is checked against the protected roots when it is
/// admitted into a plan: its size as both sizes, its type as the filesystem reports it.
pub fn plan_admission_context(
    path: &str,
    resolved: &Result<ResolvedPath, PlatformError>,
    identity: &Result<FileIdentity, PlatformError>,
    size_bytes: u64,
    fs: &FsObservation,
    dirs: &StandardDirs,
) -> (ctx: MatchContext)
    ensures
        ctx.original_path@ == path@,
        (ctx.canonical_path@, ctx.normalized_path@) == resolved_or(path@, *resolved),
        ctx.entry_type == observed_type(*fs),
        ctx.identity == identity_or_zero(*identity),
        ctx.apparent_size == size_bytes,
        ctx.allocated_size == size_bytes,
        ctx.modified_ms is None,
        ctx.is_symlink == fs.is_symlink,
        ctx.symlink_target_canonical == fs.symlink_target_canonical,
        carries_dirs(ctx, *dirs),
{
    let (canonical, normalized) = resolved_forms(path, resolved);
    MatchContext {
        original_path: owned(path),
        canonical_path: canonical,
        normalized_path: normalized,
        entry_type: if fs.is_symlink {
            EntryType::Symlink
        } else if fs.is_dir {
            EntryType::Directory
        } else {
            EntryType::File
        },
        identity: identity_or_zero_exec(identity),
        apparent_size: size_bytes,
        allocated_size: size_bytes,
        modified_ms: None,
        is_symlink: fs.is_symlink,
        symlink_target_canonical: clone_opt(&fs.symlink_target_canonical),
        home_dir: clone_opt(&dirs.home),
        home_dir_canonical: None,
        app_support_dir: clone_opt(&dirs.app_support),
        caches_dir: clone_opt(&dirs.caches),
        crosses_mount_boundary: false,
        inside_git_repo: false,
        is_git_internal: false,
    }
}

/// The context in which a plan item is re-checked just before execution: sizes are not
/// consulted; the canonical path recorded in the plan stands in when the path cannot be
/// resolved now.
pub fn execution_context(
    original_path: &str,
    recorded_canonical: &str,
    resolved: &Result<ResolvedPath, PlatformError>,
    identity: &Result<FileIdentity, PlatformError>,
    fs: &FsObservation,
    dirs: &StandardDirs,
) -> (ctx: MatchContext)
    ensures
        ctx.original_path@ == original_path@,
        (ctx.canonical_path@, ctx.normalized_path@) == resolved_or(recorded_canonical@, *resolved),
        ctx.entry_type == observed_type(*fs),
        ctx.identity == identity_or_zero(*identity),
        ctx.apparent_size == 0,
        ctx.allocated_size == 0,
        ctx.modified_ms is None,
        ctx.is_symlink == fs.is_symlink,
        ctx.symlink_target_canonical == (if fs.is_symlink { fs.symlink_target_canonical } else { None }),
        carries_dirs(ctx, *dirs),
{
    let (canonical, normalized) = resolved_forms(recorded_canonical, resolved);
    MatchContext {
        original_path: owned(original_path),
        canonical_path: canonical,
        normalized_path: normalized,
        entry_type: if fs.is_symlink {
            EntryType::Symlink
        } else if fs.is_dir {
            EntryType::Directory
        } else {
            EntryType::File
        },
        identity: identity_or_zero_exec(identity),
        apparent_size: 0,
        allocated_size: 0,
        modified_ms: None,
        is_symlink: fs.is_symlink,
        symlink_target_canonical: if fs.is_symlink {
            clone_opt(&fs.symlink_target_canonical)
        } else {
            None
        },
        home_dir: clone_opt(&dirs.home),
        home_dir_canonical: None,
        app_support_dir: clone_opt(&dirs.app_support),
        caches_dir: clone_opt(&dirs.caches),
        crosses_mount_boundary: false,
        inside_git_repo: false,
        is_git_internal: false,
    }
}

/// The context in which a plan item is re-checked during revalidation: everything as
/// the platform reports it now.
pub fn revalidation_context(
    original_path: &str,
    metadata: &EntryMetadata,
    resolved: &ResolvedPath,
    symlink_target_canonical: &Option<String>,
    dirs: &StandardDirs,
) -> (ctx: MatchContext)
    ensures
        ctx.original_path@ == original_path@,
        ctx.canonical_path == resolved.canonical,
        ctx.normalized_path == resolved.normalized,
        ctx.entry_type == metadata.entry_type,
        ctx.identity == metadata.identity,
        ctx.apparent_size == metadata.apparent_size,
        ctx.allocated_size == metadata.allocated_size,
        ctx.modified_ms == metadata.modified_ms,
        ctx.is_symlink == (metadata.entry_type == EntryType::Symlink),
        ctx.symlink_target_canonical == (if metadata.entry_type == EntryType::Symlink {
            *symlink_target_canonical
        } else {
            None
        }),
        carries_dirs(ctx, *dirs),
{
    let is_symlink = metadata.entry_type == EntryType::Symlink;
    MatchContext {
        original_path: owned(original_path),
        canonical_path: resolved.canonical.clone(),
        normalized_path: resolved.normalized.clone(),
        entry_type: metadata.entry_type,
        identity: metadata.identity,
        apparent_size: metadata.apparent_size,
        allocated_size: metadata.allocated_size,
        modified_ms: metadata.modified_ms,
        is_symlink,
        symlink_target_canonical: if is_symlink {
            clone_opt(symlink_target_canonical)
        } else {
            None
        },
        home_dir: clone_opt(&dirs.home),
        home_dir_canonical: None,
        app_support_dir: clone_opt(&dirs.app_support),
        caches_dir: clone_opt(&dirs.caches),
        crosses_mount_boundary: false,
        inside_git_repo: false,
        is_git_internal: false,
    }
}

/// The context in which a restore destination is checked against the protected roots:
/// a regular file with the item's size and the identity it has in the Trash.
pub fn restore_destination_context(
    destination: &str,
    resolved: &Result<ResolvedPath, PlatformError>,
    identity: FileIdentity,
    size_bytes: u64,
    dirs: &StandardDirs,
) -> (ctx: MatchContext)
    ensures
        ctx.original_path@ == destination@,
        (ctx.canonical_path@, ctx.normalized_path@) == resolved_or(destination@, *resolved),
        ctx.entry_type == EntryType::File,
        ctx.identity == identity,
        ctx.apparent_size == size_bytes,
        ctx.allocated_size == size_bytes,
        ctx.modified_ms is None,
        !ctx.is_symlink,
        ctx.symlink_target_canonical is None,
        carries_dirs(ctx, *dirs),
{
    let (canonical, normalized) = resolved_forms(destination, resolved);
    MatchContext {
        original_path: owned(destination),
        canonical_path: canonical,
        normalized_path: normalized,
        entry_type: EntryType::File,
        identity,
        apparent_size: size_bytes,
        allocated_size: size_bytes,
        modified_ms: None,
        is_symlink: false,
        symlink_target_canonical: None,
        home_dir: clone_opt(&dirs.home),
        home_dir_canonical: None,
        app_support_dir: clone_opt(&dirs.app_support),
        caches_dir: clone_opt(&dirs.caches),
        crosses_mount_boundary: false,
        inside_git_repo: false,
        is_git_internal: false,
    }
}

} // verus!
