//! The platform boundary: plain records of what the operating system reports, the
//! `PlatformAdapter` contract that each operating system implements, and the pure
//! decisions that the macOS adapter makes on paths.

use vstd::prelude::*;
use crate::text::{concat2, concat3, owned, seq_contains_sub, str_contains};

verus! {

/// Diagnostic and execution errors emitted by platform adapters.
#[derive(Debug, Clone, PartialEq, Eq)]
pub enum PlatformError {
    Unsupported(&'static str),
    Io(String),
    NotFound(String),
    PermissionDenied { scope: String, reason: String, settings_target: Option<SettingsDestination> },
    ResolutionError(String),
    MetadataError(String),
    TrashError(String),
}

impl PlatformError {
    /// The human-readable description of the error.
    pub open spec fn spec_message(&self) -> Seq<char> {
        match self {
            PlatformError::Unsupported(cap) => "capability unsupported on this platform: "@ + cap@,
            PlatformError::Io(err) => "I/O error: "@ + err@,
            PlatformError::NotFound(path) => "path not found: "@ + path@,
            PlatformError::PermissionDenied { scope, reason, .. } => "permission denied for "@
                + scope@ + ": "@ + reason@,
            PlatformError::ResolutionError(msg) => "path resolution error: "@ + msg@,
            PlatformError::MetadataError(msg) => "metadata error: "@ + msg@,
            PlatformError::TrashError(msg) => "trash error: "@ + msg@,
        }
    }

    /// An exact copy.
    pub fn duplicate(&self) -> (r: Self)
        ensures
            r == *self,
    {
        match self {
            PlatformError::Unsupported(cap) => PlatformError::Unsupported(cap),
            PlatformError::Io(err) => PlatformError::Io(err.clone()),
            PlatformError::NotFound(path) => PlatformError::NotFound(path.clone()),
            PlatformError::PermissionDenied { scope, reason, settings_target } => PlatformError::PermissionDenied {
                scope: scope.clone(),
                reason: reason.clone(),
                settings_target: *settings_target,
            },
            PlatformError::ResolutionError(msg) => PlatformError::ResolutionError(msg.clone()),
            PlatformError::MetadataError(msg) => PlatformError::MetadataError(msg.clone()),
            PlatformError::TrashError(msg) => PlatformError::TrashError(msg.clone()),
        }
    }

    /// Renders the error as text.
    pub fn message(&self) -> (m: String)
        ensures
            m@ == self.spec_message(),
    {
        match self {
            PlatformError::Unsupported(cap) => concat2(
                "capability unsupported on this platform: ",
                cap,
            ),
            PlatformError::Io(err) => concat2("I/O error: ", err.as_str()),
            PlatformError::NotFound(path) => concat2("path not found: ", path.as_str()),
            PlatformError::PermissionDenied { scope, reason, .. } => {
                let head = concat3("permission denied for ", scope.as_str(), ": ");
                concat2(head.as_str(), reason.as_str())
            },
            PlatformError::ResolutionError(msg) => concat2("path resolution error: ", msg.as_str()),
            PlatformError::MetadataError(msg) => concat2("metadata error: ", msg.as_str()),
            PlatformError::TrashError(msg) => concat2("trash error: ", msg.as_str()),
        }
    }
}

/// Typed kind of discovered standard path.
#[derive(Debug, Clone, Copy, PartialEq, Eq, Structural)]
pub enum PathKind {
    Home,
    ApplicationSupport,
    Caches,
    Trash,
    Applications,
}

/// A discovered standard platform location.
#[derive(Debug, Clone, PartialEq, Eq)]
pub struct DiscoveredPath {
    pub path: String,
    pub kind: PathKind,
}

/// Role or scope of a scan root.
#[derive(Debug, Clone, Copy, PartialEq, Eq, Structural)]
pub enum ScanRootScope {
    UserHome,
    SystemApplications,
    UserApplications,
    Custom,
}

/// A default root directory where storage scans can begin.
#[derive(Debug, Clone, PartialEq, Eq)]
pub struct ScanRoot {
    pub path: String,
    pub label: String,
    pub scope: ScanRootScope,
}

/// System Settings destination to guide user permission grants.
#[derive(Debug, Clone, Copy, PartialEq, Eq, Structural)]
pub enum SettingsDestination {
    FullDiskAccess,
    FilesAndFolders,
    SystemSettings,
}

/// Permission query result for a given filesystem scope.
#[derive(Debug, Clone, PartialEq, Eq)]
pub struct ScopePermission {
    pub scope: String,
    pub is_readable: bool,
    pub required_settings: Option<SettingsDestination>,
}

/// A trashed filesystem item preserving its origin for Put Back recovery.
#[derive(Debug, Clone, PartialEq, Eq)]
pub struct TrashedItem {
    pub trashed_path: String,
    pub original_path: String,
    pub display_name: String,
}

/// Existence status of a previously trashed item.
#[derive(Debug, Clone, PartialEq, Eq)]
pub enum TrashedItemStatus {
    Present(TrashedItem),
    Missing(String),
}

/// Metadata describing an installed application bundle.
#[derive(Debug, Clone, PartialEq, Eq)]
pub struct ApplicationMetadata {
    pub bundle_identifier: Option<String>,
    pub name: String,
    pub version: Option<String>,
    pub developer_name: Option<String>,
    pub install_location: String,
    pub measured_footprint_bytes: u64,
    pub is_system_application: bool,
}

/// The kinds of per-user location where applications keep data outside their bundle.
#[derive(Debug, Clone, Copy, PartialEq, Eq, Hash, Structural)]
pub enum ApplicationDataRootKind {
    ApplicationSupport,
    Caches,
    Preferences,
    Containers,
    GroupContainers,
    SavedApplicationState,
    Logs,
    LaunchAgents,
    Frameworks,
}

/// A directory under which applications keep data of one kind.
#[derive(Debug, Clone, PartialEq, Eq)]
pub struct ApplicationDataRoot {
    pub path: String,
    pub kind: ApplicationDataRootKind,
}

/// Filesystem device and inode identity.
#[derive(Debug, Clone, Copy, PartialEq, Eq, Hash, Structural)]
pub struct FileIdentity {
    pub device_id: u64,
    pub inode: u64,
}

/// Canonical path information with firmlink normalisation.
#[derive(Debug, Clone, PartialEq, Eq)]
pub struct ResolvedPath {
    pub original: String,
    pub canonical: String,
    pub normalized: String,
    pub is_firmlink_alias: bool,
}

/// Boundary check when traversing across filesystems or mounts.
#[derive(Debug, Clone, Copy, PartialEq, Eq, Structural)]
pub struct MountBoundary {
    pub root_device_id: u64,
    pub path_device_id: u64,
    pub crosses_boundary: bool,
}

/// Category of filesystem entry visited during traversal.
#[derive(Debug, Clone, Copy, PartialEq, Eq, Hash, Structural)]
pub enum EntryType {
    File,
    Directory,
    Symlink,
    Other,
}

/// Rich metadata for a single filesystem entry, preserving allocated vs apparent size.
#[derive(Debug, Clone, Copy, PartialEq, Eq, Structural)]
pub struct EntryMetadata {
    pub identity: FileIdentity,
    pub entry_type: EntryType,
    pub apparent_size: u64,
    pub allocated_size: u64,
    pub modified_ms: Option<u64>,
    pub nlink: u64,
}

/// Platform capabilities contract. Each operating system supplies one implementation;
/// what it reports comes from the machine. The library states of each call only that its
/// result is what the adapter reported for the arguments it was given.
pub trait PlatformAdapter: Send + Sync {
    // What an adapter reported, as relations between a call's arguments and its result.
    // An adapter that states nothing of itself leaves each of them open; the machine may
    // answer differently from one call to the next.

    /// The adapter reports `name` as the name of its platform.
    closed spec fn reports_platform_name(&self, name: &'static str) -> bool {
        true
    }

    /// The adapter reported `r` as the home directory.
    closed spec fn reports_home(&self, r: Result<DiscoveredPath, PlatformError>) -> bool {
        true
    }

    /// The adapter reported `r` as the Application Support directory.
    closed spec fn reports_app_support(&self, r: Result<DiscoveredPath, PlatformError>) -> bool {
        true
    }

    /// The adapter reported `r` as the caches directory.
    closed spec fn reports_caches(&self, r: Result<DiscoveredPath, PlatformError>) -> bool {
        true
    }

    /// The adapter reported `r` as the metadata of the application bundle at `path`.
    closed spec fn reports_app_metadata(&self, path: Seq<char>, r: Result<ApplicationMetadata, PlatformError>) -> bool {
        true
    }

    /// The adapter reported `r` as the identity of the entry at `path`.
    closed spec fn reports_identity(&self, path: Seq<char>, r: Result<FileIdentity, PlatformError>) -> bool {
        true
    }

    /// The adapter reported `r` as the resolution of `path`.
    closed spec fn reports_resolution(&self, path: Seq<char>, r: Result<ResolvedPath, PlatformError>) -> bool {
        true
    }

    /// The adapter reported `r` as the metadata of the entry at `path`, not following it.
    closed spec fn reports_metadata(&self, path: Seq<char>, r: Result<EntryMetadata, PlatformError>) -> bool {
        true
    }

    /// The adapter reported `r` as the default scan roots.
    closed spec fn reports_default_roots(&self, r: Result<Vec<ScanRoot>, PlatformError>) -> bool {
        true
    }

    /// Canonical name of the platform.
    fn platform_name(&self) -> (r: &'static str)
        ensures
            self.reports_platform_name(r),
    ;

    fn home_directory(&self) -> (r: Result<DiscoveredPath, PlatformError>)
        ensures
            self.reports_home(r),
    ;

    fn application_support_directory(&self) -> (r: Result<DiscoveredPath, PlatformError>)
        ensures
            self.reports_app_support(r),
    ;

    fn caches_directory(&self) -> (r: Result<DiscoveredPath, PlatformError>)
        ensures
            self.reports_caches(r),
    ;

    fn trash_directory(&self) -> Result<DiscoveredPath, PlatformError>;

    fn application_directories(&self) -> Result<Vec<DiscoveredPath>, PlatformError>;

    fn default_scan_roots(&self) -> (r: Result<Vec<ScanRoot>, PlatformError>)
        ensures
            self.reports_default_roots(r),
    ;

    fn check_read_permission(&self, scope: &str) -> Result<ScopePermission, PlatformError>;

    fn settings_destination_for_scope(&self, scope: &str) -> Result<
        SettingsDestination,
        PlatformError,
    >;

    fn move_to_trash(&self, path: &str) -> Result<TrashedItem, PlatformError>;

    fn enumerate_trash(&self) -> Result<Vec<TrashedItem>, PlatformError>;

    fn check_trashed_item_exists(&self, item: &TrashedItem) -> Result<
        TrashedItemStatus,
        PlatformError,
    >;

    fn restore_from_trash(&self, trashed_path: &str, destination_path: &str) -> Result<
        (),
        PlatformError,
    >;

    fn application_metadata(&self, path: &str) -> (r: Result<ApplicationMetadata, PlatformError>)
        ensures
            self.reports_app_metadata(path@, r),
    ;

    fn file_identity(&self, path: &str) -> (r: Result<FileIdentity, PlatformError>)
        ensures
            self.reports_identity(path@, r),
    ;

    fn canonicalize_and_normalize(&self, path: &str) -> (r: Result<ResolvedPath, PlatformError>)
        ensures
            self.reports_resolution(path@, r),
    ;

    fn check_mount_boundary(&self, base: &str, target: &str) -> Result<
        MountBoundary,
        PlatformError,
    >;

    fn read_entry_metadata(&self, path: &str) -> (r: Result<EntryMetadata, PlatformError>)
        ensures
            self.reports_metadata(path@, r),
    ;
}

/// Fallback adapter implementing the full contract with typed unsupported errors.
pub struct UnsupportedAdapter {
    name: &'static str,
}

impl UnsupportedAdapter {
    pub closed spec fn spec_name(&self) -> &'static str {
        self.name
    }

    pub fn new(name: &'static str) -> (a: Self)
        ensures
            a.spec_name() == name,
    {
        Self { name }
    }
}

impl PlatformAdapter for UnsupportedAdapter {
    open spec fn reports_platform_name(&self, name: &'static str) -> bool {
        name == self.spec_name()
    }

    fn platform_name(&self) -> (r: &'static str)
        ensures
            r == self.spec_name(),
    {
        self.name
    }

    fn home_directory(&self) -> (r: Result<DiscoveredPath, PlatformError>)
        ensures
            r == Err::<DiscoveredPath, PlatformError>(PlatformError::Unsupported("home_directory")),
    {
        Err(PlatformError::Unsupported("home_directory"))
    }

    fn application_support_directory(&self) -> (r: Result<DiscoveredPath, PlatformError>)
        ensures
            r == Err::<DiscoveredPath, PlatformError>(
                PlatformError::Unsupported("application_support_directory"),
            ),
    {
        Err(PlatformError::Unsupported("application_support_directory"))
    }

    fn caches_directory(&self) -> (r: Result<DiscoveredPath, PlatformError>)
        ensures
            r == Err::<DiscoveredPath, PlatformError>(
                PlatformError::Unsupported("caches_directory"),
            ),
    {
        Err(PlatformError::Unsupported("caches_directory"))
    }

    fn trash_directory(&self) -> (r: Result<DiscoveredPath, PlatformError>)
        ensures
            r == Err::<DiscoveredPath, PlatformError>(
                PlatformError::Unsupported("trash_directory"),
            ),
    {
        Err(PlatformError::Unsupported("trash_directory"))
    }

    fn application_directories(&self) -> (r: Result<Vec<DiscoveredPath>, PlatformError>)
        ensures
            r == Err::<Vec<DiscoveredPath>, PlatformError>(
                PlatformError::Unsupported("application_directories"),
            ),
    {
        Err(PlatformError::Unsupported("application_directories"))
    }

    fn default_scan_roots(&self) -> (r: Result<Vec<ScanRoot>, PlatformError>)
        ensures
            r == Err::<Vec<ScanRoot>, PlatformError>(
                PlatformError::Unsupported("default_scan_roots"),
            ),
    {
        Err(PlatformError::Unsupported("default_scan_roots"))
    }

    fn check_read_permission(&self, scope: &str) -> (r: Result<ScopePermission, PlatformError>)
        ensures
            r == Err::<ScopePermission, PlatformError>(
                PlatformError::Unsupported("check_read_permission"),
            ),
    {
        Err(PlatformError::Unsupported("check_read_permission"))
    }

    fn settings_destination_for_scope(&self, scope: &str) -> (r: Result<
        SettingsDestination,
        PlatformError,
    >)
        ensures
            r == Err::<SettingsDestination, PlatformError>(
                PlatformError::Unsupported("settings_destination_for_scope"),
            ),
    {
        Err(PlatformError::Unsupported("settings_destination_for_scope"))
    }

    fn move_to_trash(&self, path: &str) -> (r: Result<TrashedItem, PlatformError>)
        ensures
            r == Err::<TrashedItem, PlatformError>(PlatformError::Unsupported("move_to_trash")),
    {
        Err(PlatformError::Unsupported("move_to_trash"))
    }

    fn enumerate_trash(&self) -> (r: Result<Vec<TrashedItem>, PlatformError>)
        ensures
            r == Err::<Vec<TrashedItem>, PlatformError>(
                PlatformError::Unsupported("enumerate_trash"),
            ),
    {
        Err(PlatformError::Unsupported("enumerate_trash"))
    }

    fn check_trashed_item_exists(&self, item: &TrashedItem) -> (r: Result<
        TrashedItemStatus,
        PlatformError,
    >)
        ensures
            r == Err::<TrashedItemStatus, PlatformError>(
                PlatformError::Unsupported("check_trashed_item_exists"),
            ),
    {
        Err(PlatformError::Unsupported("check_trashed_item_exists"))
    }

    fn restore_from_trash(&self, trashed_path: &str, destination_path: &str) -> (r: Result<
        (),
        PlatformError,
    >)
        ensures
            r == Err::<(), PlatformError>(PlatformError::Unsupported("restore_from_trash")),
    {
        Err(PlatformError::Unsupported("restore_from_trash"))
    }

    fn application_metadata(&self, path: &str) -> (r: Result<ApplicationMetadata, PlatformError>)
        ensures
            r == Err::<ApplicationMetadata, PlatformError>(
                PlatformError::Unsupported("application_metadata"),
            ),
    {
        Err(PlatformError::Unsupported("application_metadata"))
    }

    fn file_identity(&self, path: &str) -> (r: Result<FileIdentity, PlatformError>)
        ensures
            r == Err::<FileIdentity, PlatformError>(PlatformError::Unsupported("file_identity")),
    {
        Err(PlatformError::Unsupported("file_identity"))
    }

    fn canonicalize_and_normalize(&self, path: &str) -> (r: Result<ResolvedPath, PlatformError>)
        ensures
            r == Err::<ResolvedPath, PlatformError>(
                PlatformError::Unsupported("canonicalize_and_normalize"),
            ),
    {
        Err(PlatformError::Unsupported("canonicalize_and_normalize"))
    }

    fn check_mount_boundary(&self, base: &str, target: &str) -> (r: Result<
        MountBoundary,
        PlatformError,
    >)
        ensures
            r == Err::<MountBoundary, PlatformError>(
                PlatformError::Unsupported("check_mount_boundary"),
            ),
    {
        Err(PlatformError::Unsupported("check_mount_boundary"))
    }

    fn read_entry_metadata(&self, path: &str) -> (r: Result<EntryMetadata, PlatformError>)
        ensures
            r == Err::<EntryMetadata, PlatformError>(
                PlatformError::Unsupported("read_entry_metadata"),
            ),
    {
        Err(PlatformError::Unsupported("read_entry_metadata"))
    }
}

/// The Windows adapter: every capability is declared unsupported until implemented.
pub struct WindowsAdapter;

impl PlatformAdapter for WindowsAdapter {
    fn platform_name(&self) -> (r: &'static str)
        ensures
            r == "Windows",
    {
        "Windows"
    }

    fn home_directory(&self) -> (r: Result<DiscoveredPath, PlatformError>)
        ensures
            r == Err::<DiscoveredPath, PlatformError>(
                PlatformError::Unsupported("home_directory on Windows"),
            ),
    {
        Err(PlatformError::Unsupported("home_directory on Windows"))
    }

    fn application_support_directory(&self) -> (r: Result<DiscoveredPath, PlatformError>)
        ensures
            r == Err::<DiscoveredPath, PlatformError>(
                PlatformError::Unsupported("application_support_directory on Windows"),
            ),
    {
        Err(PlatformError::Unsupported("application_support_directory on Windows"))
    }

    fn caches_directory(&self) -> (r: Result<DiscoveredPath, PlatformError>)
        ensures
            r == Err::<DiscoveredPath, PlatformError>(
                PlatformError::Unsupported("caches_directory on Windows"),
            ),
    {
        Err(PlatformError::Unsupported("caches_directory on Windows"))
    }

    fn trash_directory(&self) -> (r: Result<DiscoveredPath, PlatformError>)
        ensures
            r == Err::<DiscoveredPath, PlatformError>(
                PlatformError::Unsupported("trash_directory on Windows"),
            ),
    {
        Err(PlatformError::Unsupported("trash_directory on Windows"))
    }

    fn application_directories(&self) -> (r: Result<Vec<DiscoveredPath>, PlatformError>)
        ensures
            r == Err::<Vec<DiscoveredPath>, PlatformError>(
                PlatformError::Unsupported("application_directories on Windows"),
            ),
    {
        Err(PlatformError::Unsupported("application_directories on Windows"))
    }

    fn default_scan_roots(&self) -> (r: Result<Vec<ScanRoot>, PlatformError>)
        ensures
            r == Err::<Vec<ScanRoot>, PlatformError>(
                PlatformError::Unsupported("default_scan_roots on Windows"),
            ),
    {
        Err(PlatformError::Unsupported("default_scan_roots on Windows"))
    }

    fn check_read_permission(&self, scope: &str) -> (r: Result<ScopePermission, PlatformError>)
        ensures
            r == Err::<ScopePermission, PlatformError>(
                PlatformError::Unsupported("check_read_permission on Windows"),
            ),
    {
        Err(PlatformError::Unsupported("check_read_permission on Windows"))
    }

    fn settings_destination_for_scope(&self, scope: &str) -> (r: Result<
        SettingsDestination,
        PlatformError,
    >)
        ensures
            r == Err::<SettingsDestination, PlatformError>(
                PlatformError::Unsupported("settings_destination_for_scope on Windows"),
            ),
    {
        Err(PlatformError::Unsupported("settings_destination_for_scope on Windows"))
    }

    fn move_to_trash(&self, path: &str) -> (r: Result<TrashedItem, PlatformError>)
        ensures
            r == Err::<TrashedItem, PlatformError>(
                PlatformError::Unsupported("move_to_trash on Windows"),
            ),
    {
        Err(PlatformError::Unsupported("move_to_trash on Windows"))
    }

    fn enumerate_trash(&self) -> (r: Result<Vec<TrashedItem>, PlatformError>)
        ensures
            r == Err::<Vec<TrashedItem>, PlatformError>(
                PlatformError::Unsupported("enumerate_trash on Windows"),
            ),
    {
        Err(PlatformError::Unsupported("enumerate_trash on Windows"))
    }

    fn check_trashed_item_exists(&self, item: &TrashedItem) -> (r: Result<
        TrashedItemStatus,
        PlatformError,
    >)
        ensures
            r == Err::<TrashedItemStatus, PlatformError>(
                PlatformError::Unsupported("check_trashed_item_exists on Windows"),
            ),
    {
        Err(PlatformError::Unsupported("check_trashed_item_exists on Windows"))
    }

    fn restore_from_trash(&self, trashed_path: &str, destination_path: &str) -> (r: Result<
        (),
        PlatformError,
    >)
        ensures
            r == Err::<(), PlatformError>(
                PlatformError::Unsupported("restore_from_trash on Windows"),
            ),
    {
        Err(PlatformError::Unsupported("restore_from_trash on Windows"))
    }

    fn application_metadata(&self, path: &str) -> (r: Result<ApplicationMetadata, PlatformError>)
        ensures
            r == Err::<ApplicationMetadata, PlatformError>(
                PlatformError::Unsupported("application_metadata on Windows"),
            ),
    {
        Err(PlatformError::Unsupported("application_metadata on Windows"))
    }

    fn file_identity(&self, path: &str) -> (r: Result<FileIdentity, PlatformError>)
        ensures
            r == Err::<FileIdentity, PlatformError>(
                PlatformError::Unsupported("file_identity on Windows"),
            ),
    {
        Err(PlatformError::Unsupported("file_identity on Windows"))
    }

    fn canonicalize_and_normalize(&self, path: &str) -> (r: Result<ResolvedPath, PlatformError>)
        ensures
            r == Err::<ResolvedPath, PlatformError>(
                PlatformError::Unsupported("canonicalize_and_normalize on Windows"),
            ),
    {
        Err(PlatformError::Unsupported("canonicalize_and_normalize on Windows"))
    }

    fn check_mount_boundary(&self, base: &str, target: &str) -> (r: Result<
        MountBoundary,
        PlatformError,
    >)
        ensures
            r == Err::<MountBoundary, PlatformError>(
                PlatformError::Unsupported("check_mount_boundary on Windows"),
            ),
    {
        Err(PlatformError::Unsupported("check_mount_boundary on Windows"))
    }

    fn read_entry_metadata(&self, path: &str) -> (r: Result<EntryMetadata, PlatformError>)
        ensures
            r == Err::<EntryMetadata, PlatformError>(
                PlatformError::Unsupported("read_entry_metadata on Windows"),
            ),
    {
        Err(PlatformError::Unsupported("read_entry_metadata on Windows"))
    }
}

/// The adapter that this library provides for the running system: the generic fallback
/// that reports every capability as unsupported. Operating-system adapters that reach
/// the filesystem are supplied by the application around the library.
pub fn create_platform_adapter() -> (a: UnsupportedAdapter)
    ensures
        a.spec_name() == "unsupported",
{
    UnsupportedAdapter::new("unsupported")
}

/// A handle to the resolved platform adapter.
pub fn current_platform_adapter() -> (a: UnsupportedAdapter)
    ensures
        a.spec_name() == "unsupported",
{
    create_platform_adapter()
}

/// The canonical display name of the current platform, through the resolved adapter.
pub fn current_platform_name() -> (name: &'static str)
    ensures
        name == "unsupported",
{
    let adapter = current_platform_adapter();
    adapter.platform_name()
}

/// The System Settings pane that grants access to `scope`, as the macOS adapter decides it
/// from the path text alone.
pub open spec fn macos_settings_destination(scope: Seq<char>) -> SettingsDestination {
    if seq_contains_sub(scope, "/Library/Mail"@) || seq_contains_sub(scope, "/Library/Messages"@)
        || seq_contains_sub(scope, "/Library/Safari"@) || seq_contains_sub(
        scope,
        "/Library/HomeKit"@,
    ) || seq_contains_sub(scope, "/Library/IdentityServices"@) || seq_contains_sub(
        scope,
        "/Library/PersonalizationPortrait"@,
    ) || seq_contains_sub(scope, "/Library/Application Support/com.apple.TCC"@) {
        SettingsDestination::FullDiskAccess
    } else if seq_contains_sub(scope, "/Desktop"@) || seq_contains_sub(scope, "/Documents"@)
        || seq_contains_sub(scope, "/Downloads"@) {
        SettingsDestination::FilesAndFolders
    } else if seq_contains_sub(scope, "/Library/"@) {
        SettingsDestination::FullDiskAccess
    } else {
        SettingsDestination::SystemSettings
    }
}

/// Decides the settings destination for a scope on macOS.
pub fn macos_settings_destination_for_scope(scope: &str) -> (d: SettingsDestination)
    ensures
        d == macos_settings_destination(scope@),
{
    if str_contains(scope, "/Library/Mail") || str_contains(scope, "/Library/Messages")
        || str_contains(scope, "/Library/Safari") || str_contains(scope, "/Library/HomeKit")
        || str_contains(scope, "/Library/IdentityServices") || str_contains(
        scope,
        "/Library/PersonalizationPortrait",
    ) || str_contains(scope, "/Library/Application Support/com.apple.TCC") {
        SettingsDestination::FullDiskAccess
    } else if str_contains(scope, "/Desktop") || str_contains(scope, "/Documents")
        || str_contains(scope, "/Downloads") {
        SettingsDestination::FilesAndFolders
    } else if str_contains(scope, "/Library/") {
        SettingsDestination::FullDiskAccess
    } else {
        SettingsDestination::SystemSettings
    }
}

/// Where the system reaches the data volume through a firmlink.
pub open spec fn data_volume_prefix() -> Seq<char> {
    "/System/Volumes/Data"@
}

/// A canonical path under the data volume, written from the root instead, and whether it
/// was such an alias (`/System/Volumes/Data/x` is `/x`). Canonical paths have single
/// separators, so the prefix is matched on the text.
pub open spec fn data_volume_alias(canonical: Seq<char>) -> (Seq<char>, bool) {
    let prefix = data_volume_prefix();
    if canonical == prefix {
        ("/"@, true)
    } else if crate::text::seq_starts_with(canonical, prefix + "/"@) {
        (canonical.subrange(prefix.len() as int, canonical.len() as int), true)
    } else {
        (canonical, false)
    }
}

pub fn normalize_data_volume(canonical: &str) -> (r: (String, bool))
    ensures
        (r.0@, r.1) == data_volume_alias(canonical@),
{
    let cs = crate::text::str_chars(canonical);
    let prefix = crate::text::str_chars("/System/Volumes/Data");
    let with_sep = crate::text::str_chars("/System/Volumes/Data/");
    proof {
        reveal_strlit("/System/Volumes/Data");
        reveal_strlit("/System/Volumes/Data/");
        reveal_strlit("/");
        assert(with_sep@ =~= data_volume_prefix() + "/"@);
    }
    if crate::text::chars_eq(cs.as_slice(), prefix.as_slice()) {
        return (owned("/"), true);
    }
    if crate::text::chars_start_with(cs.as_slice(), with_sep.as_slice()) {
        let rest = crate::text::chars_range(cs.as_slice(), prefix.len(), cs.len());
        return (crate::text::string_from_chars(rest.as_slice()), true);
    }
    (owned(canonical), false)
}

/// The error a refused move to the Trash is reported as: a refusal whose message speaks
/// of permission is a permission denial for the path; any other is a Trash error.
/// (Lower-casing beyond ASCII changes nothing here: no other character lower-cases to a
/// letter of `permission`.)
pub fn trash_refusal(path: &str, message: String) -> (e: PlatformError)
    ensures
        seq_contains_sub(crate::text::ascii_lower_seq(message@), "permission"@) ==> (e matches PlatformError::PermissionDenied { scope, reason, settings_target } && scope@ == path@ && reason@ == message@ && settings_target is None),
        !seq_contains_sub(crate::text::ascii_lower_seq(message@), "permission"@) ==> (e matches PlatformError::TrashError(m) && m@ == message@),
{
    let lower = crate::text::ascii_lowercase(&message);
    if str_contains(&lower, "permission") {
        PlatformError::PermissionDenied { scope: owned(path), reason: message, settings_target: None }
    } else {
        PlatformError::TrashError(message)
    }
}

} // verus!
