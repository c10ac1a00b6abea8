use std::collections::HashMap;
use std::sync::Mutex;

use diskclearance::foundation::FoundationStatus;
use diskclearance::platform::{normalize_data_volume, trash_refusal};
use diskclearance::platform::{
    current_platform_adapter, current_platform_name, macos_settings_destination_for_scope,
    ApplicationMetadata, DiscoveredPath, EntryMetadata, FileIdentity, MountBoundary, PathKind,
    PlatformAdapter, PlatformError, ResolvedPath, ScanRoot, ScanRootScope, ScopePermission,
    SettingsDestination, TrashedItem, TrashedItemStatus, UnsupportedAdapter, WindowsAdapter,
};

/// A scripted adapter: it reports fixed paths and whatever permissions a test records.
struct TestAdapter {
    home: String,
    app_support: String,
    caches: String,
    trash: String,
    permissions: Mutex<HashMap<String, ScopePermission>>,
}

impl Default for TestAdapter {
    fn default() -> Self {
        let home = "/mock/test/home".to_string();
        TestAdapter {
            app_support: format!("{home}/Library/Application Support"),
            caches: format!("{home}/Library/Caches"),
            trash: format!("{home}/.Trash"),
            home,
            permissions: Mutex::new(HashMap::new()),
        }
    }
}

impl TestAdapter {
    fn with_permission(self, path: &str, readable: bool, settings: Option<SettingsDestination>) -> Self {
        self.permissions.lock().unwrap().insert(
            path.to_string(),
            ScopePermission { scope: path.to_string(), is_readable: readable, required_settings: settings },
        );
        self
    }
}

impl PlatformAdapter for TestAdapter {
    fn platform_name(&self) -> &'static str {
        "test"
    }
    fn home_directory(&self) -> Result<DiscoveredPath, PlatformError> {
        Ok(DiscoveredPath { path: self.home.clone(), kind: PathKind::Home })
    }
    fn application_support_directory(&self) -> Result<DiscoveredPath, PlatformError> {
        Ok(DiscoveredPath { path: self.app_support.clone(), kind: PathKind::ApplicationSupport })
    }
    fn caches_directory(&self) -> Result<DiscoveredPath, PlatformError> {
        Ok(DiscoveredPath { path: self.caches.clone(), kind: PathKind::Caches })
    }
    fn trash_directory(&self) -> Result<DiscoveredPath, PlatformError> {
        Ok(DiscoveredPath { path: self.trash.clone(), kind: PathKind::Trash })
    }
    fn application_directories(&self) -> Result<Vec<DiscoveredPath>, PlatformError> {
        Ok(vec![
            DiscoveredPath { path: "/mock/Applications".to_string(), kind: PathKind::Applications },
            DiscoveredPath { path: format!("{}/Applications", self.home), kind: PathKind::Applications },
        ])
    }
    fn default_scan_roots(&self) -> Result<Vec<ScanRoot>, PlatformError> {
        Ok(vec![
            ScanRoot { path: self.home.clone(), label: "Home".to_string(), scope: ScanRootScope::UserHome },
            ScanRoot {
                path: "/mock/Applications".to_string(),
                label: "Applications".to_string(),
                scope: ScanRootScope::SystemApplications,
            },
        ])
    }
    fn check_read_permission(&self, scope: &str) -> Result<ScopePermission, PlatformError> {
        if let Some(p) = self.permissions.lock().unwrap().get(scope) {
            return Ok(p.clone());
        }
        Ok(ScopePermission { scope: scope.to_string(), is_readable: true, required_settings: None })
    }
    fn settings_destination_for_scope(&self, _scope: &str) -> Result<SettingsDestination, PlatformError> {
        Ok(SettingsDestination::SystemSettings)
    }
    fn move_to_trash(&self, path: &str) -> Result<TrashedItem, PlatformError> {
        Err(PlatformError::NotFound(path.to_string()))
    }
    fn enumerate_trash(&self) -> Result<Vec<TrashedItem>, PlatformError> {
        Ok(vec![])
    }
    fn check_trashed_item_exists(&self, item: &TrashedItem) -> Result<TrashedItemStatus, PlatformError> {
        Ok(TrashedItemStatus::Missing(item.trashed_path.clone()))
    }
    fn restore_from_trash(&self, _t: &str, _d: &str) -> Result<(), PlatformError> {
        Ok(())
    }
    fn application_metadata(&self, path: &str) -> Result<ApplicationMetadata, PlatformError> {
        Err(PlatformError::NotFound(path.to_string()))
    }
    fn file_identity(&self, path: &str) -> Result<FileIdentity, PlatformError> {
        Err(PlatformError::NotFound(path.to_string()))
    }
    fn canonicalize_and_normalize(&self, path: &str) -> Result<ResolvedPath, PlatformError> {
        Err(PlatformError::NotFound(path.to_string()))
    }
    fn check_mount_boundary(&self, base: &str, _target: &str) -> Result<MountBoundary, PlatformError> {
        Err(PlatformError::NotFound(base.to_string()))
    }
    fn read_entry_metadata(&self, path: &str) -> Result<EntryMetadata, PlatformError> {
        Err(PlatformError::NotFound(path.to_string()))
    }
}

#[test]
fn platform_contract_is_independent_of_the_os() {
    let adapter = TestAdapter::default();
    assert_eq!(adapter.platform_name(), "test");
}

#[test]
fn test_adapter_reports_scripted_paths() {
    let adapter = TestAdapter::default();
    let home = adapter.home_directory().unwrap();
    assert_eq!(home.kind, PathKind::Home);
    assert_eq!(home.path, "/mock/test/home".to_string());

    let app_support = adapter.application_support_directory().unwrap();
    assert_eq!(app_support.kind, PathKind::ApplicationSupport);

    let caches = adapter.caches_directory().unwrap();
    assert_eq!(caches.kind, PathKind::Caches);

    let trash = adapter.trash_directory().unwrap();
    assert_eq!(trash.kind, PathKind::Trash);

    let app_dirs = adapter.application_directories().unwrap();
    assert_eq!(app_dirs.len(), 2);

    let roots = adapter.default_scan_roots().unwrap();
    assert_eq!(roots.len(), 2);
}

#[test]
fn test_adapter_reports_scripted_permissions() {
    let protected_path = "/mock/test/home/Library/Mail";
    let adapter =
        TestAdapter::default().with_permission(protected_path, false, Some(SettingsDestination::FullDiskAccess));

    let perm = adapter.check_read_permission(protected_path).unwrap();
    assert!(!perm.is_readable);
    assert_eq!(perm.required_settings, Some(SettingsDestination::FullDiskAccess));

    let open_perm = adapter.check_read_permission("/mock/test/home/Downloads").unwrap();
    assert!(open_perm.is_readable);
    assert_eq!(open_perm.required_settings, None);
}

#[test]
fn current_platform_name_dispatches_through_adapter() {
    assert_eq!(current_platform_name(), current_platform_adapter().platform_name());
}

#[test]
fn foundation_does_not_claim_unimplemented_operations() {
    let status = FoundationStatus::current();
    assert!(!status.scanning_implemented);
    assert!(!status.deletion_implemented);
}

#[test]
fn foundation_status_from_adapter() {
    let adapter = TestAdapter::default();
    let status = FoundationStatus::from_platform(&adapter);
    assert_eq!(status.platform, "test");
    assert!(!status.scanning_implemented);
    assert!(!status.deletion_implemented);
}

#[test]
fn foundation_names_the_product_and_stage() {
    let status = FoundationStatus::current();
    assert_eq!(status.product, "DiskClearance");
    assert_eq!(status.status, "Pre-implementation foundation");
    assert_eq!(status.platform, "unsupported");
}

#[test]
fn unsupported_adapter_answers_every_capability_with_a_typed_error() {
    let adapter = UnsupportedAdapter::new("plan9");
    assert_eq!(adapter.platform_name(), "plan9");
    assert!(matches!(adapter.home_directory(), Err(PlatformError::Unsupported(_))));
    assert!(matches!(adapter.move_to_trash("/x"), Err(PlatformError::Unsupported(_))));
    assert!(matches!(adapter.read_entry_metadata("/x"), Err(PlatformError::Unsupported(_))));
    assert!(matches!(adapter.file_identity("/x"), Err(PlatformError::Unsupported(_))));
}

#[test]
fn windows_adapter_names_its_platform() {
    let adapter = WindowsAdapter;
    assert_eq!(adapter.platform_name(), "Windows");
    assert!(adapter.home_directory().is_err());
}

#[test]
fn platform_error_messages_name_the_failure() {
    assert_eq!(PlatformError::NotFound("/a".to_string()).message(), "path not found: /a");
    assert_eq!(PlatformError::Io("boom".to_string()).message(), "I/O error: boom");
    let denied = PlatformError::PermissionDenied {
        scope: "/s".to_string(),
        reason: "no".to_string(),
        settings_target: None,
    };
    assert_eq!(denied.message(), "permission denied for /s: no");
}

#[test]
fn macos_settings_destination_follows_the_scope() {
    assert_eq!(
        macos_settings_destination_for_scope("/Users/a/Library/Mail/V10"),
        SettingsDestination::FullDiskAccess
    );
    assert_eq!(
        macos_settings_destination_for_scope("/Users/a/Documents/report"),
        SettingsDestination::FilesAndFolders
    );
    assert_eq!(
        macos_settings_destination_for_scope("/Users/a/Library/Caches"),
        SettingsDestination::FullDiskAccess
    );
    assert_eq!(macos_settings_destination_for_scope("/opt/tools"), SettingsDestination::SystemSettings);
}

#[test]
fn data_volume_aliases_are_written_from_the_root() {
    assert_eq!(normalize_data_volume("/System/Volumes/Data/Users/a"), ("/Users/a".to_string(), true));
    assert_eq!(normalize_data_volume("/System/Volumes/Data"), ("/".to_string(), true));
    assert_eq!(normalize_data_volume("/System/Volumes/DataX/a"), ("/System/Volumes/DataX/a".to_string(), false));
    assert_eq!(normalize_data_volume("/Users/a"), ("/Users/a".to_string(), false));
}

#[test]
fn refused_trash_moves_are_told_apart_by_their_message() {
    assert_eq!(
        trash_refusal("/a", "Operation not permitted: no Permission".to_string()),
        PlatformError::PermissionDenied { scope: "/a".to_string(), reason: "Operation not permitted: no Permission".to_string(), settings_target: None }
    );
    assert_eq!(trash_refusal("/a", "disk full".to_string()), PlatformError::TrashError("disk full".to_string()));
}
