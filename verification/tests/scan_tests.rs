use diskclearance::performance::{flat_fixture_directory, flat_fixture_layout};
use diskclearance::platform::{EntryMetadata, EntryType, FileIdentity, PlatformError, ResolvedPath};
use diskclearance::scan::coverage::{CoverageSummary, SkipReason};
use diskclearance::scan::session::{next_cursor, page_limit};
use diskclearance::scan::traversal::{MemoryTracker, Traversal};

fn meta(device: u64, inode: u64, entry_type: EntryType, size: u64, nlink: u64) -> Result<EntryMetadata, PlatformError> {
    Ok(EntryMetadata {
        identity: FileIdentity { device_id: device, inode },
        entry_type,
        apparent_size: size,
        allocated_size: size,
        modified_ms: None,
        nlink,
    })
}

fn unresolved() -> Result<ResolvedPath, PlatformError> {
    Err(PlatformError::ResolutionError("unresolved".into()))
}

#[test]
fn test_hardlinked_pair_contributes_bytes_exactly_once() {
    let mut walk = Traversal::new("hl".into(), true);
    walk.add_root("/root", &Ok(FileIdentity { device_id: 1, inode: 1 }));
    let (dir, device) = walk.next_directory().unwrap();
    assert_eq!(dir, "/root");
    walk.visit_entry("/root/a", device, &meta(1, 50, EntryType::File, 4096, 2), &unresolved());
    walk.visit_entry("/root/b", device, &meta(1, 50, EntryType::File, 4096, 2), &unresolved());
    let result = walk.finish(false);
    assert_eq!(result.coverage.items_scanned, 2);
    assert_eq!(result.coverage.files_count, 2);
    assert_eq!(result.coverage.total_allocated_bytes, 4096);
    assert!(result.coverage.is_exact());
    assert_eq!(result.entries.len(), 2);
    assert_eq!(result.entries[0].canonical_path, "/root/a");
}

#[test]
fn test_symlink_pointing_outside_scope_is_recorded_not_traversed_and_sizes_self() {
    let mut walk = Traversal::new("sl".into(), false);
    walk.add_root("/root", &Ok(FileIdentity { device_id: 1, inode: 1 }));
    let (_, device) = walk.next_directory().unwrap();
    let visit = walk.visit_entry("/root/link", device, &meta(1, 9, EntryType::Symlink, 12, 1), &unresolved());
    assert!(visit.entry.is_some());
    assert!(walk.next_directory().is_none());
    let result = walk.finish(false);
    assert_eq!(result.coverage.symlinks_count, 1);
    assert_eq!(result.coverage.total_apparent_bytes, 12);
    assert!(result.entries.is_empty());
}

#[test]
fn mount_boundaries_are_skipped_with_evidence() {
    let mut walk = Traversal::new("mb".into(), false);
    walk.add_root("/root", &Ok(FileIdentity { device_id: 1, inode: 1 }));
    let (_, device) = walk.next_directory().unwrap();
    let visit = walk.visit_entry("/root/vol", device, &meta(2, 9, EntryType::Directory, 0, 1), &unresolved());
    assert_eq!(visit.warning.unwrap().warning_code, "mount_boundary_skipped");
    assert!(walk.next_directory().is_none());
    let result = walk.finish(false);
    assert_eq!(result.coverage.skipped_mount_boundaries_count, 1);
    assert_eq!(result.coverage.skipped_scopes[0].reason, SkipReason::MountBoundary { root_device: 1, path_device: 2 });
    assert!(!result.coverage.is_exact());
}

#[test]
fn test_file_deleted_between_read_dir_and_stat_is_recorded_as_vanished() {
    let mut walk = Traversal::new("v".into(), true);
    walk.add_root("/root", &Ok(FileIdentity { device_id: 1, inode: 1 }));
    let (_, device) = walk.next_directory().unwrap();
    walk.visit_entry("/root/gone", device, &Err(PlatformError::NotFound("/root/gone".into())), &unresolved());
    let result = walk.finish(false);
    assert_eq!(result.coverage.skipped_vanished_count, 1);
    assert_eq!(result.coverage.items_scanned, 0);
    assert_eq!(result.coverage.skipped_scopes[0].reason, SkipReason::Vanished);
    assert!(result.coverage.is_exact());
}

#[test]
fn test_permission_denied_directory_yields_coverage_evidence_and_partial_result() {
    let mut walk = Traversal::new("perm".into(), true);
    walk.add_root("/scan_root", &Ok(FileIdentity { device_id: 1, inode: 1 }));
    let (root, device) = walk.next_directory().unwrap();
    assert_eq!(root, "/scan_root");
    walk.visit_entry("/scan_root/readable", device, &meta(1, 2, EntryType::Directory, 0, 1), &unresolved());
    walk.visit_entry("/scan_root/restricted", device, &meta(1, 3, EntryType::Directory, 0, 1), &unresolved());
    let (restricted, _) = walk.next_directory().unwrap();
    assert_eq!(restricted, "/scan_root/restricted");
    let w = walk.directory_unreadable("/scan_root/restricted", true, "denied".into());
    assert_eq!(w.unwrap().message, "Permission denied reading directory /scan_root/restricted");
    let (readable, device) = walk.next_directory().unwrap();
    walk.visit_entry(&format!("{readable}/visible.txt"), device, &meta(1, 4, EntryType::File, 22, 1), &unresolved());
    let result = walk.finish(false);
    assert!(result.coverage.items_scanned >= 2);
    assert_eq!(result.coverage.skipped_permissions_count, 1);
    assert!(!result.coverage.is_exact());
    assert_eq!(result.coverage.skipped_scopes.len(), 1);
    assert!(result.coverage.skipped_scopes[0].path.ends_with("restricted"));
    assert!(matches!(result.coverage.skipped_scopes[0].reason, SkipReason::PermissionDenied(_)));
    assert!(result.entries.iter().any(|e| e.original_path.ends_with("visible.txt")));
}

#[test]
fn cancelled_walk_is_incomplete() {
    let walk = Traversal::new("c".into(), false);
    let result = walk.finish(true);
    assert!(!result.coverage.is_complete);
    assert!(!result.coverage.is_exact());
    assert!(!CoverageSummary::default().is_exact());
}

#[test]
fn roots_without_identity_support_are_walked_without_boundary_detection() {
    let mut walk = Traversal::new("u".into(), false);
    let w = walk.add_root("/r", &Err(PlatformError::Unsupported("filesystem identity")));
    assert_eq!(w.unwrap().message, "filesystem identity; this scope was walked without mount-boundary detection");
    let (_, device) = walk.next_directory().unwrap();
    assert_eq!(device, 0);
    let v = walk.visit_entry("/r/x", device, &meta(5, 1, EntryType::File, 3, 1), &unresolved());
    assert!(v.entry.is_some());
    let missing = walk.add_root("/missing", &Err(PlatformError::NotFound("/missing".into())));
    assert!(missing.is_none());
    assert_eq!(walk.coverage.skipped_scopes[0].reason, SkipReason::Vanished);
}

#[test]
fn memory_tracker_counts_retained_records_in_the_peak() {
    let mut t = MemoryTracker::new();
    t.track_alloc();
    t.track_retained();
    t.track_dealloc();
    t.track_alloc();
    t.track_retained();
    t.track_dealloc();
    assert_eq!(t.live(), 0);
    assert_eq!(t.peak(), 3);
}

#[test]
fn findings_pages_are_bounded() {
    assert_eq!(page_limit(0), 1);
    assert_eq!(page_limit(5000), 1000);
    assert_eq!(page_limit(10), 10);
    let ids = vec!["a".to_string(), "b".to_string()];
    assert_eq!(next_cursor(&ids, 2), Some("b".to_string()));
    assert_eq!(next_cursor(&ids, 3), None);
}

#[test]
fn flat_fixtures_fill_a_thousand_directories_first() {
    assert_eq!(flat_fixture_layout(0), (0, 0));
    assert_eq!(flat_fixture_layout(10), (10, 0));
    assert_eq!(flat_fixture_layout(1500), (1000, 500));
    assert_eq!(flat_fixture_directory(999), 0);
    assert_eq!(flat_fixture_directory(2500), 2);
}

#[test]
fn hardlinked_pair_counts_two_files_and_its_bytes_once() {
    let mut t = Traversal::new("s".to_string(), false);
    t.visit_entry("/r/a", 1, &meta(1, 9, EntryType::File, 8192, 2), &unresolved());
    t.visit_entry("/r/b", 1, &meta(1, 9, EntryType::File, 8192, 2), &unresolved());
    let result = t.finish(false);
    assert_eq!(result.coverage.files_count, 2);
    assert_eq!(result.coverage.total_apparent_bytes, 8192);
    assert!(result.coverage.is_complete);
}

#[test]
fn symlink_counts_itself_and_is_not_walked() {
    let mut t = Traversal::new("s".to_string(), true);
    let visit = t.visit_entry("/r/link", 1, &meta(1, 3, EntryType::Symlink, 40, 1), &unresolved());
    assert!(visit.entry.is_some());
    assert!(t.next_directory().is_none());
    let result = t.finish(false);
    assert_eq!(result.coverage.symlinks_count, 1);
    assert_eq!(result.coverage.files_count, 0);
    assert_eq!(result.coverage.total_apparent_bytes, 40);
    assert_eq!(result.entries.len(), 1);
    assert_eq!(result.entries[0].entry_type, EntryType::Symlink);
}

#[test]
fn walk_without_collecting_holds_one_record_at_most() {
    let mut t = Traversal::new("s".to_string(), false);
    assert_eq!(t.tracker.peak(), 0);
    for i in 0..1000u64 {
        t.visit_entry("/r/f", 1, &meta(1, i + 10, EntryType::File, 1, 1), &unresolved());
    }
    assert_eq!(t.tracker.peak(), 1);
    assert_eq!(t.tracker.live(), 0);
    assert!(t.entries.is_empty());
    assert_eq!(t.coverage.items_scanned, 1000);
}

#[test]
fn collecting_walk_keeps_one_entry_per_item() {
    let mut t = Traversal::new("s".to_string(), true);
    for i in 0..20u64 {
        t.visit_entry("/r/f", 1, &meta(1, i + 10, EntryType::File, 1, 1), &unresolved());
    }
    let cancelled = t.finish(true);
    assert!(!cancelled.coverage.is_complete);
    assert_eq!(cancelled.coverage.items_scanned, 20);
    assert_eq!(cancelled.entries.len(), 20);
}
