use diskclearance::classify::class::SafetyClass;
use diskclearance::duplicates::detect::{detect_storage_sharing, is_git_internal, CandidateFile};
use diskclearance::duplicates::engine::{
    assemble_duplicate_group, fingerprint_stage, full_hash_stage, group_by_key, result_on_cancellation,
    size_stage, to_hex, DetectionStage, DuplicateDetectionMetrics,
};
use diskclearance::duplicates::hashing::{compute_quick_fingerprint, fingerprint_sample_plan, SamplePlan};
use diskclearance::duplicates::model::{
    DuplicateGroup, DuplicateItem, DuplicatePlanError, RetainedRule, StorageSharingKind,
};
use diskclearance::duplicates::order::sort_for_retained;
use diskclearance::platform::FileIdentity;
use sha2::Digest;

fn item(id: &str, path: &str, inode: u64, retained: bool) -> DuplicateItem {
    DuplicateItem::new(
        id.to_string(),
        path.to_string(),
        path.to_string(),
        1024,
        Some(100),
        inode,
        1,
        retained,
        StorageSharingKind::Independent,
    )
}

fn cand(path: &str, size: u64, modified: Option<u64>, device: u64, inode: u64) -> CandidateFile {
    CandidateFile {
        path: path.to_string(),
        canonical_path: path.to_string(),
        normalized_path: path.to_string(),
        identity: FileIdentity { device_id: device, inode },
        size_bytes: size,
        modified_ms: modified,
    }
}

#[test]
fn test_no_group_is_ever_fully_selected_and_retained_cannot_be_planned_with_all_copies() {
    let retained = item("item-retained", "/var/data/docs/original.pdf", 1001, true);
    let cand1 = item("item-cand-1", "/var/data/downloads/copy1.pdf", 1002, false);
    let cand2 = item("item-cand-2", "/var/data/archive/copy2.pdf", 1003, false);
    let group = DuplicateGroup::new(
        "group-test".to_string(),
        1024,
        "dummyhash".to_string(),
        retained.clone(),
        vec![cand1.clone(), cand2.clone()],
        Vec::new(),
    );

    let valid_selection = vec!["item-cand-1".to_string(), "item-cand-2".to_string()];
    let res = group.validate_deletion_selection(&valid_selection);
    assert!(res.is_ok());
    assert_eq!(res.unwrap().len(), 2);

    let attempt_retained = vec!["item-retained".to_string(), "item-cand-1".to_string()];
    let res_retained = group.validate_deletion_selection(&attempt_retained);
    assert!(matches!(res_retained, Err(DuplicatePlanError::RetainedItemProtected { .. })));

    let attempt_all = vec!["item-retained".to_string(), "item-cand-1".to_string(), "item-cand-2".to_string()];
    assert!(group.validate_deletion_selection(&attempt_all).is_err());
}

#[test]
fn selection_errors_name_their_cause() {
    let shared = DuplicateItem::new(
        "item-link".to_string(),
        "/d/link.pdf".to_string(),
        "/d/link.pdf".to_string(),
        1024,
        None,
        1001,
        1,
        false,
        StorageSharingKind::Hardlink,
    );
    let group = DuplicateGroup::new(
        "g".to_string(),
        1024,
        "h".to_string(),
        item("r", "/d/r.pdf", 1001, true),
        vec![item("c", "/d/c.pdf", 1002, false)],
        vec![shared],
    );
    assert_eq!(group.total_item_count(), 3);
    assert!(group.no_preselection());
    assert_eq!(group.assert_invariants(), Ok(()));
    assert_eq!(group.reclaimable_bytes, 1024);
    assert_eq!(group.total_group_bytes, 3072);
    assert_eq!(group.safety_class, SafetyClass::Review);
    assert_eq!(
        group.validate_deletion_selection(&[]),
        Err(DuplicatePlanError::NoItemsSelected { group_id: "g".to_string() })
    );
    assert_eq!(
        group.validate_deletion_selection(&["item-link".to_string()]),
        Err(DuplicatePlanError::StorageSharingItemNotDeletable { group_id: "g".to_string(), path: "/d/link.pdf".to_string() })
    );
    assert_eq!(
        group.validate_deletion_selection(&["nope".to_string()]),
        Err(DuplicatePlanError::ItemNotFound { group_id: "g".to_string(), item_id: "nope".to_string() })
    );
}

#[test]
fn broken_invariants_are_named() {
    let mut group = DuplicateGroup::new(
        "g".to_string(),
        10,
        "h".to_string(),
        item("r", "/r", 1, true),
        vec![item("c", "/c", 2, false)],
        vec![],
    );
    group.candidates[0].is_selected = true;
    assert_eq!(group.assert_invariants(), Err("candidate must not be preselected"));
    assert!(!group.no_preselection());
    group.candidates[0].is_selected = false;
    group.reclaimable_bytes = 11;
    assert_eq!(
        group.assert_invariants(),
        Err("reclaimable bytes must strictly equal independent candidate count * size")
    );
}

#[test]
fn retained_copy_follows_the_rule() {
    let base = vec![
        cand("/b/long/name/copy.bin", 5, Some(300), 1, 1),
        cand("/a/copy.bin", 5, Some(200), 1, 2),
        cand("/c/x.bin", 5, None, 1, 3),
        cand("/a/copz.bin", 5, Some(200), 1, 4),
    ];
    let mut oldest = base.clone();
    sort_for_retained(&mut oldest, RetainedRule::OldestByModified);
    let order: Vec<&str> = oldest.iter().map(|c| c.path.as_str()).collect();
    assert_eq!(order, vec!["/a/copy.bin", "/a/copz.bin", "/b/long/name/copy.bin", "/c/x.bin"]);

    let mut newest = base.clone();
    sort_for_retained(&mut newest, RetainedRule::NewestByModified);
    assert_eq!(newest[0].path, "/b/long/name/copy.bin");
    assert_eq!(newest[3].path, "/c/x.bin");

    let mut shortest = base.clone();
    sort_for_retained(&mut shortest, RetainedRule::ShortestPath);
    let order: Vec<&str> = shortest.iter().map(|c| c.path.as_str()).collect();
    assert_eq!(order, vec!["/c/x.bin", "/a/copy.bin", "/a/copz.bin", "/b/long/name/copy.bin"]);
}

#[test]
fn default_rule_is_oldest() {
    assert_eq!(RetainedRule::default(), RetainedRule::OldestByModified);
}

#[test]
fn hex_is_lowercase_two_digits_per_byte() {
    assert_eq!(to_hex(&[0x00, 0x0f, 0xa0, 0xff]), "000fa0ff");
    assert_eq!(to_hex(&[0u8; 32]).len(), 64);
}

#[test]
fn fingerprint_samples_head_and_tail() {
    assert_eq!(fingerprint_sample_plan(100), SamplePlan { head_len: 100, tail_start: 100, tail_len: 0 });
    assert_eq!(fingerprint_sample_plan(6000), SamplePlan { head_len: 4096, tail_start: 4096, tail_len: 1904 });
    assert_eq!(fingerprint_sample_plan(10000), SamplePlan { head_len: 4096, tail_start: 5904, tail_len: 4096 });
}

#[test]
fn fingerprint_digests_size_then_samples() {
    let fp = compute_quick_fingerprint(3, b"abc", b"");
    let mut message = 3u64.to_le_bytes().to_vec();
    message.extend_from_slice(b"abc");
    let expected: [u8; 32] = sha2::Sha256::digest(&message).into();
    assert_eq!(fp, expected);
    assert_ne!(compute_quick_fingerprint(3, b"abd", b""), expected);
}

#[test]
fn hardlink_and_clone_share_storage() {
    let a = cand("/a", 10, None, 1, 5);
    assert_eq!(detect_storage_sharing(&cand("/b", 10, None, 1, 5), &a, None, None), StorageSharingKind::Hardlink);
    assert_eq!(detect_storage_sharing(&cand("/b", 10, None, 1, 6), &a, Some(77), Some(77)), StorageSharingKind::ApfsClone);
    assert_eq!(detect_storage_sharing(&cand("/b", 10, None, 1, 6), &a, Some(77), Some(78)), StorageSharingKind::Independent);
    assert_eq!(detect_storage_sharing(&cand("/b", 10, None, 2, 6), &a, Some(77), Some(77)), StorageSharingKind::Independent);
    assert_eq!(detect_storage_sharing(&cand("/b", 10, None, 1, 6), &a, None, None), StorageSharingKind::Independent);
}

#[test]
fn git_components_are_detected() {
    assert!(is_git_internal("/home/u/project/.git/HEAD"));
    assert!(!is_git_internal("/home/u/project/.github/ci.yml"));
    assert!(!is_git_internal("/home/u/project/src/main.rs"));
}

#[test]
fn stages_eliminate_unique_candidates() {
    let files = vec![
        cand("/a", 10, None, 1, 1),
        cand("/b", 20, None, 1, 2),
        cand("/c", 10, None, 1, 3),
        cand("/d", 10, None, 1, 4),
    ];
    let mut metrics = DuplicateDetectionMetrics::default();
    let groups = size_stage(&files, &mut metrics);
    assert_eq!(groups.len(), 1);
    assert_eq!(groups[0].len(), 3);
    assert_eq!(metrics.files_entering_size_grouping, 4);
    assert_eq!(metrics.size_groups_count, 1);
    assert_eq!(metrics.files_eliminated_by_unique_size, 1);

    let fps = vec![Some([1u8; 32]), Some([2u8; 32]), Some([1u8; 32])];
    let survivors = fingerprint_stage(&groups[0], &fps, &mut metrics);
    assert_eq!(survivors.len(), 1);
    assert_eq!(survivors[0].iter().map(|c| c.path.as_str()).collect::<Vec<_>>(), vec!["/a", "/d"]);
    assert_eq!(metrics.fingerprints_computed, 3);
    assert_eq!(metrics.files_eliminated_by_fingerprint, 1);

    let hashes = vec![Some([9u8; 32]), None];
    let (confirmed, keys) = full_hash_stage(&survivors[0], &hashes, &mut metrics);
    assert!(confirmed.is_empty());
    assert!(keys.is_empty());
    assert_eq!(metrics.full_hashes_computed, 1);
    assert_eq!(metrics.files_eliminated_by_full_hash, 1);

    let (groups, keys, dropped) = group_by_key(&files, &vec![Some(vec![1]), None, Some(vec![1]), Some(vec![2])]);
    assert_eq!(groups.len(), 1);
    assert_eq!(keys, vec![vec![1u64]]);
    assert_eq!(dropped, 1);
}

#[test]
fn confirmed_group_retains_the_oldest_and_sorts_sharing_copies() {
    let files = vec![
        cand("/x/new.bin", 100, Some(500), 1, 11),
        cand("/x/old.bin", 100, Some(100), 1, 12),
        cand("/x/link.bin", 100, Some(300), 1, 12),
    ];
    let hash: Vec<u64> = (0..32).map(|b| b as u64).collect();
    let group = assemble_duplicate_group(7, &files, &vec![None, None, None], &hash, RetainedRule::OldestByModified);
    assert_eq!(group.group_id, "group-7");
    assert_eq!(group.retained.path, "/x/old.bin");
    assert_eq!(group.retained.id, "dup-7-retained");
    assert!(group.retained.is_retained);
    assert_eq!(group.shared_storage_items.len(), 1);
    assert_eq!(group.shared_storage_items[0].path, "/x/link.bin");
    assert_eq!(group.shared_storage_items[0].sharing_kind, StorageSharingKind::Hardlink);
    assert_eq!(group.shared_storage_items[0].id, "dup-7-copy-1");
    assert_eq!(group.candidates.len(), 1);
    assert_eq!(group.candidates[0].id, "dup-7-copy-2");
    assert_eq!(group.reclaimable_bytes, 100);
    assert_eq!(group.total_group_bytes, 300);
    assert_eq!(group.content_hash, "000102030405060708090a0b0c0d0e0f101112131415161718191a1b1c1d1e1f");
    assert_eq!(group.assert_invariants(), Ok(()));
}

#[test]
fn cancellation_keeps_only_confirmed_groups_of_the_last_stage() {
    let g = DuplicateGroup::new("g".to_string(), 1, "h".to_string(), item("r", "/r", 1, true), vec![], vec![]);
    assert_eq!(result_on_cancellation(DetectionStage::FullHashing, vec![g.clone()]).len(), 1);
    assert_eq!(result_on_cancellation(DetectionStage::Fingerprinting, vec![g]).len(), 0);
}
