use diskclearance::boundary::cancellation::CancellationRegistry;
use diskclearance::boundary::destructive::{
    delete_outcome, deletion_step, ActionMode, DeletionAction, ExecutionRun, ItemOutcomeStatus,
};
use diskclearance::boundary::history::restore_needs_observation;
use diskclearance::duplicates::detect::CandidateFile;
use diskclearance::duplicates::engine::to_hex;
use diskclearance::duplicates::hashing::ContentHasher;
use diskclearance::duplicates::model::RetainedRule;
use diskclearance::duplicates::order::sort_for_retained;
use diskclearance::paths::paths_equal;
use diskclearance::platform::{EntryMetadata, EntryType, FileIdentity};

fn entry(device_id: u64, entry_type: EntryType) -> EntryMetadata {
    EntryMetadata {
        identity: FileIdentity { device_id, inode: 7 },
        entry_type,
        apparent_size: 10,
        allocated_size: 4096,
        modified_ms: None,
        nlink: 1,
    }
}

#[test]
fn deletion_removes_links_without_following_them() {
    assert_eq!(deletion_step(&entry(1, EntryType::Symlink), 1, 0, 64), DeletionAction::RemoveLink);
}

#[test]
fn deletion_refuses_another_device_before_anything_else() {
    assert_eq!(deletion_step(&entry(2, EntryType::Symlink), 1, 0, 64), DeletionAction::RefuseMountBoundary);
    assert_eq!(deletion_step(&entry(2, EntryType::Directory), 1, 0, 64), DeletionAction::RefuseMountBoundary);
}

#[test]
fn deletion_descends_only_within_the_depth_limit() {
    assert_eq!(deletion_step(&entry(1, EntryType::Directory), 1, 63, 64), DeletionAction::Descend);
    assert_eq!(deletion_step(&entry(1, EntryType::Directory), 1, 64, 64), DeletionAction::RefuseDepth);
    assert_eq!(deletion_step(&entry(1, EntryType::File), 1, 64, 64), DeletionAction::RemoveFile);
    assert_eq!(deletion_step(&entry(1, EntryType::Other), 1, 0, 64), DeletionAction::RemoveFile);
}

#[test]
fn streaming_hash_in_pieces_is_the_digest_of_the_whole() {
    let mut hasher = ContentHasher::new();
    hasher.update(b"a");
    hasher.update(b"");
    hasher.update(b"bc");
    assert_eq!(
        to_hex(&hasher.finalize()),
        "ba7816bf8f01cfea414140de5dae2223b00361a396177a9cb410ff61f20015ad"
    );
}

#[test]
fn empty_stream_hashes_to_the_digest_of_nothing() {
    let hasher = ContentHasher::new();
    assert_eq!(
        to_hex(&hasher.finalize()),
        "e3b0c44298fc1c149afbf4c8996fb92427ae41e4649b934ca495991b7852b855"
    );
}

#[test]
fn registered_token_is_found_and_shares_cancellation() {
    let mut registry = CancellationRegistry::new();
    assert!(registry.get("plan-1").is_none());
    let token = registry.register("plan-1");
    assert!(registry.cancel("plan-1"));
    let found = registry.get("plan-1").expect("registered");
    assert!(found.is_cancelled());
    assert!(token.is_cancelled());
}

#[test]
fn restore_observes_only_trashed_items_not_yet_restored() {
    assert!(restore_needs_observation("Trash", false));
    assert!(!restore_needs_observation("Trash", true));
    assert!(!restore_needs_observation("PermanentDelete", false));
}

#[test]
fn leading_current_directory_is_a_component() {
    assert!(!paths_equal("./a", "a"));
    assert!(paths_equal("./a", "./a/."));
    assert!(paths_equal("a/./b", "a/b"));
    assert!(paths_equal("/./a", "/a"));
}

fn candidate(path: &str, modified_ms: Option<u64>) -> CandidateFile {
    CandidateFile {
        path: path.to_string(),
        canonical_path: "/same".to_string(),
        normalized_path: "/same".to_string(),
        identity: FileIdentity { device_id: 1, inode: 1 },
        size_bytes: 5,
        modified_ms,
    }
}

#[test]
fn retained_order_keeps_tied_copies_in_input_order() {
    let mut cs = vec![candidate("/b", Some(5)), candidate("/a", Some(5)), candidate("/c", Some(1))];
    sort_for_retained(&mut cs, RetainedRule::OldestByModified);
    let paths: Vec<&str> = cs.iter().map(|c| c.path.as_str()).collect();
    assert_eq!(paths, vec!["/c", "/b", "/a"]);
}

fn run_item(id: &str) -> diskclearance::boundary::plan::PlanItemDetail {
    diskclearance::boundary::plan::PlanItemDetail {
        item_id: id.into(),
        plan_id: "p-1".into(),
        original_path: format!("/cache/{id}"),
        canonical_path: format!("/cache/{id}"),
        device_id: 7,
        inode: 70,
        size_bytes: 1000,
        class_name: "Rebuildable".into(),
        rule_id: "r".into(),
        rule_version: 1,
        action_name: "Trash".into(),
        recoverable: true,
    }
}

#[test]
fn run_records_one_outcome_per_item_in_plan_order() {
    let items = vec![run_item("a"), run_item("b"), run_item("c")];
    let mut run = ExecutionRun::new(items.clone());
    while let Some(k) = run.next() {
        let outcome = delete_outcome(&items[k], &Ok(()));
        run.record(outcome);
    }
    let summary = run.finish("p-1".into(), ActionMode::PermanentDelete, Some("op".into()));
    let ids: Vec<&str> = summary.item_outcomes.iter().map(|o| o.item_id.as_str()).collect();
    assert_eq!(ids, vec!["a", "b", "c"]);
    assert_eq!(summary.succeeded_items, 3);
    assert_eq!(summary.bytes_freed, 3000);
    assert!(summary.item_outcomes.iter().all(|o| o.status == ItemOutcomeStatus::Succeeded));
}

#[test]
fn run_cancelled_before_start_leaves_every_item_unattempted() {
    let items = vec![run_item("a"), run_item("b")];
    let mut run = ExecutionRun::new(items);
    run.cancel_rest();
    assert!(run.next().is_none());
    let summary = run.finish("p-1".into(), ActionMode::Trash, Some("op".into()));
    assert_eq!(summary.item_outcomes.len(), 2);
    assert!(summary
        .item_outcomes
        .iter()
        .all(|o| o.status == ItemOutcomeStatus::Unattempted && o.bytes_reclaimed == 0 && o.bytes_pending_trash == 0));
    assert_eq!(summary.succeeded_items, 0);
    assert_eq!(summary.failed_items, 0);
    assert_eq!(summary.bytes_pending_trash, 0);
}
