use diskclearance::boundary::cancellation::CancellationRegistry;
use diskclearance::boundary::destructive::{
    delete_outcome, plan_protection_gate, stale_item_outcome, trash_outcome, unattempted_outcome,
    ActionMode, DeleteFailure, ExecutionLedger, ItemOutcomeStatus,
};
use diskclearance::boundary::error::CommandError;
use diskclearance::boundary::events::{ScanPhase, ScanProgressPayload};
use diskclearance::boundary::history::{
    action_mode_from_name, check_restore, compute_restore_eligibility, history_item_detail, item_selected, lifetime_totals,
    operation_summary, operations_query, parse_outcome_filter, status_from_name, status_name,
    FetchHistoryOperationsArgs, HistoryItemDetail, OutcomeFilter, PersistedOperationItem, RestoreEligibility,
    RestoreObservation, TrashObservation,
};
use diskclearance::boundary::plan::{
    check_staleness, revalidation_result, FindingRow, PlanDraft, PlanItemDetail, Staleness,
};
use diskclearance::boundary::read::{
    cancel_scan, fetch_application_inventory, fetch_folder_aggregate, join_roots, resolve_scan_roots,
    scan_finding_id, terminal_payload, CancelScanArgs, FetchFolderAggregateArgs,
};
use diskclearance::boundary::throttle::{ProgressSink, ProgressThrottler};
use diskclearance::classify::protected::ProtectedReason;
use diskclearance::platform::{
    EntryMetadata, EntryType, FileIdentity, PlatformError, ResolvedPath, ScanRoot, ScanRootScope, TrashedItem,
};
use diskclearance::scan::coverage::CoverageSummary;

#[derive(Default, Debug)]
struct MockProgressSink {
    emissions: Vec<ScanProgressPayload>,
}

impl ProgressSink for MockProgressSink {
    fn emit_progress(&mut self, payload: ScanProgressPayload) {
        self.emissions.push(payload);
    }
}

/// Records `item_count` rapid updates `step_nanos` apart, then flushes.
fn synthetic_fast_progress_producer(item_count: u64, throttler: &mut ProgressThrottler<MockProgressSink>, step_nanos: u64) {
    let start: u64 = 1_000_000_000;
    for i in 1..=item_count {
        let payload = ScanProgressPayload {
            session_id: "synthetic-session-1".into(),
            phase: ScanPhase::Scanning,
            current_scope: format!("/synthetic/dir/item_{i}"),
            items_visited: i,
            bytes_visited: i * 512,
        };
        throttler.record(payload, start + step_nanos * i);
    }
    throttler.flush();
}

#[test]
fn test_progress_throttler_coalesces_emissions_under_load() {
    let sink = MockProgressSink::default();
    let mut throttler = ProgressThrottler::new(50_000_000, sink);
    let total_items = 10_000u64;
    synthetic_fast_progress_producer(total_items, &mut throttler, 1_000);
    let emissions = &throttler.sink().emissions;
    assert!(emissions.len() <= 3, "got {}", emissions.len());
    assert!(emissions.len() < total_items as usize);
    let final_emission = emissions.last().expect("must have final emission");
    assert_eq!(final_emission.items_visited, total_items);
    assert_eq!(final_emission.bytes_visited, total_items * 512);
}

#[test]
fn throttler_emits_again_once_the_interval_has_passed() {
    let mut throttler = ProgressThrottler::new(100, MockProgressSink::default());
    let p = |n: u64| ScanProgressPayload {
        session_id: "s".into(),
        phase: ScanPhase::Scanning,
        current_scope: "/x".into(),
        items_visited: n,
        bytes_visited: n,
    };
    throttler.record(p(1), 1000);
    throttler.record(p(2), 1050);
    assert_eq!(throttler.sink().emissions.len(), 1);
    throttler.poll_emit_due(1099);
    assert_eq!(throttler.sink().emissions.len(), 1);
    throttler.poll_emit_due(1100);
    assert_eq!(throttler.sink().emissions.len(), 2);
    assert_eq!(throttler.sink().emissions[1].items_visited, 2);
    throttler.flush();
    assert_eq!(throttler.sink().emissions.len(), 2);
}

#[test]
fn test_prevent_cancellation_signal_from_being_ignored_by_cancellation_registry() {
    let mut registry = CancellationRegistry::new();
    let token = registry.register("op-batch-delete");
    assert!(!token.is_cancelled());
    let cancelled = registry.cancel("op-batch-delete");
    assert!(cancelled);
    assert!(token.is_cancelled());
}

#[test]
fn unregistered_session_cannot_be_cancelled() {
    let mut registry = CancellationRegistry::new();
    let token = registry.register("scan-1");
    registry.unregister("scan-1");
    assert!(!registry.cancel("scan-1"));
    assert!(!token.is_cancelled());
    assert!(!registry.cancel("never-registered"));
}

#[test]
fn test_read_commands_return_typed_unsupported_error() {
    let err = CommandError::Unsupported {
        feature: "start_scan".into(),
        reason: "Filesystem traversal is not implemented in this milestone".into(),
    };
    assert_eq!(
        err,
        CommandError::Unsupported {
            feature: "start_scan".into(),
            reason: "Filesystem traversal is not implemented in this milestone".into(),
        }
    );
}

#[test]
fn unimplemented_read_commands_answer_unsupported() {
    let folder = fetch_folder_aggregate(FetchFolderAggregateArgs { session_id: "s".into(), path: "/".into() });
    assert!(matches!(folder, Err(CommandError::Unsupported { ref feature, .. }) if feature == "fetch_folder_aggregate"));
    let apps = fetch_application_inventory();
    assert!(matches!(apps, Err(CommandError::Unsupported { ref feature, .. }) if feature == "fetch_application_inventory"));
}

#[test]
fn command_error_messages_follow_their_kind() {
    let e = CommandError::PermissionDenied { path: Some("/a".into()), reason: "no".into() };
    assert_eq!(e.message(), "permission denied for '/a': no");
    let e = CommandError::PermissionDenied { path: None, reason: "no".into() };
    assert_eq!(e.message(), "permission denied: no");
    assert_eq!(CommandError::PathVanished { path: "/p".into() }.message(), "path vanished: /p");
    let e = CommandError::ChangedAfterReview { plan_id: "plan-123".into(), details: "Inode changed".into() };
    assert_eq!(e.message(), "plan 'plan-123' changed after review: Inode changed");
    let e = CommandError::Unsupported { feature: "scan".into(), reason: "Not yet active".into() };
    assert_eq!(e.message(), "feature 'scan' is unsupported: Not yet active");
}

#[test]
fn scan_roots_default_to_the_platform_roots() {
    let requested = vec!["/a".to_string(), "/b".to_string()];
    assert_eq!(resolve_scan_roots(&requested, &Ok(vec![])).unwrap(), requested);
    let defaults = Ok(vec![ScanRoot { path: "/home".into(), label: "Home".into(), scope: ScanRootScope::UserHome }]);
    assert_eq!(resolve_scan_roots(&vec![], &defaults).unwrap(), vec!["/home".to_string()]);
    let failed = resolve_scan_roots(&vec![], &Err(PlatformError::Io("x".into())));
    assert_eq!(
        failed,
        Err(CommandError::Unsupported {
            feature: "start_scan".into(),
            reason: "failed to resolve default roots: I/O error: x".into()
        })
    );
    assert_eq!(join_roots(&requested), "/a;/b");
    assert_eq!(scan_finding_id("scan-1", 42), "scan-1-42");
}

#[test]
fn terminal_event_reports_cancellation() {
    let mut c = CoverageSummary::new();
    c.items_scanned = 3;
    c.total_allocated_bytes = 12288;
    let t = terminal_payload("s".into(), &c);
    assert_eq!(t.summary_message, "Scan cancelled with 3 items and 12288 bytes");
    c.is_complete = true;
    let t = terminal_payload("s".into(), &c);
    assert_eq!(t.summary_message, "Scan completed with 3 items and 12288 bytes");
}

#[test]
fn cancel_scan_reports_whether_the_session_was_registered() {
    let mut registry = CancellationRegistry::new();
    let _t = registry.register("scan-9");
    let r = cancel_scan(CancelScanArgs { session_id: "scan-9".into() }, &registry).unwrap();
    assert!(r.cancelled);
    let r = cancel_scan(CancelScanArgs { session_id: "other".into() }, &registry).unwrap();
    assert!(!r.cancelled);
}

fn plan_item(class: &str) -> PlanItemDetail {
    PlanItemDetail {
        item_id: "i-1".into(),
        plan_id: "p-1".into(),
        original_path: "/cache/a.tmp".into(),
        canonical_path: "/cache/a.tmp".into(),
        device_id: 7,
        inode: 70,
        size_bytes: 1000,
        class_name: class.into(),
        rule_id: "r".into(),
        rule_version: 1,
        action_name: "Trash".into(),
        recoverable: true,
    }
}

fn meta(device: u64, inode: u64, entry_type: EntryType) -> EntryMetadata {
    EntryMetadata {
        identity: FileIdentity { device_id: device, inode },
        entry_type,
        apparent_size: 1000,
        allocated_size: 4096,
        modified_ms: None,
        nlink: 1,
    }
}

fn resolved(canonical: &str) -> ResolvedPath {
    ResolvedPath { original: canonical.into(), canonical: canonical.into(), normalized: canonical.into(), is_firmlink_alias: false }
}

#[test]
fn staleness_checks_come_in_order() {
    let item = plan_item("Rebuildable");
    let ok = Ok(meta(7, 70, EntryType::File));
    assert_eq!(check_staleness(&item, &ok, &Ok(resolved("/cache/a.tmp")), false), None);
    assert_eq!(
        check_staleness(&item, &Err(PlatformError::NotFound("/cache/a.tmp".into())), &Ok(resolved("/x")), true),
        Some(Staleness::Unreadable(PlatformError::NotFound("/cache/a.tmp".into())))
    );
    assert_eq!(
        check_staleness(&item, &Ok(meta(7, 71, EntryType::File)), &Ok(resolved("/cache/a.tmp")), false),
        Some(Staleness::IdentityChanged(FileIdentity { device_id: 7, inode: 71 }))
    );
    assert_eq!(
        check_staleness(&item, &ok, &Ok(resolved("/elsewhere/a.tmp")), false),
        Some(Staleness::CanonicalShifted("/elsewhere/a.tmp".into()))
    );
    assert_eq!(
        check_staleness(&item, &ok, &Ok(resolved("/cache//a.tmp/")), false),
        None
    );
    assert_eq!(
        check_staleness(&item, &Ok(meta(7, 70, EntryType::Symlink)), &Ok(resolved("/cache/a.tmp")), false),
        Some(Staleness::BecameSymlink)
    );
    assert_eq!(
        check_staleness(&plan_item("Symlink"), &Ok(meta(7, 70, EntryType::Symlink)), &Ok(resolved("/cache/a.tmp")), false),
        None
    );
    assert_eq!(check_staleness(&item, &ok, &Ok(resolved("/cache/a.tmp")), true), Some(Staleness::Protected));
}

#[test]
fn revalidation_lists_stale_items_in_plan_order() {
    let a = plan_item("Review");
    let mut b = plan_item("Review");
    b.item_id = "i-2".into();
    let r = revalidation_result("p-1".into(), &vec![a.clone(), b.clone()], &vec![None, Some(Staleness::Protected)]);
    assert!(!r.is_valid);
    assert_eq!(r.stale_item_ids, vec!["i-2".to_string()]);
    let r = revalidation_result("p-1".into(), &vec![a, b], &vec![None, None]);
    assert!(r.is_valid);
}

#[test]
fn protected_class_findings_never_enter_a_plan() {
    let mut draft = PlanDraft::new("plan-1".into());
    let row = FindingRow {
        id: "f-1".into(),
        path: "/x".into(),
        size_bytes: 7,
        safety_class: "protected".into(),
        category: "Scanned".into(),
        rule_id: None,
    };
    let r = draft.admit_finding(&row, "/x", FileIdentity { device_id: 1, inode: 2 }, &None);
    assert_eq!(
        r,
        Err(CommandError::PermissionDenied {
            path: Some("/x".into()),
            reason: "Protected items cannot be admitted into a deletion plan".into()
        })
    );
    assert_eq!(draft.summaries.len(), 0);
    let row = FindingRow { safety_class: "Review".into(), ..row };
    let reason = ProtectedReason { root_id: "id".into(), root_name: "Keychains".into(), description: "secrets".into() };
    let r = draft.admit_finding(&row, "/x", FileIdentity { device_id: 1, inode: 2 }, &Some(reason));
    assert_eq!(
        r,
        Err(CommandError::PermissionDenied {
            path: Some("/x".into()),
            reason: "Target matches protected root 'Keychains' (secrets)".into()
        })
    );
    assert!(draft.admit_finding(&row, "/canon/x", FileIdentity { device_id: 1, inode: 2 }, &None).is_ok());
    assert_eq!(draft.total_bytes, 7);
    assert_eq!(draft.details[0].canonical_path, "/canon/x");
    assert_eq!(draft.summaries[0].action_name, "Review");
    let (plan, details, header) = draft.finish("sess".into(), 99);
    assert_eq!(plan.default_action_mode, ActionMode::Trash);
    assert_eq!(header.item_count, 1);
    assert_eq!(details.len(), 1);
}

#[test]
fn a_plan_with_a_protected_item_is_refused_before_execution() {
    let items = vec![plan_item("Review"), plan_item("PROTECTED")];
    let r = plan_protection_gate(&items, &vec![false, false]);
    assert_eq!(
        r,
        Err(CommandError::PermissionDenied {
            path: Some("/cache/a.tmp".into()),
            reason: "Plan contains protected root '/cache/a.tmp'; execution aborted before any modification".into()
        })
    );
    assert!(plan_protection_gate(&vec![plan_item("Review")], &vec![false]).is_ok());
    assert!(plan_protection_gate(&vec![plan_item("Review")], &vec![true]).is_err());
}

#[test]
fn test_prevent_trash_execution_from_claiming_freed_disk_space() {
    let item = plan_item("Rebuildable");
    let trashed = TrashedItem { trashed_path: "/t/a.tmp".into(), original_path: "/cache/a.tmp".into(), display_name: "a.tmp".into() };
    let mut ledger = ExecutionLedger::new();
    ledger.record(trash_outcome(&item, &Ok(trashed)));
    let summary = ledger.summary("p-1".into(), ActionMode::Trash, Some("op".into()));
    assert_eq!(summary.bytes_freed, 0);
    assert_eq!(summary.bytes_pending_trash, 1000);
    assert_eq!(summary.succeeded_items, 1);
}

#[test]
fn test_prevent_partial_failures_from_being_conflated_or_reported_as_blanket_success() {
    let item = plan_item("Rebuildable");
    let mut ledger = ExecutionLedger::new();
    ledger.record(delete_outcome(&item, &Ok(())));
    ledger.record(delete_outcome(&item, &Err(DeleteFailure { permission_denied: true, message: "denied".into() })));
    ledger.record(delete_outcome(&item, &Err(DeleteFailure { permission_denied: false, message: "busy".into() })));
    ledger.record(stale_item_outcome(&item, &Staleness::Unreadable(PlatformError::NotFound("/cache/a.tmp".into()))));
    ledger.record(stale_item_outcome(&item, &Staleness::Protected));
    ledger.record(stale_item_outcome(&item, &Staleness::IdentityChanged(FileIdentity { device_id: 7, inode: 71 })));
    ledger.record(unattempted_outcome(&item));
    let s = ledger.summary("p-1".into(), ActionMode::PermanentDelete, None);
    assert_eq!(s.succeeded_items, 1);
    assert_eq!(s.failed_items, 2);
    assert_eq!(s.permission_denied_items, 1);
    assert_eq!(s.vanished_items, 1);
    assert_eq!(s.skipped_protected, 1);
    assert_eq!(s.blocked_changed, 1);
    assert_eq!(s.bytes_freed, 1000);
    assert_eq!(s.bytes_pending_trash, 0);
    assert_eq!(s.item_outcomes.len(), 7);
    assert_eq!(s.item_outcomes[6].status, ItemOutcomeStatus::Unattempted);
    assert_eq!(
        s.item_outcomes[5].error_message.as_deref(),
        Some("Identity changed: expected device 7 inode 70, got device 7 inode 71")
    );
    let op = operation_summary(&ExecutionLedger::new(), "op".into(), "p-1".into(), ActionMode::Trash, 1, 2, 0);
    assert_eq!(op.bytes_permanently_reclaimed, 0);
}

fn persisted(status: ItemOutcomeStatus, trashed: Option<&str>) -> PersistedOperationItem {
    PersistedOperationItem {
        id: "op-item-1".into(),
        operation_id: "op-1".into(),
        item_id: "i-1".into(),
        original_path: "/cache/a.tmp".into(),
        canonical_path: "/cache/a.tmp".into(),
        trashed_path: trashed.map(|t| t.to_string()),
        device_id: 7,
        inode: 70,
        size_bytes: 1000,
        status,
        bytes_pending_trash: 1000,
        bytes_permanently_reclaimed: 0,
        error_message: None,
        created_at_ms: 5,
    }
}

fn trash_obs(exists: bool, identity: Result<FileIdentity, PlatformError>, occupied: bool) -> TrashObservation {
    TrashObservation {
        already_restored: None,
        trashed_exists: exists,
        trashed_identity: identity,
        destination_occupied: occupied,
        suggested_alternate: Some("/cache/a (Restored).tmp".into()),
    }
}

#[test]
fn test_emptied_trash_renders_item_ineligible_with_stated_reason_without_disappearing() {
    let item = persisted(ItemOutcomeStatus::Succeeded, Some("/t/a.tmp"));
    let e = compute_restore_eligibility(&item, &trash_obs(false, Ok(FileIdentity { device_id: 7, inode: 70 }), false));
    assert_eq!(e, RestoreEligibility::Ineligible { reason: "Item is no longer in Trash (emptied from Trash or moved)".into() });
    let detail = history_item_detail(ActionMode::Trash, item.clone(), e.clone());
    match detail {
        HistoryItemDetail::Trash(d) => {
            assert_eq!(d.item_id, item.item_id);
            assert_eq!(d.original_path, item.original_path);
            assert_eq!(d.trashed_path, item.trashed_path);
            assert_eq!(d.restore_eligibility, e);
        }
        HistoryItemDetail::PermanentDelete(_) => panic!("a Trash operation lists its items as Trash items"),
    }
}

#[test]
fn test_renamed_or_swapped_trash_item_is_ineligible_identity_not_name_decides() {
    let item = persisted(ItemOutcomeStatus::Succeeded, Some("/t/a.tmp"));
    let e = compute_restore_eligibility(&item, &trash_obs(true, Ok(FileIdentity { device_id: 7, inode: 99 }), false));
    assert_eq!(
        e,
        RestoreEligibility::Ineligible {
            reason: "File identity in Trash changed (expected device 7 inode 70, got device 7 inode 99)".into()
        }
    );
    let e = compute_restore_eligibility(&item, &trash_obs(true, Ok(FileIdentity { device_id: 7, inode: 70 }), true));
    assert_eq!(
        e,
        RestoreEligibility::Eligible {
            trashed_path: "/t/a.tmp".into(),
            original_destination: "/cache/a.tmp".into(),
            destination_occupied: true,
            suggested_alternate_destination: Some("/cache/a (Restored).tmp".into()),
        }
    );
    let failed = persisted(ItemOutcomeStatus::Failed, Some("/t/a.tmp"));
    let e = compute_restore_eligibility(&failed, &trash_obs(true, Ok(FileIdentity { device_id: 7, inode: 70 }), false));
    assert_eq!(e, RestoreEligibility::Ineligible { reason: "Item was not successfully moved to Trash (status: Failed)".into() });
}

fn restore_obs(mode: &str, occupied: bool, protection: Option<ProtectedReason>) -> RestoreObservation {
    RestoreObservation {
        operation_action_mode: mode.into(),
        already_restored: false,
        trashed_exists: true,
        trashed_identity: Ok(FileIdentity { device_id: 7, inode: 70 }),
        destination_occupied: occupied,
        destination_protection: protection,
    }
}

#[test]
fn test_prevent_restore_from_overwriting_occupied_destination() {
    let item = persisted(ItemOutcomeStatus::Succeeded, Some("/t/a.tmp"));
    let r = check_restore(&item, &None, &restore_obs("Trash", true, None));
    assert!(matches!(r, Err(CommandError::PermissionDenied { path: Some(ref p), .. }) if p == "/cache/a.tmp"));
    let r = check_restore(&item, &Some("/cache/b.tmp".into()), &restore_obs("Trash", false, None));
    assert_eq!(r, Ok(("/t/a.tmp".to_string(), "/cache/b.tmp".to_string())));
}

#[test]
fn test_permanently_deleted_item_is_structurally_unrepresentable_in_restore_flow() {
    let item = persisted(ItemOutcomeStatus::Succeeded, Some("/t/a.tmp"));
    let r = check_restore(&item, &None, &restore_obs("PermanentDelete", false, None));
    assert!(matches!(r, Err(CommandError::Unsupported { ref feature, .. }) if feature == "restore_item"));
    let reason = ProtectedReason { root_id: "id".into(), root_name: "System".into(), description: "OS".into() };
    let r = check_restore(&item, &None, &restore_obs("Trash", false, Some(reason)));
    assert_eq!(
        r,
        Err(CommandError::PermissionDenied {
            path: Some("/cache/a.tmp".into()),
            reason: "Refusing to restore into protected root 'System' (OS)".into()
        })
    );
}

#[test]
fn test_prevent_trash_totals_from_being_summed_with_permanently_reclaimed_bytes() {
    let items = vec![persisted(ItemOutcomeStatus::Succeeded, Some("/t/a")), persisted(ItemOutcomeStatus::Succeeded, Some("/t/b"))];
    let el = vec![
        RestoreEligibility::Eligible {
            trashed_path: "/t/a".into(),
            original_destination: "/a".into(),
            destination_occupied: false,
            suggested_alternate_destination: None,
        },
        RestoreEligibility::Ineligible { reason: "gone".into() },
    ];
    let t = lifetime_totals(&items, &el, 5000);
    assert_eq!(t.pending_in_trash_bytes, 1000);
    assert_eq!(t.permanently_reclaimed_bytes, 5000);
}

#[test]
fn outcome_filters_ignore_case() {
    assert_eq!(parse_outcome_filter("FAILED"), OutcomeFilter::Failed);
    assert_eq!(parse_outcome_filter("Blocked"), OutcomeFilter::Blocked);
    assert_eq!(parse_outcome_filter("s\u{212A}ipped"), OutcomeFilter::Skipped);
    assert_eq!(parse_outcome_filter("everything"), OutcomeFilter::Everything);
    assert!(item_selected(&Some("failed".into()), ItemOutcomeStatus::PermissionDenied));
    assert!(item_selected(&Some("blocked".into()), ItemOutcomeStatus::Vanished));
    assert!(!item_selected(&Some("succeeded".into()), ItemOutcomeStatus::Failed));
    assert!(item_selected(&None, ItemOutcomeStatus::Failed));
    let (sql, params) = operations_query(&FetchHistoryOperationsArgs {
        outcome_filter: Some("failed".into()),
        date_from_ms: Some(10),
        date_to_ms: None,
    });
    assert!(sql.contains(" AND created_at_ms >= ?"));
    assert!(sql.contains("failed_items > 0 OR permission_denied_items > 0"));
    assert!(sql.ends_with(" ORDER BY created_at_ms DESC"));
    assert_eq!(params, vec![10]);
}

#[test]
fn stored_names_round_trip() {
    for s in [
        ItemOutcomeStatus::Succeeded,
        ItemOutcomeStatus::Failed,
        ItemOutcomeStatus::SkippedProtected,
        ItemOutcomeStatus::BlockedChanged,
        ItemOutcomeStatus::Vanished,
        ItemOutcomeStatus::PermissionDenied,
        ItemOutcomeStatus::Unattempted,
    ] {
        assert_eq!(status_from_name(status_name(s)), s);
    }
    assert_eq!(status_from_name("bogus"), ItemOutcomeStatus::Failed);
    assert_eq!(action_mode_from_name("PermanentDelete"), ActionMode::PermanentDelete);
    assert_eq!(action_mode_from_name("anything"), ActionMode::Trash);
}
