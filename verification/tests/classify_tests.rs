use diskclearance::classify::catalogue::{ClassifiedFinding, RuleCatalogue};
use diskclearance::classify::class::{
    filter_default_selected, PlannableClass, PlannableSafetyMarker, ProtectedClassRejection,
    RebuildableMarker, ReviewMarker, SafetyClass,
};
use diskclearance::classify::evidence::{Confidence, Evidence, EvidenceValidationError, Recoverability};
use diskclearance::classify::matcher::MatchContext;
use diskclearance::classify::plan::{PlanBuilder, PlanConstructionError, StaticallyClassifiedFinding};
use diskclearance::classify::protected::{evaluate_protected_roots, protected_roots};
use diskclearance::platform::{EntryType, FileIdentity};

const HOME: &str = "/fixture/user_home";

fn context(path: &str, is_git_internal: bool) -> MatchContext {
    MatchContext {
        original_path: path.to_string(),
        canonical_path: path.to_string(),
        normalized_path: path.to_string(),
        entry_type: EntryType::File,
        identity: FileIdentity { device_id: 1, inode: 1 },
        apparent_size: 4096,
        allocated_size: 4096,
        modified_ms: Some(1700000000),
        is_symlink: false,
        symlink_target_canonical: None,
        home_dir: Some(HOME.to_string()),
        home_dir_canonical: None,
        app_support_dir: Some(format!("{HOME}/Library/Application Support")),
        caches_dir: Some(format!("{HOME}/Library/Caches")),
        crosses_mount_boundary: false,
        inside_git_repo: is_git_internal,
        is_git_internal,
    }
}

/// A catalogue whose only rules are the protected roots; anything they do not cover is
/// left for review.
struct ProtectedRootsCatalogue;

impl RuleCatalogue for ProtectedRootsCatalogue {
    fn classify(&self, ctx: &MatchContext) -> ClassifiedFinding {
        match evaluate_protected_roots(ctx) {
            Some(reason) => ClassifiedFinding {
                path: ctx.original_path.clone(),
                canonical_path: ctx.canonical_path.clone(),
                size_bytes: ctx.apparent_size,
                safety_class: SafetyClass::Protected,
                evidence: evidence(&reason.root_id, &reason.root_name, &reason.description),
            },
            None => ClassifiedFinding {
                path: ctx.original_path.clone(),
                canonical_path: ctx.canonical_path.clone(),
                size_bytes: ctx.apparent_size,
                safety_class: SafetyClass::Review,
                evidence: evidence("review.unclassified", "Scanner", "No rule claimed this item"),
            },
        }
    }

    fn rule_version(&self, _rule_id: &str) -> Option<u32> {
        Some(1)
    }
}

fn evidence(rule_id: &str, tool: &str, reason: &str) -> Evidence {
    Evidence {
        rule_id: rule_id.to_string(),
        rule_version: 1,
        owning_tool: tool.to_string(),
        matched_reason: reason.to_string(),
        regenerator: None,
        last_activity_ms: None,
        regeneration_cost: None,
        recoverability: Recoverability::Irrecoverable,
        confidence: Confidence::Definite,
    }
}

fn sample_path_for_root(idx: usize) -> (String, bool) {
    let root = protected_roots()[idx];
    if let Some(exact) = root.exact_system_path {
        (exact.to_string(), false)
    } else if let Some(prefix) = root.system_prefix {
        (format!("{prefix}/sample_item"), false)
    } else if let Some(rel) = root.home_relative_prefix {
        (format!("{HOME}/{rel}/sample_item"), false)
    } else if let Some(rel) = root.home_relative_exact {
        (format!("{HOME}/{rel}"), false)
    } else {
        (format!("{HOME}/project/.git/HEAD"), root.id == "protected.source_control.git_internal")
    }
}

#[test]
fn test_safety_class_default_selection_rules() {
    assert!(SafetyClass::Rebuildable.is_default_selected());
    assert!(!SafetyClass::Review.is_default_selected());
    assert!(!SafetyClass::Protected.is_default_selected());
}

#[test]
fn test_protected_cannot_convert_to_plannable() {
    assert_eq!(SafetyClass::Rebuildable.to_plannable(), Ok(PlannableClass::Rebuildable));
    assert_eq!(SafetyClass::Review.to_plannable(), Ok(PlannableClass::Review));
    assert_eq!(SafetyClass::Protected.to_plannable(), Err(ProtectedClassRejection));
}

#[test]
fn test_filter_default_selected_excludes_review_and_protected() {
    let items = vec![
        ("item-1".to_string(), SafetyClass::Rebuildable),
        ("item-2".to_string(), SafetyClass::Review),
        ("item-3".to_string(), SafetyClass::Protected),
        ("item-4".to_string(), SafetyClass::Review),
        ("item-5".to_string(), SafetyClass::Rebuildable),
    ];
    let selected = filter_default_selected(&items);
    assert_eq!(selected, vec!["item-1".to_string(), "item-5".to_string()]);
}

#[test]
fn test_no_review_class_finding_is_selected_by_default() {
    let review_items: Vec<(String, SafetyClass)> = vec![
        ("download-archive.zip".to_string(), SafetyClass::Review),
        ("local-model-weights.bin".to_string(), SafetyClass::Review),
        ("untracked-source.rs".to_string(), SafetyClass::Review),
        ("heuristic-cache.tmp".to_string(), SafetyClass::Review),
        ("duplicate-copy.jpg".to_string(), SafetyClass::Review),
    ];
    let selected = filter_default_selected(&review_items);
    assert!(selected.is_empty());
    assert!(!SafetyClass::Review.is_default_selected());
    assert!(!SafetyClass::Protected.is_default_selected());
    assert!(SafetyClass::Rebuildable.is_default_selected());
}

#[test]
fn test_plan_builder_admits_rebuildable_and_review() {
    let mut builder = PlanBuilder::new("plan-1".to_string(), "session-1".to_string());
    let evidence = Evidence {
        rule_id: "rule.rebuildable.cargo_target".to_string(),
        rule_version: 1,
        owning_tool: "Cargo".to_string(),
        matched_reason: "Matches Cargo target directory".to_string(),
        regenerator: Some("cargo build".to_string()),
        last_activity_ms: Some(100),
        regeneration_cost: Some("minutes to hours".to_string()),
        recoverability: Recoverability::RebuildableByTool { command: "cargo build".to_string() },
        confidence: Confidence::Definite,
    };
    let finding = ClassifiedFinding {
        path: "/tmp/project/target".to_string(),
        canonical_path: "/tmp/project/target".to_string(),
        size_bytes: 5000,
        safety_class: SafetyClass::Rebuildable,
        evidence,
    };
    let res = builder.add_classified_finding("item-1".to_string(), &finding, FileIdentity { device_id: 1, inode: 10 });
    assert!(res.is_ok());
    assert_eq!(builder.items().len(), 1);
    assert_eq!(builder.items()[0].class, PlannableClass::Rebuildable);
}

#[test]
fn test_plan_builder_rejects_protected_finding() {
    let mut builder = PlanBuilder::new("plan-1".to_string(), "session-1".to_string());
    let evidence = Evidence {
        rule_id: "protected.system.root".to_string(),
        rule_version: 1,
        owning_tool: "macOS System".to_string(),
        matched_reason: "Root system volume".to_string(),
        regenerator: None,
        last_activity_ms: None,
        regeneration_cost: None,
        recoverability: Recoverability::Irrecoverable,
        confidence: Confidence::Definite,
    };
    let finding = ClassifiedFinding {
        path: "/System".to_string(),
        canonical_path: "/System".to_string(),
        size_bytes: 100000,
        safety_class: SafetyClass::Protected,
        evidence,
    };
    let res = builder.add_classified_finding("item-1".to_string(), &finding, FileIdentity { device_id: 1, inode: 1 });
    assert!(matches!(res, Err(PlanConstructionError::ProtectedItemRejected { .. })));
    assert_eq!(builder.items().len(), 0);
}

#[test]
fn test_static_plan_builder_with_plannable_marker() {
    let mut builder = PlanBuilder::new("plan-1".to_string(), "session-1".to_string());
    let evidence = Evidence {
        rule_id: "rule.rebuildable.cargo_target".to_string(),
        rule_version: 1,
        owning_tool: "Cargo".to_string(),
        matched_reason: "Cargo build".to_string(),
        regenerator: Some("cargo build".to_string()),
        last_activity_ms: None,
        regeneration_cost: Some("minutes to hours".to_string()),
        recoverability: Recoverability::RebuildableByTool { command: "cargo build".to_string() },
        confidence: Confidence::Definite,
    };
    let static_finding = StaticallyClassifiedFinding::new(
        RebuildableMarker,
        "/tmp/target".to_string(),
        "/tmp/target".to_string(),
        FileIdentity { device_id: 1, inode: 2 },
        1024,
        evidence,
    );
    let res = builder.add_static_finding("item-1".to_string(), static_finding);
    assert!(res.is_ok());
}

#[test]
fn test_statically_classified_finding_markers() {
    assert_eq!(RebuildableMarker::plannable_class(), PlannableClass::Rebuildable);
    assert_eq!(RebuildableMarker::safety_class(), SafetyClass::Rebuildable);
    assert_eq!(ReviewMarker::plannable_class(), PlannableClass::Review);
    assert_eq!(ReviewMarker::safety_class(), SafetyClass::Review);
}

#[test]
fn test_every_protected_root_unrepresentable_as_plan_item() {
    let catalogue = ProtectedRootsCatalogue;
    for idx in 0..protected_roots().len() {
        let root = protected_roots()[idx];
        let (path, git) = sample_path_for_root(idx);
        let ctx = context(&path, git);
        let classified = catalogue.classify(&ctx);
        assert_eq!(
            classified.safety_class,
            SafetyClass::Protected,
            "Protected root '{}' must classify as Protected",
            root.id
        );
        let mut builder = PlanBuilder::new("plan-protected".to_string(), "session-protected".to_string());
        let result = builder.add_classified_finding(
            "item-id".to_string(),
            &classified,
            FileIdentity { device_id: 1, inode: 1 },
        );
        assert!(matches!(result, Err(PlanConstructionError::ProtectedItemRejected { .. })));
        assert_eq!(builder.items().len(), 0);
    }
}

#[test]
fn test_prevent_all_catalogue_protected_roots_from_entering_plan_builder() {
    let mut builder = PlanBuilder::new("plan-protected-roots".to_string(), "session-safety".to_string());
    for (idx, root_desc) in protected_roots().iter().enumerate() {
        let fake_path = root_desc
            .exact_system_path
            .map(|p| p.to_string())
            .or_else(|| root_desc.system_prefix.map(|p| p.to_string()))
            .or_else(|| root_desc.home_relative_prefix.map(|p| format!("/mock_home/{p}")))
            .or_else(|| root_desc.home_relative_exact.map(|p| format!("/mock_home/{p}")))
            .unwrap_or_else(|| format!("/ProtectedPath/{idx}"));
        let finding = ClassifiedFinding {
            path: fake_path.clone(),
            canonical_path: fake_path,
            size_bytes: 4096,
            safety_class: SafetyClass::Protected,
            evidence: Evidence {
                rule_id: root_desc.id.to_string(),
                rule_version: 1,
                owning_tool: "TestTool".to_string(),
                matched_reason: "Destructive safety test assertion".to_string(),
                regenerator: None,
                last_activity_ms: None,
                regeneration_cost: None,
                recoverability: Recoverability::Irrecoverable,
                confidence: Confidence::Definite,
            },
        };
        let result = builder.add_classified_finding(
            format!("item-protected-{idx}"),
            &finding,
            FileIdentity { device_id: 1, inode: 1000 + idx as u64 },
        );
        assert!(
            matches!(result, Err(PlanConstructionError::ProtectedItemRejected { .. })),
            "Protected root '{}' ({}) was admitted into the deletion plan",
            root_desc.name,
            root_desc.id
        );
    }
    assert_eq!(builder.items().len(), 0);
}

#[test]
fn test_every_finding_carries_rule_and_non_empty_evidence() {
    let catalogue = ProtectedRootsCatalogue;
    for path in [
        format!("{HOME}/.cargo/registry/cache"),
        format!("{HOME}/Downloads/file.pdf"),
        format!("{HOME}/.ssh/id_ed25519"),
    ] {
        let classified = catalogue.classify(&context(&path, false));
        assert!(!classified.evidence.rule_id.trim().is_empty());
        assert!(classified.evidence.rule_version > 0);
        assert!(!classified.evidence.owning_tool.trim().is_empty());
        assert!(!classified.evidence.matched_reason.trim().is_empty());
        assert!(classified.evidence.validate().is_ok());
    }

    let mut builder = PlanBuilder::new("plan-ev".to_string(), "session-ev".to_string());
    let mut bad_evidence = Evidence {
        rule_id: "".to_string(),
        rule_version: 1,
        owning_tool: "TestTool".to_string(),
        matched_reason: "Reason".to_string(),
        regenerator: None,
        last_activity_ms: None,
        regeneration_cost: None,
        recoverability: Recoverability::TrashRecoverable,
        confidence: Confidence::Definite,
    };
    let bad_finding = ClassifiedFinding {
        path: "/tmp/rebuildable".to_string(),
        canonical_path: "/tmp/rebuildable".to_string(),
        size_bytes: 100,
        safety_class: SafetyClass::Rebuildable,
        evidence: bad_evidence.clone(),
    };
    let res = builder.add_classified_finding("bad-1".to_string(), &bad_finding, FileIdentity { device_id: 1, inode: 1 });
    assert_eq!(res, Err(PlanConstructionError::InvalidEvidence(EvidenceValidationError::EmptyRuleId)));

    bad_evidence.rule_id = "rule.id".to_string();
    bad_evidence.owning_tool = "".to_string();
    let bad_finding2 = ClassifiedFinding {
        path: "/tmp/rebuildable".to_string(),
        canonical_path: "/tmp/rebuildable".to_string(),
        size_bytes: 100,
        safety_class: SafetyClass::Rebuildable,
        evidence: bad_evidence,
    };
    let res2 = builder.add_classified_finding("bad-2".to_string(), &bad_finding2, FileIdentity { device_id: 1, inode: 1 });
    assert_eq!(res2, Err(PlanConstructionError::InvalidEvidence(EvidenceValidationError::EmptyOwningTool)));
}

#[test]
fn blank_evidence_fields_are_named_in_order() {
    let mut e = evidence("rule.x", "Tool", "Reason");
    assert_eq!(e.validate(), Ok(()));
    e.rule_version = 0;
    assert_eq!(e.validate(), Err(EvidenceValidationError::ZeroRuleVersion));
    e.rule_version = 2;
    e.matched_reason = "   ".to_string();
    assert_eq!(e.validate(), Err(EvidenceValidationError::EmptyMatchedReason));
}

#[test]
fn ssh_keys_under_home_are_protected_and_downloads_are_not() {
    let ssh = context(&format!("{HOME}/.ssh/id_ed25519"), false);
    assert!(evaluate_protected_roots(&ssh).is_some());
    let download = context(&format!("{HOME}/Downloads/file.pdf"), false);
    assert!(evaluate_protected_roots(&download).is_none());
}

#[test]
fn safety_class_names_are_stable() {
    assert_eq!(SafetyClass::Rebuildable.as_str(), "rebuildable");
    assert_eq!(SafetyClass::Review.as_str(), "review");
    assert_eq!(SafetyClass::Protected.as_str(), "protected");
    assert_eq!(PlannableClass::Review.safety_class(), SafetyClass::Review);
}
