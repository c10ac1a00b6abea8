use diskclearance::boundary::history::suggest_non_colliding_path;
use diskclearance::classify::plan::RevalidationFailure;
use diskclearance::duplicates::model::DuplicatePlanError;
use diskclearance::platform::FileIdentity;

#[test]
fn restored_items_take_a_numbered_name_beside_the_original() {
    assert_eq!(suggest_non_colliding_path("/Users/a/report.pdf", None), "/Users/a/report (Restored).pdf");
    assert_eq!(suggest_non_colliding_path("/Users/a/report.pdf", Some(2)), "/Users/a/report (Restored 2).pdf");
    assert_eq!(suggest_non_colliding_path("/Users/a/archive.tar.gz", Some(3)), "/Users/a/archive.tar (Restored 3).gz");
    assert_eq!(suggest_non_colliding_path("/Users/a/.bashrc", None), "/Users/a/.bashrc (Restored)");
    assert_eq!(suggest_non_colliding_path("/Users/a/notes", None), "/Users/a/notes (Restored)");
    assert_eq!(suggest_non_colliding_path("/", None), "restored (Restored)");
}

#[test]
fn revalidation_failures_describe_themselves() {
    assert_eq!(
        RevalidationFailure::PathVanished("/a/b".to_string()).message(),
        "path vanished before execution: /a/b"
    );
    assert_eq!(
        RevalidationFailure::IdentityChanged {
            path: "/a/b".to_string(),
            expected: FileIdentity { device_id: 1, inode: 2 },
            actual: FileIdentity { device_id: 3, inode: 40 },
        }
        .message(),
        "file identity changed for '/a/b' (expected dev:1 ino:2, got dev:3 ino:40)"
    );
    assert_eq!(
        RevalidationFailure::RuleVersionChanged { rule_id: "r".to_string(), plan_version: 1, current_version: 2 }.message(),
        "rule 'r' version mismatch (plan had v1, catalogue has v2)"
    );
    assert_eq!(
        RevalidationFailure::ItemBecameProtected {
            path: "/p".to_string(),
            rule_id: "protected.x".to_string(),
            reason: "why".to_string()
        }
        .message(),
        "target at '/p' became protected under rule protected.x (why)"
    );
}

#[test]
fn duplicate_plan_errors_describe_themselves() {
    assert_eq!(
        DuplicatePlanError::EntireGroupSelected { group_id: "g1".to_string() }.message(),
        "Cannot select all copies in group 'g1'; at least the retained original must remain"
    );
    assert_eq!(
        DuplicatePlanError::ItemNotFound { group_id: "g1".to_string(), item_id: "i9".to_string() }.message(),
        "Item 'i9' was not found in group 'g1'"
    );
    assert_eq!(
        DuplicatePlanError::NoItemsSelected { group_id: "g2".to_string() }.message(),
        "No items were selected in group 'g2'"
    );
}
