use diskclearance::storage::{
    database_path, generate_corrupt_backup_path, is_corruption, migration_report, migration_versions,
    pending_migrations, MigrationRefusal, SqliteCode, SqliteFailure, APP_BUNDLE_ID, DATABASE_FILENAME,
};

/// Applies the pending migrations to a simulated `schema_migrations` table and reports.
fn run(recorded: &mut Vec<i64>) -> Result<diskclearance::storage::MigrationReport, MigrationRefusal> {
    let current = recorded.iter().copied().max();
    let pending = pending_migrations(current, &migration_versions())?;
    recorded.extend(pending.iter().copied());
    Ok(migration_report(pending, recorded.iter().copied().max()))
}

#[test]
fn migrations_apply_once_and_record_in_schema_migrations() {
    let mut recorded = Vec::new();
    let first_report = run(&mut recorded).expect("initial migration");
    assert_eq!(first_report.applied_versions, vec![1, 2, 3, 4]);
    assert_eq!(first_report.current_version, 4);
    assert_eq!(recorded.len(), 4);

    let second_report = run(&mut recorded).expect("second run should do nothing");
    assert!(second_report.applied_versions.is_empty());
    assert_eq!(second_report.current_version, 4);
    assert_eq!(recorded.len(), 4);
}

#[test]
fn downgrade_refuses_database_with_higher_version() {
    let mut recorded = vec![999];
    match run(&mut recorded) {
        Err(MigrationRefusal::DowngradeNotSupported { found_version, max_known_version }) => {
            assert_eq!(found_version, 999);
            assert_eq!(max_known_version, 4);
        }
        other => panic!("expected DowngradeNotSupported, got {other:?}"),
    }
}

#[test]
fn partially_migrated_database_gets_only_the_newer_migrations() {
    assert_eq!(pending_migrations(Some(2), &vec![1, 2, 3, 4]), Ok(vec![3, 4]));
    assert_eq!(pending_migrations(None, &vec![]), Ok(vec![]));
    assert_eq!(
        pending_migrations(Some(1), &vec![]),
        Err(MigrationRefusal::DowngradeNotSupported { found_version: 1, max_known_version: 0 })
    );
    assert_eq!(migration_report(vec![], None).current_version, 0);
}

#[test]
fn database_lives_in_the_application_directory_under_application_support() {
    assert_eq!(
        database_path("/Users/a/Library/Application Support"),
        format!("/Users/a/Library/Application Support/{APP_BUNDLE_ID}/{DATABASE_FILENAME}")
    );
    assert_eq!(database_path("/support/"), "/support/com.aniklavida.diskclearance/diskclearance.db");
}

#[test]
fn corruption_is_read_from_the_code_or_the_message() {
    assert!(is_corruption(&Some(SqliteFailure { code: SqliteCode::DatabaseCorrupt, message: None })));
    assert!(is_corruption(&Some(SqliteFailure { code: SqliteCode::NotADatabase, message: None })));
    assert!(is_corruption(&Some(SqliteFailure {
        code: SqliteCode::Other,
        message: Some("File Is Not A Database".to_string())
    })));
    assert!(is_corruption(&Some(SqliteFailure {
        code: SqliteCode::Other,
        message: Some("database disk image is MALFORMED".to_string())
    })));
    assert!(!is_corruption(&Some(SqliteFailure { code: SqliteCode::Other, message: Some("locked".to_string()) })));
    assert!(!is_corruption(&None));
}

#[test]
fn corrupt_backup_sits_beside_the_original() {
    assert_eq!(
        generate_corrupt_backup_path("/data/app/diskclearance.db", "1700000000.5", 0),
        "/data/app/diskclearance.db.corrupt.1700000000.5"
    );
    assert_eq!(
        generate_corrupt_backup_path("/data/app/diskclearance.db", "1700000000.5", 2),
        "/data/app/diskclearance.db.corrupt.1700000000.5.2"
    );
    assert_eq!(generate_corrupt_backup_path("/", "7.0", 0), "/diskclearance.db.corrupt.7.0");
}
