//! Where the database lives, which schema migrations a database still needs, when a
//! SQLite failure means the file is corrupt, and where a corrupt file is set aside.

use vstd::prelude::*;
use crate::paths::{drop_last_name, drop_name_len, file_name, file_name_of, join, path_join, trim_separators_len, trim_trailing_separators};
use crate::platform::{PlatformAdapter, PlatformError};
use crate::text::{ascii_lower_seq, ascii_lowercase, concat3, decimal, owned, seq_contains_sub, str_contains, u64_to_decimal};

verus! {

pub const APP_BUNDLE_ID: &'static str = "com.aniklavida.diskclearance";

pub const DATABASE_FILENAME: &'static str = "diskclearance.db";

/// The versions of the shipped schema migrations, in the order they apply. Migrations are
/// forward-only and append-only: a shipped one is never edited, a mistake is corrected by
/// a new, higher-numbered one.
pub open spec fn known_versions() -> Seq<i64> {
    seq![1i64, 2i64, 3i64, 4i64]
}

pub fn migration_versions() -> (v: Vec<i64>)
    ensures
        v@ == known_versions(),
{
    let v: Vec<i64> = vec![1, 2, 3, 4];
    assert(v@ =~= known_versions());
    v
}

/// The versions a migration run applied, and the version the database is at after it.
#[derive(Debug, Clone, PartialEq, Eq)]
pub struct MigrationReport {
    pub applied_versions: Vec<i64>,
    pub current_version: i64,
}

/// Why a database is not migrated.
#[derive(Debug, Clone, Copy, PartialEq, Eq, Structural)]
pub enum MigrationRefusal {
    /// The database was written by a newer version of the application.
    DowngradeNotSupported { found_version: i64, max_known_version: i64 },
}

/// The highest version the migrations know: the last one's, or zero where there are none.
pub open spec fn max_known(versions: Seq<i64>) -> i64 {
    if versions.len() == 0 {
        0
    } else {
        versions.last()
    }
}

/// The versions above the database's current version (zero for a database that has no
/// migrations table yet), in order.
pub open spec fn pending_after(versions: Seq<i64>, current: i64) -> Seq<i64> {
    versions.filter(|v: i64| v > current)
}

/// The migrations to apply to a database at `current`: refused where the database is
/// newer than every known migration.
pub open spec fn migration_plan(current: Option<i64>, versions: Seq<i64>) -> Result<Seq<i64>, MigrationRefusal> {
    match current {
        Some(c) => if c > max_known(versions) {
            Err(MigrationRefusal::DowngradeNotSupported { found_version: c, max_known_version: max_known(versions) })
        } else {
            Ok(pending_after(versions, c))
        },
        None => Ok(pending_after(versions, 0)),
    }
}

pub fn pending_migrations(current: Option<i64>, versions: &Vec<i64>) -> (r: Result<Vec<i64>, MigrationRefusal>)
    ensures
        match (r, migration_plan(current, versions@)) {
            (Ok(v), Ok(p)) => v@ == p,
            (Err(e), Err(f)) => e == f,
            _ => false,
        },
{
    let max_known_version: i64 = if versions.len() == 0 {
        0
    } else {
        versions[versions.len() - 1]
    };
    let floor: i64 = match current {
        Some(c) => {
            if c > max_known_version {
                return Err(
                    MigrationRefusal::DowngradeNotSupported { found_version: c, max_known_version },
                );
            }
            c
        },
        None => 0,
    };
    let mut pending: Vec<i64> = Vec::new();
    let mut i: usize = 0;
    while i < versions.len()
        invariant
            i <= versions@.len(),
            pending@ == pending_after(versions@.subrange(0, i as int), floor),
        decreases versions@.len() - i,
    {
        proof {
            reveal(Seq::filter);
            let next = versions@.subrange(0, i + 1);
            assert(next.drop_last() =~= versions@.subrange(0, i as int));
            assert(next.last() == versions@[i as int]);
        }
        if versions[i] > floor {
            pending.push(versions[i]);
        }
        i = i + 1;
    }
    assert(versions@.subrange(0, versions@.len() as int) =~= versions@);
    Ok(pending)
}

/// The report of a run that applied `applied` and left the database at `final_version`
/// (nothing where no migration table exists).
pub fn migration_report(applied: Vec<i64>, final_version: Option<i64>) -> (r: MigrationReport)
    ensures
        r.applied_versions@ == applied@,
        r.current_version == match final_version {
            Some(v) => v,
            None => 0,
        },
{
    MigrationReport {
        applied_versions: applied,
        current_version: match final_version {
            Some(v) => v,
            None => 0,
        },
    }
}

/// Migrations apply once: a database at the highest known version, with versions listed
/// in increasing order, has nothing left to apply.
pub proof fn law_migrations_apply_once(versions: Seq<i64>)
    requires
        forall|i: int, j: int| 0 <= i < j < versions.len() ==> versions[i] < versions[j],
    ensures
        migration_plan(Some(max_known(versions)), versions) == Ok::<Seq<i64>, MigrationRefusal>(Seq::empty()),
{
    lemma_nothing_above_last(versions);
}

proof fn lemma_nothing_above_last(versions: Seq<i64>)
    requires
        forall|i: int, j: int| 0 <= i < j < versions.len() ==> versions[i] < versions[j],
    ensures
        pending_after(versions, max_known(versions)) == Seq::<i64>::empty(),
{
    reveal(Seq::filter);
    let top = max_known(versions);
    assert forall|k: int| 0 <= k <= versions.len() implies #[trigger] pending_after(versions.subrange(0, k), top)
        == Seq::<i64>::empty() by {
        lemma_prefix_nothing_above(versions, top, k);
    }
    assert(versions.subrange(0, versions.len() as int) =~= versions);
}

proof fn lemma_prefix_nothing_above(versions: Seq<i64>, top: i64, k: int)
    requires
        forall|i: int, j: int| 0 <= i < j < versions.len() ==> versions[i] < versions[j],
        top == max_known(versions),
        0 <= k <= versions.len(),
    ensures
        pending_after(versions.subrange(0, k), top) == Seq::<i64>::empty(),
    decreases k,
{
    reveal(Seq::filter);
    if k > 0 {
        lemma_prefix_nothing_above(versions, top, k - 1);
        let s = versions.subrange(0, k);
        assert(s.drop_last() =~= versions.subrange(0, k - 1));
        assert(s.last() == versions[k - 1]);
        assert(versions[k - 1] <= versions.last());
    }
}

/// Where the database lives: the application's directory under Application Support.
pub open spec fn database_path_in(app_support: Seq<char>) -> Seq<char> {
    path_join(path_join(app_support, APP_BUNDLE_ID@), DATABASE_FILENAME@)
}

pub fn database_path(app_support: &str) -> (p: String)
    ensures
        p@ == database_path_in(app_support@),
{
    let dir = join(app_support, APP_BUNDLE_ID);
    join(&dir, DATABASE_FILENAME)
}

/// The database path under the Application Support directory the platform reports.
pub fn resolve_database_path<A: PlatformAdapter>(adapter: &A) -> (r: Result<String, PlatformError>)
    ensures
        match r {
            Ok(p) => exists|d: crate::platform::DiscoveredPath|
                adapter.reports_app_support(Ok(d)) && p@ == #[trigger] database_path_in(d.path@),
            Err(e) => adapter.reports_app_support(Err(e)),
        },
{
    let reported = adapter.application_support_directory();
    match reported {
        Ok(app_support) => {
            let p = database_path(&app_support.path);
            assert(p@ == database_path_in(app_support.path@));
            Ok(p)
        },
        Err(e) => Err(e),
    }
}

/// The kinds of SQLite result code the corruption check tells apart.
#[derive(Debug, Clone, Copy, PartialEq, Eq, Structural)]
pub enum SqliteCode {
    DatabaseCorrupt,
    NotADatabase,
    Other,
}

/// A failure SQLite reported: its code and, where it gave one, its message.
#[derive(Debug, Clone, PartialEq, Eq)]
pub struct SqliteFailure {
    pub code: SqliteCode,
    pub message: Option<String>,
}

/// The phrases by which SQLite's messages name a damaged file.
pub open spec fn corruption_phrases() -> Seq<Seq<char>> {
    seq!["file is not a database"@, "malformed"@, "corrupt"@]
}

/// A failure means corruption when its code says so, or when its message, lower-cased,
/// contains one of the phrases. (Lower-casing beyond ASCII changes nothing here: no other
/// character lower-cases to a letter of these phrases.)
pub open spec fn corruption(failure: Option<SqliteFailure>) -> bool {
    match failure {
        None => false,
        Some(f) => {
            ||| f.code == SqliteCode::DatabaseCorrupt
            ||| f.code == SqliteCode::NotADatabase
            ||| match f.message {
                Some(m) => exists|k: int|
                    0 <= k < corruption_phrases().len() && seq_contains_sub(
                        ascii_lower_seq(m@),
                        #[trigger] corruption_phrases()[k],
                    ),
                None => false,
            }
        },
    }
}

/// Whether a failure (`None` for an error that is not a SQLite failure) means the file is
/// corrupt.
pub fn is_corruption(failure: &Option<SqliteFailure>) -> (r: bool)
    ensures
        r == corruption(*failure),
{
    match failure {
        None => false,
        Some(f) => {
            match f.code {
                SqliteCode::DatabaseCorrupt => return true,
                SqliteCode::NotADatabase => return true,
                SqliteCode::Other => {},
            }
            match &f.message {
                None => false,
                Some(m) => {
                    let lower = ascii_lowercase(m);
                    let a = str_contains(&lower, "file is not a database");
                    let b = str_contains(&lower, "malformed");
                    let c = str_contains(&lower, "corrupt");
                    proof {
                        let ph = corruption_phrases();
                        assert(ph[0] == "file is not a database"@);
                        assert(ph[1] == "malformed"@);
                        assert(ph[2] == "corrupt"@);
                        if !(a || b || c) {
                            assert forall|k: int| 0 <= k < ph.len() implies !seq_contains_sub(
                                ascii_lower_seq(m@),
                                #[trigger] ph[k],
                            ) by {}
                        }
                    }
                    a || b || c
                },
            }
        },
    }
}

/// The name a corrupt file is set aside under: its own name (the database's where it has
/// none), `.corrupt.`, the moment, and, from the second attempt on, the attempt number.
pub open spec fn backup_file_name(original_name: Option<Seq<char>>, timestamp: Seq<char>, attempt: u64) -> Seq<char> {
    let name = match original_name {
        Some(n) => n,
        None => DATABASE_FILENAME@,
    };
    let base = name + ".corrupt."@ + timestamp;
    if attempt == 0 {
        base
    } else {
        base + "."@ + decimal(attempt as nat)
    }
}

/// `path` with its file name replaced by `name`, or with `name` added where it has none.
pub open spec fn with_file_name(path: Seq<char>, name: Seq<char>) -> Seq<char> {
    if file_name(path) is Some {
        path_join(drop_last_name(trim_trailing_separators(path)), name)
    } else {
        path_join(path, name)
    }
}

/// The path a corrupt database at `original_path` is renamed to on the given attempt
/// (the caller moves on to the next attempt while the path is taken).
pub fn generate_corrupt_backup_path(original_path: &str, timestamp: &str, attempt: u64) -> (p: String)
    ensures
        p@ == with_file_name(
            original_path@,
            backup_file_name(file_name(original_path@), timestamp@, attempt),
        ),
{
    proof {
        reveal_strlit(".");
    }
    let original_name = match file_name_of(original_path) {
        Some(n) => n,
        None => owned(DATABASE_FILENAME),
    };
    let base = concat3(&original_name, ".corrupt.", timestamp);
    let name = if attempt == 0 {
        base
    } else {
        let counter = u64_to_decimal(attempt);
        concat3(&base, ".", &counter)
    };
    match file_name_of(original_path) {
        Some(_) => {
            let cs = crate::text::str_chars(original_path);
            let trimmed_len = trim_separators_len(&cs);
            let trimmed = crate::text::chars_range(cs.as_slice(), 0, trimmed_len);
            let parent_len = drop_name_len(&trimmed);
            let parent = crate::text::string_from_chars(crate::text::chars_range(trimmed.as_slice(), 0, parent_len).as_slice());
            join(&parent, &name)
        },
        None => join(original_path, &name),
    }
}

} // verus!
