# diskclearance

A disk-space clearance library: it scans directory trees, classifies what it finds
(rebuildable caches, items to review, protected locations), builds review plans,
decides what a cleanup may do to each item, records what was done, and works out
whether a trashed item can be restored. It also finds duplicate files and the files
that belong to an installed application.

The library under `src/` is written in Verus. Each public function states in its
contract what it returns or changes, and the properties that span several functions
stand as public proof functions whose names begin with `law_`.

Layout:

- `src/text.rs`, `src/paths.rs`, `src/keyed.rs`: strings, path text and keyed sorting.
- `src/platform.rs`: the platform contract and the values it reports.
- `src/scan/`: traversal state, entries, coverage and scan sessions.
- `src/classify/`: safety classes, evidence, rule matching, protected roots, plans.
- `src/boundary/`: the decisions behind each command: plan admission, revalidation,
  the destructive gate and outcome ledger, history and restore, progress throttling,
  cancellation.
- `src/duplicates/`: candidate grouping, hashing, storage sharing, retained copies.
- `src/applications/`: application inventory, related files and shared components.
- `src/storage.rs`: schema migration planning and database file naming.
- `app/`: the program around the library: file system, database, trash and threads.
- `tests/`: tests of the library on concrete values.
