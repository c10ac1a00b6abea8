//! The accounting of a depth-first walk: each root, directory and entry the walk meets is
//! handed to the walk state, which decides what is counted, what is skipped and why,
//! and what is walked next. Reading directories is left to the caller.

use vstd::prelude::*;
use std::collections::HashSet;
use crate::boundary::events::{CoverageWarningPayload, ScanPhase, ScanProgressPayload};
use crate::platform::{EntryMetadata, EntryType, FileIdentity, PlatformError, ResolvedPath};
use crate::scan::coverage::{CoverageSummary, SkipReason, SkippedScope};
use crate::scan::entry::ScannedEntry;
use crate::text::{concat2, concat3, owned, u64_to_decimal};

verus! {

broadcast use vstd::std_specs::hash::group_hash_axioms;

/// Counts the scan records being held: the ones in flight and the ones retained, with the
/// high-water mark of their sum.
#[derive(Debug)]
pub struct MemoryTracker {
    live_records: usize,
    retained_records: usize,
    peak_records: usize,
}

impl MemoryTracker {
    pub closed spec fn spec_live(&self) -> int {
        self.live_records as int
    }

    pub closed spec fn spec_retained(&self) -> int {
        self.retained_records as int
    }

    pub closed spec fn spec_peak(&self) -> int {
        self.peak_records as int
    }

    pub fn new() -> (t: Self)
        ensures
            t.spec_live() == 0,
            t.spec_retained() == 0,
            t.spec_peak() == 0,
    {
        MemoryTracker { live_records: 0, retained_records: 0, peak_records: 0 }
    }

    /// One more record in flight.
    pub fn track_alloc(&mut self)
        requires
            old(self).spec_live() < usize::MAX,
        ensures
            final(self).spec_live() == old(self).spec_live() + 1,
            final(self).spec_retained() == old(self).spec_retained(),
            final(self).spec_peak() == if old(self).spec_live() + 1 > old(self).spec_peak() {
                old(self).spec_live() + 1
            } else {
                old(self).spec_peak()
            },
    {
        self.live_records = self.live_records + 1;
        if self.live_records > self.peak_records {
            self.peak_records = self.live_records;
        }
    }

    /// One record fewer in flight (never below zero).
    pub fn track_dealloc(&mut self)
        ensures
            final(self).spec_live() == if old(self).spec_live() > 0 { old(self).spec_live() - 1 } else { 0 },
            final(self).spec_retained() == old(self).spec_retained(),
            final(self).spec_peak() == old(self).spec_peak(),
    {
        if self.live_records > 0 {
            self.live_records = self.live_records - 1;
        }
    }

    /// One more record kept for the rest of the walk; the peak counts it with those in flight.
    pub fn track_retained(&mut self)
        requires
            old(self).spec_retained() + old(self).spec_live() < usize::MAX,
        ensures
            final(self).spec_retained() == old(self).spec_retained() + 1,
            final(self).spec_live() == old(self).spec_live(),
            final(self).spec_peak() == if old(self).spec_retained() + 1 + old(self).spec_live()
                > old(self).spec_peak() {
                old(self).spec_retained() + 1 + old(self).spec_live()
            } else {
                old(self).spec_peak()
            },
    {
        self.retained_records = self.retained_records + 1;
        let held = self.retained_records + self.live_records;
        if held > self.peak_records {
            self.peak_records = held;
        }
    }

    pub fn live(&self) -> (n: usize)
        ensures
            n == self.spec_live(),
    {
        self.live_records
    }

    pub fn peak(&self) -> (n: usize)
        ensures
            n == self.spec_peak(),
    {
        self.peak_records
    }
}

/// Output of a traversal.
#[derive(Debug, Clone)]
pub struct TraversalResult {
    pub session_id: String,
    pub coverage: CoverageSummary,
    pub entries: Vec<ScannedEntry>,
}

/// What visiting one entry produced: a warning for the interface, the entry record, and
/// a progress update.
#[derive(Debug, Clone)]
pub struct EntryVisit {
    pub warning: Option<CoverageWarningPayload>,
    pub entry: Option<ScannedEntry>,
    pub progress: Option<ScanProgressPayload>,
}

/// The state of a walk.
pub struct Traversal {
    pub session_id: String,
    pub coverage: CoverageSummary,
    pub entries: Vec<ScannedEntry>,
    pub collect_entries: bool,
    /// Identities of multiply-linked files already counted.
    pub seen_hardlinks: Vec<FileIdentity>,
    /// Directories still to walk, each with the device of the root it was reached from
    /// (zero when that device is unknown).
    pub dir_stack: Vec<(String, u64)>,
    /// Devices of the requested roots.
    pub requested_devices: HashSet<u64>,
    /// The records in flight and retained during the walk.
    pub tracker: MemoryTracker,
}

/// An entry's bytes are counted unless it is a multiply-linked file whose identity was
/// already counted: a set of hardlinks contributes its bytes exactly once.
pub open spec fn counts_bytes(seen: Seq<FileIdentity>, m: EntryMetadata) -> bool {
    !(m.entry_type == EntryType::File && m.nlink > 1 && seen.contains(m.identity))
}

/// An entry adds its own bytes to the totals: directories add none (their contents are
/// counted as they are visited), and a repeated hardlink adds none.
pub open spec fn adds_bytes(seen: Seq<FileIdentity>, m: EntryMetadata) -> bool {
    m.entry_type != EntryType::Directory && counts_bytes(seen, m)
}

/// The identities counted once an entry is visited.
pub open spec fn seen_after(seen: Seq<FileIdentity>, m: EntryMetadata) -> Seq<FileIdentity> {
    if m.entry_type == EntryType::File && m.nlink > 1 && !seen.contains(m.identity) {
        seen.push(m.identity)
    } else {
        seen
    }
}

/// The walk does not cross onto another device, unless the root's device is unknown or
/// the other device is that of a requested root.
pub open spec fn crosses_boundary(root_device: u64, requested: Set<u64>, m: EntryMetadata) -> bool {
    root_device != 0 && m.identity.device_id != root_device && !requested.contains(m.identity.device_id)
}

fn warning(session_id: &String, path: &str, code: &str, message: String) -> (w: CoverageWarningPayload)
    ensures
        w.session_id == *session_id,
        w.path@ == path@,
        w.warning_code@ == code@,
        w.message == message,
{
    CoverageWarningPayload {
        session_id: session_id.clone(),
        path: owned(path),
        warning_code: owned(code),
        message,
    }
}

fn contains_identity(v: &Vec<FileIdentity>, id: FileIdentity) -> (b: bool)
    ensures
        b == v@.contains(id),
{
    let mut i: usize = 0;
    while i < v.len()
        invariant
            i <= v@.len(),
            forall|j: int| 0 <= j < i ==> v@[j] != id,
        decreases v@.len() - i,
    {
        if v[i] == id {
            return true;
        }
        i = i + 1;
    }
    false
}

/// The coverage counters other than the skipped scopes, as a tuple.
pub open spec fn counters(c: CoverageSummary) -> (u64, u64, u64, u64, u64, u64, u64, u64, u64) {
    (
        c.total_apparent_bytes,
        c.total_allocated_bytes,
        c.items_scanned,
        c.files_count,
        c.directories_count,
        c.symlinks_count,
        c.skipped_permissions_count,
        c.skipped_mount_boundaries_count,
        c.skipped_vanished_count,
    )
}

/// The counters after one more permission skip.
pub open spec fn bump_permissions(c: CoverageSummary) -> (u64, u64, u64, u64, u64, u64, u64, u64, u64) {
    let t = counters(c);
    (t.0, t.1, t.2, t.3, t.4, t.5, (t.6 + 1) as u64, t.7, t.8)
}

/// The counters after one more mount-boundary skip.
pub open spec fn bump_mounts(c: CoverageSummary) -> (u64, u64, u64, u64, u64, u64, u64, u64, u64) {
    let t = counters(c);
    (t.0, t.1, t.2, t.3, t.4, t.5, t.6, (t.7 + 1) as u64, t.8)
}

/// The counters after one more vanished entry.
pub open spec fn bump_vanished(c: CoverageSummary) -> (u64, u64, u64, u64, u64, u64, u64, u64, u64) {
    let t = counters(c);
    (t.0, t.1, t.2, t.3, t.4, t.5, t.6, t.7, (t.8 + 1) as u64)
}

impl Traversal {
    /// No counted identity is recorded twice; between entries no record is in flight; the
    /// records retained are the collected entries, one per item scanned, and none is
    /// collected otherwise; the peak of held records is one more than the entries
    /// collected, or one without collecting, once anything was scanned.
    pub open spec fn wf(&self) -> bool {
        &&& self.seen_hardlinks@.no_duplicates()
        &&& self.tracker.spec_live() == 0
        &&& self.tracker.spec_retained() == self.entries@.len()
        &&& self.collect_entries ==> self.entries@.len() == self.coverage.items_scanned
        &&& !self.collect_entries ==> self.entries@.len() == 0
        &&& self.tracker.spec_peak() == if self.coverage.items_scanned == 0 {
            0
        } else if self.collect_entries {
            self.entries@.len() + 1
        } else {
            1
        }
    }

    pub fn new(session_id: String, collect_entries: bool) -> (t: Self)
        ensures
            t.wf(),
            t.session_id == session_id,
            t.collect_entries == collect_entries,
            t.entries@.len() == 0,
            t.seen_hardlinks@.len() == 0,
            t.dir_stack@.len() == 0,
            t.requested_devices@.len() == 0,
            t.coverage.items_scanned == 0,
            t.coverage.total_allocated_bytes == 0,
            t.coverage.total_apparent_bytes == 0,
            t.coverage.files_count == 0,
            t.coverage.directories_count == 0,
            t.coverage.symlinks_count == 0,
            t.coverage.skipped_permissions_count == 0,
            t.coverage.skipped_mount_boundaries_count == 0,
            t.coverage.skipped_vanished_count == 0,
            t.coverage.skipped_scopes@.len() == 0,
            !t.coverage.is_complete,
            t.tracker.spec_live() == 0,
            t.tracker.spec_retained() == 0,
            t.tracker.spec_peak() == 0,
    {
        Traversal {
            session_id,
            coverage: CoverageSummary::new(),
            entries: Vec::new(),
            collect_entries,
            seen_hardlinks: Vec::new(),
            dir_stack: Vec::new(),
            requested_devices: HashSet::new(),
            tracker: MemoryTracker::new(),
        }
    }

    /// Takes a requested root with the identity the platform reported for it: a root
    /// with a known device is walked and its device becomes a requested device; one whose
    /// identity is unsupported is walked without boundary detection, with a warning; a
    /// missing root is recorded as vanished; a refused one as a permission skip, with a
    /// warning; any other failure as an I/O skip.
    pub fn add_root(&mut self, root: &str, identity: &Result<FileIdentity, PlatformError>) -> (w: Option<
        CoverageWarningPayload,
    >)
        requires
            old(self).coverage.skipped_permissions_count < u64::MAX,
        ensures
            final(self).session_id == old(self).session_id,
            final(self).entries == old(self).entries,
            final(self).seen_hardlinks == old(self).seen_hardlinks,
            final(self).collect_entries == old(self).collect_entries,
            match *identity {
                Ok(id) => {
                    &&& final(self).dir_stack@.drop_last() == old(self).dir_stack@
                    &&& final(self).dir_stack@.last().0@ == root@
                    &&& final(self).dir_stack@.last().1 == id.device_id
                    &&& final(self).dir_stack@.len() == old(self).dir_stack@.len() + 1
                    &&& final(self).requested_devices@.contains(id.device_id)
                    &&& forall|d: u64| old(self).requested_devices@.contains(d) ==> #[trigger] final(self).requested_devices@.contains(d)
                    &&& final(self).coverage == old(self).coverage
                    &&& w is None
                },
                Err(PlatformError::Unsupported(_)) => {
                    &&& final(self).dir_stack@.drop_last() == old(self).dir_stack@
                    &&& final(self).dir_stack@.len() == old(self).dir_stack@.len() + 1
                    &&& final(self).dir_stack@.last().0@ == root@
                    &&& final(self).dir_stack@.last().1 == 0
                    &&& final(self).requested_devices == old(self).requested_devices
                    &&& final(self).coverage == old(self).coverage
                    &&& w matches Some(warn) && warn.warning_code@ == "mount_boundary_tracking_unavailable"@
                },
                Err(PlatformError::PermissionDenied { reason, .. }) => {
                    &&& final(self).dir_stack == old(self).dir_stack
                    &&& final(self).requested_devices == old(self).requested_devices
                    &&& counters(final(self).coverage) == bump_permissions(old(self).coverage)
                    &&& final(self).coverage.skipped_scopes@.len() == old(self).coverage.skipped_scopes@.len() + 1
                    &&& final(self).coverage.skipped_scopes@.drop_last() == old(self).coverage.skipped_scopes@
                    &&& final(self).coverage.skipped_scopes@.last().path@ == root@
                    &&& final(self).coverage.skipped_scopes@.last().reason == SkipReason::PermissionDenied(reason)
                    &&& w matches Some(warn) && warn.warning_code@ == "permission_denied"@ && warn.message == reason
                },
                Err(PlatformError::NotFound(_)) => {
                    &&& final(self).dir_stack == old(self).dir_stack
                    &&& final(self).requested_devices == old(self).requested_devices
                    &&& counters(final(self).coverage) == counters(old(self).coverage)
                    &&& final(self).coverage.skipped_scopes@.len() == old(self).coverage.skipped_scopes@.len() + 1
                    &&& final(self).coverage.skipped_scopes@.drop_last() == old(self).coverage.skipped_scopes@
                    &&& final(self).coverage.skipped_scopes@.last().path@ == root@
                    &&& final(self).coverage.skipped_scopes@.last().reason == SkipReason::Vanished
                    &&& w is None
                },
                Err(e) => {
                    &&& final(self).dir_stack == old(self).dir_stack
                    &&& final(self).requested_devices == old(self).requested_devices
                    &&& counters(final(self).coverage) == counters(old(self).coverage)
                    &&& final(self).coverage.skipped_scopes@.len() == old(self).coverage.skipped_scopes@.len() + 1
                    &&& final(self).coverage.skipped_scopes@.drop_last() == old(self).coverage.skipped_scopes@
                    &&& final(self).coverage.skipped_scopes@.last().path@ == root@
                    &&& final(self).coverage.skipped_scopes@.last().reason matches SkipReason::IoError(m) && m@ == e.spec_message()
                    &&& w is None
                },
            },
            final(self).coverage.is_complete == old(self).coverage.is_complete,
            old(self).wf() ==> final(self).wf(),
    {
        match identity {
            Ok(id) => {
                self.requested_devices.insert(id.device_id);
                let ghost before = self.dir_stack@;
                self.dir_stack.push((owned(root), id.device_id));
                assert(self.dir_stack@.drop_last() =~= before);
                None
            },
            Err(PlatformError::NotFound(_)) => {
                let ghost before = self.coverage.skipped_scopes@;
                self.coverage.skipped_scopes.push(SkippedScope { path: owned(root), reason: SkipReason::Vanished });
                assert(self.coverage.skipped_scopes@.drop_last() =~= before);
                None
            },
            Err(PlatformError::PermissionDenied { reason, .. }) => {
                self.coverage.skipped_permissions_count = self.coverage.skipped_permissions_count + 1;
                self.coverage.skipped_scopes.push(
                    SkippedScope { path: owned(root), reason: SkipReason::PermissionDenied(reason.clone()) },
                );
                Some(warning(&self.session_id, root, "permission_denied", reason.clone()))
            },
            Err(PlatformError::Unsupported(what)) => {
                let ghost before = self.dir_stack@;
                self.dir_stack.push((owned(root), 0));
                assert(self.dir_stack@.drop_last() =~= before);
                let message = concat2(what, "; this scope was walked without mount-boundary detection");
                Some(warning(&self.session_id, root, "mount_boundary_tracking_unavailable", message))
            },
            Err(e) => {
                let ghost before = self.coverage.skipped_scopes@;
                self.coverage.skipped_scopes.push(
                    SkippedScope { path: owned(root), reason: SkipReason::IoError(e.message()) },
                );
                assert(self.coverage.skipped_scopes@.drop_last() =~= before);
                None
            },
        }
    }

    /// The next directory to walk, most recently found first.
    pub fn next_directory(&mut self) -> (d: Option<(String, u64)>)
        ensures
            match d {
                Some(top) => old(self).dir_stack@.len() > 0 && top == old(self).dir_stack@.last()
                    && final(self).dir_stack@ == old(self).dir_stack@.drop_last(),
                None => old(self).dir_stack@.len() == 0 && final(self).dir_stack@ == old(self).dir_stack@,
            },
            final(self).session_id == old(self).session_id,
            final(self).coverage == old(self).coverage,
            final(self).entries == old(self).entries,
            final(self).seen_hardlinks == old(self).seen_hardlinks,
            final(self).requested_devices == old(self).requested_devices,
            final(self).collect_entries == old(self).collect_entries,
            final(self).tracker == old(self).tracker,
            old(self).wf() ==> final(self).wf(),
    {
        self.dir_stack.pop()
    }

    /// Records a directory that could not be read: a refusal for permission counts as a
    /// permission skip with a warning; any other failure as an I/O skip.
    pub fn directory_unreadable(&mut self, dir: &str, permission_denied: bool, message: String) -> (w: Option<
        CoverageWarningPayload,
    >)
        requires
            old(self).coverage.skipped_permissions_count < u64::MAX,
        ensures
            final(self).session_id == old(self).session_id,
            final(self).entries == old(self).entries,
            final(self).seen_hardlinks == old(self).seen_hardlinks,
            final(self).dir_stack == old(self).dir_stack,
            final(self).requested_devices == old(self).requested_devices,
            final(self).collect_entries == old(self).collect_entries,
            final(self).coverage.skipped_scopes@.len() == old(self).coverage.skipped_scopes@.len() + 1,
            final(self).coverage.skipped_scopes@.drop_last() == old(self).coverage.skipped_scopes@,
            final(self).coverage.skipped_scopes@.last().path@ == dir@,
            final(self).coverage.is_complete == old(self).coverage.is_complete,
            final(self).tracker == old(self).tracker,
            old(self).wf() ==> final(self).wf(),
            permission_denied ==> {
                &&& final(self).coverage.skipped_scopes@.last().reason == SkipReason::PermissionDenied(message)
                &&& counters(final(self).coverage) == bump_permissions(old(self).coverage)
                &&& w matches Some(warn) && warn.warning_code@ == "permission_denied"@ && warn.message@
                    == "Permission denied reading directory "@ + dir@
            },
            !permission_denied ==> {
                &&& final(self).coverage.skipped_scopes@.last().reason == SkipReason::IoError(message)
                &&& counters(final(self).coverage) == counters(old(self).coverage)
                &&& w is None
            },
    {
        let ghost before = self.coverage.skipped_scopes@;
        if permission_denied {
            self.coverage.skipped_permissions_count = self.coverage.skipped_permissions_count + 1;
            self.coverage.skipped_scopes.push(
                SkippedScope { path: owned(dir), reason: SkipReason::PermissionDenied(message) },
            );
            assert(self.coverage.skipped_scopes@.drop_last() =~= before);
            let text = concat2("Permission denied reading directory ", dir);
            Some(warning(&self.session_id, dir, "permission_denied", text))
        } else {
            self.coverage.skipped_scopes.push(SkippedScope { path: owned(dir), reason: SkipReason::IoError(message) });
            assert(self.coverage.skipped_scopes@.drop_last() =~= before);
            None
        }
    }

    /// Records an entry of `dir` that could not be listed.
    pub fn entry_unlistable(&mut self, dir: &str, message: String)
        ensures
            final(self).tracker == old(self).tracker,
            old(self).wf() ==> final(self).wf(),
            final(self).session_id == old(self).session_id,
            final(self).entries == old(self).entries,
            final(self).seen_hardlinks == old(self).seen_hardlinks,
            final(self).dir_stack == old(self).dir_stack,
            final(self).requested_devices == old(self).requested_devices,
            final(self).collect_entries == old(self).collect_entries,
            counters(final(self).coverage) == counters(old(self).coverage),
            final(self).coverage.is_complete == old(self).coverage.is_complete,
            final(self).coverage.skipped_scopes@.len() == old(self).coverage.skipped_scopes@.len() + 1,
            final(self).coverage.skipped_scopes@.drop_last() == old(self).coverage.skipped_scopes@,
            final(self).coverage.skipped_scopes@.last().path@ == dir@,
            final(self).coverage.skipped_scopes@.last().reason == SkipReason::IoError(message),
    {
        let ghost before = self.coverage.skipped_scopes@;
        self.coverage.skipped_scopes.push(SkippedScope { path: owned(dir), reason: SkipReason::IoError(message) });
        assert(self.coverage.skipped_scopes@.drop_last() =~= before);
    }

    /// Visits one entry of a directory reached from a root on `root_device`, with the
    /// metadata and resolution the platform reported for it.
    pub fn visit_entry(
        &mut self,
        entry_path: &str,
        root_device: u64,
        metadata: &Result<EntryMetadata, PlatformError>,
        resolved: &Result<ResolvedPath, PlatformError>,
    ) -> (v: EntryVisit)
        requires
            old(self).wf(),
            old(self).entries@.len() + 2 <= usize::MAX,
            old(self).coverage.items_scanned < u64::MAX,
            old(self).coverage.files_count < u64::MAX,
            old(self).coverage.directories_count < u64::MAX,
            old(self).coverage.symlinks_count < u64::MAX,
            old(self).coverage.skipped_permissions_count < u64::MAX,
            old(self).coverage.skipped_mount_boundaries_count < u64::MAX,
            old(self).coverage.skipped_vanished_count < u64::MAX,
            metadata matches Ok(m) ==> old(self).coverage.total_apparent_bytes + m.apparent_size <= u64::MAX
                && old(self).coverage.total_allocated_bytes + m.allocated_size <= u64::MAX,
        ensures
            final(self).wf(),
            final(self).session_id == old(self).session_id,
            final(self).requested_devices == old(self).requested_devices,
            final(self).collect_entries == old(self).collect_entries,
            final(self).coverage.is_complete == old(self).coverage.is_complete,
            match *metadata {
                Err(PlatformError::NotFound(_)) => {
                    &&& counters(final(self).coverage) == bump_vanished(old(self).coverage)
                    &&& final(self).coverage.skipped_scopes@.drop_last() == old(self).coverage.skipped_scopes@
                    &&& final(self).coverage.skipped_scopes@.len() == old(self).coverage.skipped_scopes@.len() + 1
                    &&& final(self).coverage.skipped_scopes@.last().reason == SkipReason::Vanished
                    &&& final(self).coverage.skipped_scopes@.last().path@ == entry_path@
                    &&& final(self).dir_stack == old(self).dir_stack
                    &&& final(self).seen_hardlinks == old(self).seen_hardlinks
                    &&& final(self).entries == old(self).entries
                    &&& v.entry is None && v.warning is None && v.progress is None
                },
                Err(PlatformError::PermissionDenied { reason, .. }) => {
                    &&& counters(final(self).coverage) == bump_permissions(old(self).coverage)
                    &&& final(self).coverage.skipped_scopes@.drop_last() == old(self).coverage.skipped_scopes@
                    &&& final(self).coverage.skipped_scopes@.len() == old(self).coverage.skipped_scopes@.len() + 1
                    &&& final(self).coverage.skipped_scopes@.last().reason == SkipReason::PermissionDenied(reason)
                    &&& final(self).dir_stack == old(self).dir_stack
                    &&& final(self).seen_hardlinks == old(self).seen_hardlinks
                    &&& final(self).entries == old(self).entries
                    &&& v.entry is None && v.progress is None
                    &&& v.warning matches Some(w) && w.warning_code@ == "permission_denied"@ && w.message == reason
                },
                Err(e) => {
                    &&& counters(final(self).coverage) == counters(old(self).coverage)
                    &&& final(self).coverage.skipped_scopes@.drop_last() == old(self).coverage.skipped_scopes@
                    &&& final(self).coverage.skipped_scopes@.len() == old(self).coverage.skipped_scopes@.len() + 1
                    &&& final(self).coverage.skipped_scopes@.last().reason matches SkipReason::IoError(m) && m@ == e.spec_message()
                    &&& final(self).dir_stack == old(self).dir_stack
                    &&& final(self).seen_hardlinks == old(self).seen_hardlinks
                    &&& final(self).entries == old(self).entries
                    &&& v.entry is None && v.warning is None && v.progress is None
                },
                Ok(m) => if crosses_boundary(root_device, old(self).requested_devices@, m) {
                    &&& counters(final(self).coverage) == bump_mounts(old(self).coverage)
                    &&& final(self).coverage.skipped_scopes@.drop_last() == old(self).coverage.skipped_scopes@
                    &&& final(self).coverage.skipped_scopes@.len() == old(self).coverage.skipped_scopes@.len() + 1
                    &&& final(self).coverage.skipped_scopes@.last().reason == (SkipReason::MountBoundary {
                        root_device,
                        path_device: m.identity.device_id,
                    })
                    &&& final(self).dir_stack == old(self).dir_stack
                    &&& final(self).seen_hardlinks == old(self).seen_hardlinks
                    &&& final(self).entries == old(self).entries
                    &&& v.entry is None && v.progress is None
                    &&& v.warning matches Some(w) && w.warning_code@ == "mount_boundary_skipped"@
                } else {
                    let counted = adds_bytes(old(self).seen_hardlinks@, m);
                    &&& final(self).coverage.skipped_scopes == old(self).coverage.skipped_scopes
                    &&& final(self).coverage.items_scanned == old(self).coverage.items_scanned + 1
                    &&& final(self).coverage.total_apparent_bytes == old(self).coverage.total_apparent_bytes
                        + if counted { m.apparent_size } else { 0 }
                    &&& final(self).coverage.total_allocated_bytes == old(self).coverage.total_allocated_bytes
                        + if counted { m.allocated_size } else { 0 }
                    &&& final(self).coverage.files_count == old(self).coverage.files_count
                        + if m.entry_type == EntryType::File { 1int } else { 0 }
                    &&& final(self).coverage.directories_count == old(self).coverage.directories_count
                        + if m.entry_type == EntryType::Directory { 1int } else { 0 }
                    &&& final(self).coverage.symlinks_count == old(self).coverage.symlinks_count
                        + if m.entry_type == EntryType::Symlink { 1int } else { 0 }
                    &&& final(self).coverage.skipped_permissions_count == old(self).coverage.skipped_permissions_count
                    &&& final(self).coverage.skipped_mount_boundaries_count == old(self).coverage.skipped_mount_boundaries_count
                    &&& final(self).coverage.skipped_vanished_count == old(self).coverage.skipped_vanished_count
                    &&& final(self).seen_hardlinks@ == seen_after(old(self).seen_hardlinks@, m)
                    &&& (m.entry_type == EntryType::Directory ==> final(self).dir_stack@.len() == old(self).dir_stack@.len() + 1
                        && final(self).dir_stack@.drop_last() == old(self).dir_stack@
                        && final(self).dir_stack@.last().0@ == entry_path@
                        && final(self).dir_stack@.last().1 == root_device)
                    &&& (m.entry_type != EntryType::Directory ==> final(self).dir_stack == old(self).dir_stack)
                    &&& v.warning is None
                    &&& v.entry matches Some(en) && en.original_path@ == entry_path@ && en.identity == m.identity
                        && en.entry_type == m.entry_type && en.apparent_size == m.apparent_size
                        && en.allocated_size == m.allocated_size && en.modified_ms == m.modified_ms
                        && (en.canonical_path@, en.normalized_path@) == crate::boundary::context::resolved_or(entry_path@, *resolved)
                    &&& (old(self).collect_entries ==> final(self).entries@ == old(self).entries@.push(v.entry->0))
                    &&& (!old(self).collect_entries ==> final(self).entries == old(self).entries)
                    &&& v.progress matches Some(p) && p.phase == ScanPhase::Scanning && p.current_scope@ == entry_path@
                        && p.items_visited == final(self).coverage.items_scanned
                        && p.bytes_visited == final(self).coverage.total_allocated_bytes
                        && p.session_id == old(self).session_id
                },
            },
    {
        let m = match metadata {
            Ok(m) => *m,
            Err(PlatformError::NotFound(_)) => {
                let ghost before = self.coverage.skipped_scopes@;
                self.coverage.skipped_vanished_count = self.coverage.skipped_vanished_count + 1;
                self.coverage.skipped_scopes.push(SkippedScope { path: owned(entry_path), reason: SkipReason::Vanished });
                assert(self.coverage.skipped_scopes@.drop_last() =~= before);
                return EntryVisit { warning: None, entry: None, progress: None };
            },
            Err(PlatformError::PermissionDenied { reason, .. }) => {
                let ghost before = self.coverage.skipped_scopes@;
                self.coverage.skipped_permissions_count = self.coverage.skipped_permissions_count + 1;
                self.coverage.skipped_scopes.push(
                    SkippedScope { path: owned(entry_path), reason: SkipReason::PermissionDenied(reason.clone()) },
                );
                assert(self.coverage.skipped_scopes@.drop_last() =~= before);
                let w = warning(&self.session_id, entry_path, "permission_denied", reason.clone());
                return EntryVisit { warning: Some(w), entry: None, progress: None };
            },
            Err(e) => {
                let ghost before = self.coverage.skipped_scopes@;
                self.coverage.skipped_scopes.push(
                    SkippedScope { path: owned(entry_path), reason: SkipReason::IoError(e.message()) },
                );
                assert(self.coverage.skipped_scopes@.drop_last() =~= before);
                return EntryVisit { warning: None, entry: None, progress: None };
            },
        };
        if root_device != 0 && m.identity.device_id != root_device && !self.requested_devices.contains(&m.identity.device_id) {
            let ghost before = self.coverage.skipped_scopes@;
            self.coverage.skipped_mount_boundaries_count = self.coverage.skipped_mount_boundaries_count + 1;
            self.coverage.skipped_scopes.push(
                SkippedScope {
                    path: owned(entry_path),
                    reason: SkipReason::MountBoundary { root_device, path_device: m.identity.device_id },
                },
            );
            assert(self.coverage.skipped_scopes@.drop_last() =~= before);
            let a = concat3("Mount boundary crossed from root device ", u64_to_decimal(root_device).as_str(), " to ");
            let text = concat3(a.as_str(), u64_to_decimal(m.identity.device_id).as_str(), ". Scope skipped.");
            let w = warning(&self.session_id, entry_path, "mount_boundary_skipped", text);
            return EntryVisit { warning: Some(w), entry: None, progress: None };
        }
        let (canonical, normalized) = match resolved {
            Ok(r) => (r.canonical.clone(), r.normalized.clone()),
            Err(_) => (owned(entry_path), owned(entry_path)),
        };
        self.coverage.items_scanned = self.coverage.items_scanned + 1;
        let ghost seen_before = self.seen_hardlinks@;
        match m.entry_type {
            EntryType::Directory => {
                self.coverage.directories_count = self.coverage.directories_count + 1;
                let ghost before = self.dir_stack@;
                self.dir_stack.push((owned(entry_path), root_device));
                assert(self.dir_stack@.drop_last() =~= before);
            },
            EntryType::Symlink => {
                self.coverage.symlinks_count = self.coverage.symlinks_count + 1;
                self.coverage.total_apparent_bytes = self.coverage.total_apparent_bytes + m.apparent_size;
                self.coverage.total_allocated_bytes = self.coverage.total_allocated_bytes + m.allocated_size;
            },
            EntryType::File => {
                self.coverage.files_count = self.coverage.files_count + 1;
                let already = if m.nlink > 1 {
                    if contains_identity(&self.seen_hardlinks, m.identity) {
                        true
                    } else {
                        self.seen_hardlinks.push(m.identity);
                        proof {
                            assert forall|a: int, b: int| 0 <= a < b < self.seen_hardlinks@.len() implies
                                self.seen_hardlinks@[a] != self.seen_hardlinks@[b] by {
                                if b == self.seen_hardlinks@.len() - 1 {
                                    assert(seen_before[a] == self.seen_hardlinks@[a]);
                                }
                            }
                        }
                        false
                    }
                } else {
                    false
                };
                if !already {
                    self.coverage.total_apparent_bytes = self.coverage.total_apparent_bytes + m.apparent_size;
                    self.coverage.total_allocated_bytes = self.coverage.total_allocated_bytes + m.allocated_size;
                }
            },
            EntryType::Other => {
                self.coverage.total_apparent_bytes = self.coverage.total_apparent_bytes + m.apparent_size;
                self.coverage.total_allocated_bytes = self.coverage.total_allocated_bytes + m.allocated_size;
            },
        }
        let entry = ScannedEntry {
            original_path: owned(entry_path),
            canonical_path: canonical,
            normalized_path: normalized,
            identity: m.identity,
            entry_type: m.entry_type,
            apparent_size: m.apparent_size,
            allocated_size: m.allocated_size,
            modified_ms: m.modified_ms,
        };
        let ghost kept = entry;
        self.tracker.track_alloc();
        if self.collect_entries {
            self.entries.push(
                ScannedEntry {
                    original_path: entry.original_path.clone(),
                    canonical_path: entry.canonical_path.clone(),
                    normalized_path: entry.normalized_path.clone(),
                    identity: entry.identity,
                    entry_type: entry.entry_type,
                    apparent_size: entry.apparent_size,
                    allocated_size: entry.allocated_size,
                    modified_ms: entry.modified_ms,
                },
            );
            self.tracker.track_retained();
        }
        self.tracker.track_dealloc();
        let progress = ScanProgressPayload {
            session_id: self.session_id.clone(),
            phase: ScanPhase::Scanning,
            current_scope: owned(entry_path),
            items_visited: self.coverage.items_scanned,
            bytes_visited: self.coverage.total_allocated_bytes,
        };
        EntryVisit { warning: None, entry: Some(entry), progress: Some(progress) }
    }

    /// Ends the walk; it is complete exactly when it was not cancelled.
    pub fn finish(self, cancelled: bool) -> (r: TraversalResult)
        ensures
            r.session_id == self.session_id,
            counters(r.coverage) == counters(self.coverage),
            r.coverage.skipped_scopes == self.coverage.skipped_scopes,
            r.coverage.is_complete == !cancelled,
            r.entries == self.entries,
    {
        let mut coverage = self.coverage;
        coverage.is_complete = !cancelled;
        TraversalResult { session_id: self.session_id, coverage, entries: self.entries }
    }
}

/// Memory stays flat when entries are not collected: whatever the number of entries
/// walked, at most one record was ever held, none is held between entries, and nothing
/// is retained.
pub proof fn law_walk_memory_stays_flat(t: Traversal)
    requires
        t.wf(),
        !t.collect_entries,
    ensures
        t.tracker.spec_peak() <= 1,
        t.tracker.spec_peak() == 1 <==> t.coverage.items_scanned > 0,
        t.tracker.spec_live() == 0,
        t.tracker.spec_retained() == 0,
        t.entries@.len() == 0,
{
}

/// A collecting walk keeps one entry per item scanned, and held at most one record more
/// than it keeps.
pub proof fn law_collected_entries_match_items(t: Traversal)
    requires
        t.wf(),
        t.collect_entries,
    ensures
        t.entries@.len() == t.coverage.items_scanned,
        t.tracker.spec_peak() <= t.entries@.len() + 1,
        t.tracker.spec_live() == 0,
{
}

/// Hardlinks contribute their bytes exactly once: after a multiply-linked file is
/// visited, another link to the same file counts no bytes.
pub proof fn law_hardlink_counted_once(seen: Seq<FileIdentity>, first: EntryMetadata, second: EntryMetadata)
    requires
        first.entry_type == EntryType::File,
        first.nlink > 1,
        second.entry_type == EntryType::File,
        second.identity == first.identity,
    ensures
        !counts_bytes(seen_after(seen, first), second) || second.nlink <= 1,
{
    if !seen.contains(first.identity) {
        assert(seen.push(first.identity)[seen.len() as int] == first.identity);
    }
}

/// A symbolic link is never followed: it is counted with its own size and adds nothing to
/// the directories still to walk.
pub proof fn law_symlink_counts_itself(seen: Seq<FileIdentity>, m: EntryMetadata)
    requires
        m.entry_type == EntryType::Symlink,
    ensures
        adds_bytes(seen, m),
        seen_after(seen, m) == seen,
{
}

} // verus!
