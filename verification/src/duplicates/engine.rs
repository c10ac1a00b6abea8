//! Staged duplicate detection: candidate screening, grouping by size, by fingerprint and by
//! full digest, and the assembly of confirmed groups.

use vstd::prelude::*;
use crate::boundary::cancellation::CancellationToken;
use crate::duplicates::detect::{exclusion_reported, is_excluded_path, storage_sharing, detect_storage_sharing, CandidateFile};
use crate::duplicates::model::{law_new_group_keeps_invariants, unmarked, DuplicateGroup, DuplicateItem, RetainedRule, StorageSharingKind};
use crate::duplicates::order::{sort_for_retained, sorted_for};
use crate::platform::{EntryMetadata, EntryType, PlatformAdapter, PlatformError, ResolvedPath};
use crate::text::{concat2, concat3, decimal, push_char, str_eq, u64_to_decimal};
use crate::classify::class::SafetyClass;

verus! {

/// Execution options for duplicate detection.
#[derive(Debug, Clone)]
pub struct DuplicateDetectionOptions {
    pub retained_rule: RetainedRule,
    pub cancellation_token: CancellationToken,
}

impl Default for DuplicateDetectionOptions {
    fn default() -> (o: Self)
        ensures
            o.retained_rule == RetainedRule::OldestByModified,
    {
        DuplicateDetectionOptions {
            retained_rule: RetainedRule::OldestByModified,
            cancellation_token: CancellationToken::new(),
        }
    }
}

/// Counts recorded during staged duplicate detection.
#[derive(Debug, Clone, Copy, PartialEq, Eq, Structural)]
pub struct DuplicateDetectionMetrics {
    pub total_candidates_inspected: usize,
    pub excluded_protected_or_git_count: usize,
    pub files_entering_size_grouping: usize,
    pub size_groups_count: usize,
    pub files_eliminated_by_unique_size: usize,
    pub fingerprints_computed: usize,
    pub files_eliminated_by_fingerprint: usize,
    pub full_hashes_computed: usize,
    pub files_eliminated_by_full_hash: usize,
    pub confirmed_duplicate_groups: usize,
    pub confirmed_duplicate_files: usize,
}

pub open spec fn zero_metrics() -> DuplicateDetectionMetrics {
    DuplicateDetectionMetrics {
        total_candidates_inspected: 0,
        excluded_protected_or_git_count: 0,
        files_entering_size_grouping: 0,
        size_groups_count: 0,
        files_eliminated_by_unique_size: 0,
        fingerprints_computed: 0,
        files_eliminated_by_fingerprint: 0,
        full_hashes_computed: 0,
        files_eliminated_by_full_hash: 0,
        confirmed_duplicate_groups: 0,
        confirmed_duplicate_files: 0,
    }
}

impl Default for DuplicateDetectionMetrics {
    fn default() -> (m: Self)
        ensures
            m == zero_metrics(),
    {
        DuplicateDetectionMetrics {
            total_candidates_inspected: 0,
            excluded_protected_or_git_count: 0,
            files_entering_size_grouping: 0,
            size_groups_count: 0,
            files_eliminated_by_unique_size: 0,
            fingerprints_computed: 0,
            files_eliminated_by_fingerprint: 0,
            full_hashes_computed: 0,
            files_eliminated_by_full_hash: 0,
            confirmed_duplicate_groups: 0,
            confirmed_duplicate_files: 0,
        }
    }
}

// ---------------------------------------------------------------------------
// Screening
// ---------------------------------------------------------------------------

/// Only regular files with content take part: a zero-byte file has nothing to duplicate.
pub open spec fn is_content_file(meta: EntryMetadata) -> bool {
    meta.entry_type == EntryType::File && meta.apparent_size > 0
}

/// The candidate record for an admitted path.
pub open spec fn candidate_of(path: Seq<char>, meta: EntryMetadata, resolved: ResolvedPath) -> (
    CandidateFile,
) {
    (
        CandidateFile {
            path: arbitrary_with_view(path),
            canonical_path: resolved.canonical,
            normalized_path: resolved.normalized,
            identity: meta.identity,
            size_bytes: meta.apparent_size,
            modified_ms: meta.modified_ms,
        },
    )
}

/// A string whose characters are `s`.
pub open spec fn arbitrary_with_view(s: Seq<char>) -> String {
    choose|x: String| x@ == s
}

/// The candidate `c` records `path` with the reported metadata and resolution.
pub open spec fn records(c: CandidateFile, path: Seq<char>, meta: EntryMetadata, resolved: ResolvedPath) -> bool {
    &&& c.path@ == path
    &&& c.canonical_path == resolved.canonical
    &&& c.normalized_path == resolved.normalized
    &&& c.identity == meta.identity
    &&& c.size_bytes == meta.apparent_size
    &&& c.modified_ms == meta.modified_ms
}

/// Whether the reported metadata describes a regular file with content.
pub fn is_content_file_exec(meta: &EntryMetadata) -> (b: bool)
    ensures
        b == is_content_file(*meta),
{
    meta.entry_type == EntryType::File && meta.apparent_size > 0
}

/// The candidate record for a path from its metadata and resolution.
pub fn admit_candidate(path: &str, meta: &EntryMetadata, resolved: &ResolvedPath) -> (c: CandidateFile)
    ensures
        records(c, path@, *meta, *resolved),
{
    CandidateFile {
        path: crate::text::owned(path),
        canonical_path: resolved.canonical.clone(),
        normalized_path: resolved.normalized.clone(),
        identity: meta.identity,
        size_bytes: meta.apparent_size,
        modified_ms: meta.modified_ms,
    }
}

/// What screening observed of one path: its metadata, whether it was excluded (asked only
/// of a content file), and its resolution (asked only of a content file kept).
pub type ScreenObservation = (Result<EntryMetadata, PlatformError>, bool, Result<ResolvedPath, PlatformError>);

/// The observation's metadata is that of a content file.
pub open spec fn reads_content(o: ScreenObservation) -> bool {
    o.0 matches Ok(m) && is_content_file(m)
}

/// The observation admits the path: its metadata is that of a content file, it was not
/// excluded, and it resolved.
pub open spec fn admits(o: ScreenObservation) -> bool {
    &&& reads_content(o)
    &&& !o.1
    &&& o.2 is Ok
}

/// The observation reads as a content file that was excluded.
pub open spec fn counts_excluded(o: ScreenObservation) -> bool {
    &&& reads_content(o)
    &&& o.1
}

/// The path, metadata and resolution of each of the first `n` paths that its observation
/// admits, in input order.
pub open spec fn screened(paths: Seq<String>, obs: Seq<ScreenObservation>, n: nat) -> Seq<
    (Seq<char>, EntryMetadata, ResolvedPath),
>
    decreases n,
{
    if n == 0 {
        Seq::empty()
    } else {
        let prev = screened(paths, obs, (n - 1) as nat);
        let o = obs[n - 1];
        if admits(o) {
            prev.push((paths[n - 1]@, o.0->Ok_0, o.2->Ok_0))
        } else {
            prev
        }
    }
}

/// How many of the first `n` observations read as a content file that was excluded.
pub open spec fn excluded_count(obs: Seq<ScreenObservation>, n: nat) -> nat
    decreases n,
{
    if n == 0 {
        0
    } else {
        excluded_count(obs, (n - 1) as nat) + if counts_excluded(obs[n - 1]) {
            1nat
        } else {
            0nat
        }
    }
}

/// Observation `o` is what screening learned of `path` through `adapter`: the metadata
/// the adapter reported for the path; for a content file, the exclusion decided for it;
/// for a content file kept, the resolution the adapter reported for the path.
pub open spec fn observed_through<A: PlatformAdapter>(adapter: &A, path: Seq<char>, git_marker: bool, o: ScreenObservation) -> bool {
    &&& adapter.reports_metadata(path, o.0)
    &&& reads_content(o) ==> exclusion_reported(adapter, path, git_marker, o.1)
    &&& reads_content(o) && !o.1 ==> adapter.reports_resolution(path, o.2)
}

/// Observations that screening of `paths` made through `adapter`, one per path.
pub open spec fn screening_observations<A: PlatformAdapter>(
    adapter: &A,
    paths: Seq<String>,
    git_markers: Seq<bool>,
    obs: Seq<ScreenObservation>,
) -> bool {
    &&& obs.len() == paths.len()
    &&& forall|i: int| 0 <= i < obs.len() ==> observed_through(adapter, paths[i]@, git_markers[i], #[trigger] obs[i])
}

/// The screening stage: every path whose metadata reads as a regular file with content,
/// that is not excluded, and whose path resolves, becomes a candidate, in input order.
/// `git_markers[i]` tells whether an ancestor of `file_paths[i]` holds a `.git` entry.
/// Returns `None` when cancellation is observed.
pub fn collect_candidates<A: PlatformAdapter>(
    file_paths: &[String],
    git_markers: &[bool],
    adapter: &A,
    cancel: &CancellationToken,
    metrics: &mut DuplicateDetectionMetrics,
) -> (r: Option<Vec<CandidateFile>>)
    requires
        file_paths@.len() == git_markers@.len(),
        old(metrics).excluded_protected_or_git_count + file_paths@.len() <= usize::MAX,
    ensures
        final(metrics).total_candidates_inspected == file_paths@.len(),
        final(metrics).excluded_protected_or_git_count <= old(metrics).excluded_protected_or_git_count
            + file_paths@.len(),
        r matches Some(cs) ==> cs@.len() <= file_paths@.len() && forall|k: int|
            0 <= k < cs@.len() ==> (#[trigger] cs@[k]).size_bytes > 0 && exists|i: int|
                0 <= i < file_paths@.len() && cs@[k].path@ == file_paths@[i]@,
        r matches Some(cs) ==> exists|obs: Seq<ScreenObservation>|
            #[trigger] screening_observations(adapter, file_paths@, git_markers@, obs) && {
                let admitted = screened(file_paths@, obs, file_paths@.len() as nat);
                &&& cs@.len() == admitted.len()
                &&& forall|k: int|
                    0 <= k < cs@.len() ==> records(#[trigger] cs@[k], admitted[k].0, admitted[k].1, admitted[k].2)
                &&& final(metrics).excluded_protected_or_git_count == old(metrics).excluded_protected_or_git_count
                    + excluded_count(obs, file_paths@.len() as nat)
            },
{
    metrics.total_candidates_inspected = file_paths.len();
    let ghost start_excluded = metrics.excluded_protected_or_git_count;
    let ghost mut obs: Seq<ScreenObservation> = Seq::empty();
    let mut out: Vec<CandidateFile> = Vec::new();
    let mut i: usize = 0;
    while i < file_paths.len()
        invariant
            file_paths@.len() == git_markers@.len(),
            i <= file_paths@.len(),
            out@.len() <= i,
            metrics.total_candidates_inspected == file_paths@.len(),
            start_excluded + file_paths@.len() <= usize::MAX,
            start_excluded == old(metrics).excluded_protected_or_git_count,
            start_excluded <= metrics.excluded_protected_or_git_count <= start_excluded + i,
            forall|k: int|
                0 <= k < out@.len() ==> (#[trigger] out@[k]).size_bytes > 0 && exists|j: int|
                    0 <= j < file_paths@.len() && out@[k].path@ == file_paths@[j]@,
            obs.len() == i,
            forall|j: int|
                0 <= j < obs.len() ==> observed_through(adapter, file_paths@[j]@, git_markers@[j], #[trigger] obs[j]),
            out@.len() == screened(file_paths@, obs, i as nat).len(),
            forall|k: int|
                0 <= k < out@.len() ==> records(
                    #[trigger] out@[k],
                    screened(file_paths@, obs, i as nat)[k].0,
                    screened(file_paths@, obs, i as nat)[k].1,
                    screened(file_paths@, obs, i as nat)[k].2,
                ),
            metrics.excluded_protected_or_git_count == start_excluded + excluded_count(obs, i as nat),
        decreases file_paths@.len() - i,
    {
        if cancel.is_cancelled() {
            return None;
        }
        let path = file_paths[i].as_str();
        let metadata = adapter.read_entry_metadata(path);
        let meta = match metadata {
            Ok(m) => m,
            Err(e) => {
                proof {
                    let before = obs;
                    obs = obs.push((Err(e), false, Err(e)));
                    lemma_screened_agree(file_paths@, before, obs, i as nat);
                }
                i = i + 1;
                continue;
            },
        };
        if !is_content_file_exec(&meta) {
            proof {
                let before = obs;
                obs = obs.push((Ok(meta), false, Err(PlatformError::Io(arbitrary()))));
                lemma_screened_agree(file_paths@, before, obs, i as nat);
            }
            i = i + 1;
            continue;
        }
        let excluded = is_excluded_path(path, adapter, git_markers[i]);
        if excluded {
            metrics.excluded_protected_or_git_count = metrics.excluded_protected_or_git_count + 1;
            proof {
                let before = obs;
                obs = obs.push((Ok(meta), true, Err(PlatformError::Io(arbitrary()))));
                lemma_screened_agree(file_paths@, before, obs, i as nat);
            }
            i = i + 1;
            continue;
        }
        let resolved = adapter.canonicalize_and_normalize(path);
        let res = match resolved {
            Ok(r) => r,
            Err(e) => {
                proof {
                    let before = obs;
                    obs = obs.push((Ok(meta), false, Err(e)));
                    lemma_screened_agree(file_paths@, before, obs, i as nat);
                }
                i = i + 1;
                continue;
            },
        };
        let c = admit_candidate(path, &meta, &res);
        assert(c.path@ == file_paths@[i as int]@);
        proof {
            let before = obs;
            obs = obs.push((Ok(meta), false, Ok(res)));
            lemma_screened_agree(file_paths@, before, obs, i as nat);
        }
        out.push(c);
        i = i + 1;
    }
    proof {
        assert(screening_observations(adapter, file_paths@, git_markers@, obs));
    }
    Some(out)
}

/// Screening and the exclusion count of the first `n` paths depend only on the first `n`
/// observations.
proof fn lemma_screened_agree(paths: Seq<String>, a: Seq<ScreenObservation>, b: Seq<ScreenObservation>, n: nat)
    requires
        n <= a.len(),
        n <= b.len(),
        forall|j: int| 0 <= j < n ==> a[j] == b[j],
    ensures
        screened(paths, a, n) == screened(paths, b, n),
        excluded_count(a, n) == excluded_count(b, n),
    decreases n,
{
    if n > 0 {
        lemma_screened_agree(paths, a, b, (n - 1) as nat);
    }
}

// ---------------------------------------------------------------------------
// Grouping by key
// ---------------------------------------------------------------------------

/// The first group, from position `i` on, whose key is `k`.
pub open spec fn find_key(keys: Seq<Seq<u64>>, k: Seq<u64>, i: int) -> Option<int>
    decreases keys.len() - i,
{
    if i < 0 || i >= keys.len() {
        None
    } else if keys[i] == k {
        Some(i)
    } else {
        find_key(keys, k, i + 1)
    }
}

/// The groups formed by the first `n` items: items with equal keys share a group, in input
/// order; groups appear in the order of their first item; items without a key (a file that
/// could not be read) are left out.
pub open spec fn grouped(keys: Seq<Option<Seq<u64>>>, items: Seq<CandidateFile>, n: nat) -> (
    Seq<Seq<u64>>,
    Seq<Seq<CandidateFile>>,
)
    decreases n,
{
    if n == 0 {
        (Seq::empty(), Seq::empty())
    } else {
        let prev = grouped(keys, items, (n - 1) as nat);
        match keys[n - 1] {
            None => prev,
            Some(k) => match find_key(prev.0, k, 0) {
                Some(g) => (prev.0, prev.1.update(g, prev.1[g].push(items[n - 1]))),
                None => (prev.0.push(k), prev.1.push(seq![items[n - 1]])),
            },
        }
    }
}

/// The groups that hold at least two items, in order.
pub open spec fn survivors(groups: Seq<Seq<CandidateFile>>) -> Seq<Seq<CandidateFile>>
    decreases groups.len(),
{
    if groups.len() == 0 {
        Seq::empty()
    } else if groups.last().len() >= 2 {
        survivors(groups.drop_last()).push(groups.last())
    } else {
        survivors(groups.drop_last())
    }
}

/// The keys of the groups that hold at least two items, in order.
pub open spec fn survivor_keys(keys: Seq<Seq<u64>>, groups: Seq<Seq<CandidateFile>>) -> Seq<Seq<u64>>
    decreases groups.len(),
{
    if groups.len() == 0 || keys.len() != groups.len() {
        Seq::empty()
    } else if groups.last().len() >= 2 {
        survivor_keys(keys.drop_last(), groups.drop_last()).push(keys.last())
    } else {
        survivor_keys(keys.drop_last(), groups.drop_last())
    }
}

/// The number of items in groups of fewer than two.
pub open spec fn eliminated(groups: Seq<Seq<CandidateFile>>) -> nat
    decreases groups.len(),
{
    if groups.len() == 0 {
        0
    } else {
        eliminated(groups.drop_last()) + if groups.last().len() < 2 {
            groups.last().len()
        } else {
            0
        }
    }
}

/// The number of items over all groups.
pub open spec fn total_len(groups: Seq<Seq<CandidateFile>>) -> nat
    decreases groups.len(),
{
    if groups.len() == 0 {
        0
    } else {
        total_len(groups.drop_last()) + groups.last().len()
    }
}

proof fn lemma_total_len_push(s: Seq<Seq<CandidateFile>>, x: Seq<CandidateFile>)
    ensures
        total_len(s.push(x)) == total_len(s) + x.len(),
{
    assert(s.push(x).drop_last() =~= s);
}

proof fn lemma_total_len_update(s: Seq<Seq<CandidateFile>>, g: int, v: Seq<CandidateFile>)
    requires
        0 <= g < s.len(),
    ensures
        total_len(s.update(g, v)) + s[g].len() == total_len(s) + v.len(),
    decreases s.len(),
{
    if g == s.len() - 1 {
        assert(s.update(g, v).drop_last() =~= s.drop_last());
    } else {
        lemma_total_len_update(s.drop_last(), g, v);
        assert(s.update(g, v).drop_last() =~= s.drop_last().update(g, v));
    }
}

proof fn lemma_eliminated_le_total(s: Seq<Seq<CandidateFile>>)
    ensures
        eliminated(s) <= total_len(s),
    decreases s.len(),
{
    if s.len() > 0 {
        lemma_eliminated_le_total(s.drop_last());
    }
}

proof fn lemma_total_len_prefix(s: Seq<Seq<CandidateFile>>, g: int)
    requires
        0 <= g <= s.len(),
    ensures
        total_len(s.subrange(0, g)) <= total_len(s),
    decreases s.len(),
{
    if g == s.len() {
        assert(s.subrange(0, g) =~= s);
    } else {
        lemma_total_len_prefix(s.drop_last(), g);
        assert(s.drop_last().subrange(0, g) =~= s.subrange(0, g));
    }
}

pub open spec fn deep(v: Seq<Vec<CandidateFile>>) -> Seq<Seq<CandidateFile>> {
    v.map_values(|g: Vec<CandidateFile>| g@)
}

pub open spec fn deep_keys(v: Seq<Vec<u64>>) -> Seq<Seq<u64>> {
    v.map_values(|g: Vec<u64>| g@)
}

pub open spec fn opt_keys(v: Seq<Option<Vec<u64>>>) -> Seq<Option<Seq<u64>>> {
    v.map_values(
        |o: Option<Vec<u64>>|
            match o {
                Some(k) => Some(k@),
                None => None,
            },
    )
}

fn keys_equal(a: &Vec<u64>, b: &Vec<u64>) -> (r: bool)
    ensures
        r == (a@ == b@),
{
    if a.len() != b.len() {
        return false;
    }
    let mut i: usize = 0;
    while i < a.len()
        invariant
            a@.len() == b@.len(),
            i <= a@.len(),
            forall|j: int| 0 <= j < i ==> a@[j] == b@[j],
        decreases a@.len() - i,
    {
        if a[i] != b[i] {
            return false;
        }
        i = i + 1;
    }
    assert(a@ =~= b@);
    true
}

fn find_key_exec(keys: &Vec<Vec<u64>>, k: &Vec<u64>) -> (r: Option<usize>)
    ensures
        match r {
            Some(g) => find_key(deep_keys(keys@), k@, 0) == Some(g as int) && g < keys@.len(),
            None => find_key(deep_keys(keys@), k@, 0) is None,
        },
{
    let mut i: usize = 0;
    while i < keys.len()
        invariant
            i <= keys@.len(),
            find_key(deep_keys(keys@), k@, 0) == find_key(deep_keys(keys@), k@, i as int),
        decreases keys@.len() - i,
    {
        if keys_equal(&keys[i], k) {
            return Some(i);
        }
        i = i + 1;
    }
    None
}

/// Groups `items` by `keys` (one key per item; `None` drops the item) and keeps the groups
/// of two or more. Also returns how many keyed items were in groups of one.
pub fn group_by_key(items: &Vec<CandidateFile>, keys: &Vec<Option<Vec<u64>>>) -> (r: (
    Vec<Vec<CandidateFile>>,
    Vec<Vec<u64>>,
    usize,
))
    requires
        items@.len() == keys@.len(),
    ensures
        deep(r.0@) == survivors(grouped(opt_keys(keys@), items@, items@.len() as nat).1),
        deep_keys(r.1@) == survivor_keys(
            grouped(opt_keys(keys@), items@, items@.len() as nat).0,
            grouped(opt_keys(keys@), items@, items@.len() as nat).1,
        ),
        r.2 == eliminated(grouped(opt_keys(keys@), items@, items@.len() as nat).1),
        r.2 <= items@.len(),
{
    let ghost ks = opt_keys(keys@);
    let mut gk: Vec<Vec<u64>> = Vec::new();
    let mut gm: Vec<Vec<CandidateFile>> = Vec::new();
    let mut i: usize = 0;
    while i < items.len()
        invariant
            items@.len() == keys@.len(),
            ks == opt_keys(keys@),
            i <= items@.len(),
            gk@.len() == gm@.len(),
            (deep_keys(gk@), deep(gm@)) == grouped(ks, items@, i as nat),
            total_len(deep(gm@)) <= i,
        decreases items@.len() - i,
    {
        let ghost prev_k = gk@;
        let ghost prev_m = gm@;
        match &keys[i] {
            None => {},
            Some(k) => {
                match find_key_exec(&gk, k) {
                    Some(g) => {
                        let item = items[i].duplicate();
                        gm[g].push(item);
                        assert(deep(gm@) =~= deep(prev_m).update(
                            g as int,
                            deep(prev_m)[g as int].push(items@[i as int]),
                        ));
                        proof {
                            lemma_total_len_update(
                                deep(prev_m),
                                g as int,
                                deep(prev_m)[g as int].push(items@[i as int]),
                            );
                        }
                    },
                    None => {
                        let item = items[i].duplicate();
                        let mut v: Vec<CandidateFile> = Vec::new();
                        v.push(item);
                        gk.push(k.clone());
                        gm.push(v);
                        assert(deep(gm@) =~= deep(prev_m).push(seq![items@[i as int]]));
                        proof {
                            lemma_total_len_push(deep(prev_m), seq![items@[i as int]]);
                        }
                        assert(deep_keys(gk@) =~= deep_keys(prev_k).push(k@));
                    },
                }
            },
        }
        i = i + 1;
    }
    let n_items = items.len();
    let mut out: Vec<Vec<CandidateFile>> = Vec::new();
    let mut out_keys: Vec<Vec<u64>> = Vec::new();
    let mut dropped: usize = 0;
    let ghost all = deep(gm@);
    let ghost all_keys = deep_keys(gk@);
    let mut g: usize = 0;
    while g < gm.len()
        invariant
            gm@.len() == all.len(),
            gk@.len() == all.len(),
            all_keys.len() == all.len(),
            g <= gm@.len(),
            forall|j: int| g <= j < gm@.len() ==> (#[trigger] gm@[j])@ == all[j],
            forall|j: int| g <= j < gk@.len() ==> (#[trigger] gk@[j])@ == all_keys[j],
            total_len(all) <= n_items,
            deep(out@) == survivors(all.subrange(0, g as int)),
            deep_keys(out_keys@) == survivor_keys(all_keys.subrange(0, g as int), all.subrange(0, g as int)),
            dropped == eliminated(all.subrange(0, g as int)),
        decreases gm@.len() - g,
    {
        let mut taken: Vec<CandidateFile> = Vec::new();
        std::mem::swap(&mut taken, &mut gm[g]);
        assert(taken@ == all[g as int]);
        let ghost prefix = all.subrange(0, g as int);
        assert(all.subrange(0, g + 1).drop_last() =~= prefix);
        assert(all.subrange(0, g + 1) =~= prefix.push(all[g as int]));
        let mut taken_key: Vec<u64> = Vec::new();
        std::mem::swap(&mut taken_key, &mut gk[g]);
        assert(all_keys.subrange(0, g + 1).drop_last() =~= all_keys.subrange(0, g as int));
        assert(all_keys.subrange(0, g + 1).last() == taken_key@);
        if taken.len() >= 2 {
            let ghost before = out@;
            let ghost before_keys = out_keys@;
            out.push(taken);
            out_keys.push(taken_key);
            assert(deep(out@) =~= deep(before).push(all[g as int]));
            assert(deep_keys(out_keys@) =~= deep_keys(before_keys).push(all_keys[g as int]));
        } else {
            proof {
                lemma_eliminated_le_total(all.subrange(0, g + 1));
                lemma_total_len_prefix(all, g + 1);
                assert(all.subrange(0, g + 1).last() == taken@);
                assert(eliminated(all.subrange(0, g + 1)) == dropped + taken@.len());
            }
            dropped = dropped + taken.len();
        }
        g = g + 1;
    }
    assert(all.subrange(0, all.len() as int) =~= all);
    assert(all_keys.subrange(0, all_keys.len() as int) =~= all_keys);
    proof {
        lemma_eliminated_le_total(all);
    }
    (out, out_keys, dropped)
}


// ---------------------------------------------------------------------------
// The three grouping stages
// ---------------------------------------------------------------------------

/// Every candidate keyed by its size.
pub open spec fn size_keys(cs: Seq<CandidateFile>) -> Seq<Option<Seq<u64>>> {
    cs.map_values(|c: CandidateFile| Some(seq![c.size_bytes]))
}

/// Every readable file keyed by its digest; an unreadable one has no key.
pub open spec fn digest_keys(ds: Seq<Option<[u8; 32]>>) -> Seq<Option<Seq<u64>>> {
    ds.map_values(
        |o: Option<[u8; 32]>|
            match o {
                Some(d) => Some(d@.map_values(|b: u8| b as u64)),
                None => None,
            },
    )
}

/// How many digests were computed.
pub open spec fn count_some(ds: Seq<Option<[u8; 32]>>) -> nat
    decreases ds.len(),
{
    if ds.len() == 0 {
        0
    } else {
        count_some(ds.drop_last()) + if ds.last() is Some {
            1nat
        } else {
            0nat
        }
    }
}

fn size_keys_exec(cs: &Vec<CandidateFile>) -> (k: Vec<Option<Vec<u64>>>)
    ensures
        opt_keys(k@) == size_keys(cs@),
        k@.len() == cs@.len(),
{
    let mut k: Vec<Option<Vec<u64>>> = Vec::new();
    let mut i: usize = 0;
    while i < cs.len()
        invariant
            i <= cs@.len(),
            k@.len() == i,
            forall|j: int| 0 <= j < i ==> (#[trigger] k@[j]) is Some && k@[j]->0@ == seq![cs@[j].size_bytes],
        decreases cs@.len() - i,
    {
        let mut one: Vec<u64> = Vec::new();
        one.push(cs[i].size_bytes);
        assert(one@ =~= seq![cs@[i as int].size_bytes]);
        k.push(Some(one));
        i = i + 1;
    }
    assert(opt_keys(k@) =~= size_keys(cs@));
    k
}

fn digest_keys_exec(ds: &Vec<Option<[u8; 32]>>) -> (r: (Vec<Option<Vec<u64>>>, usize))
    ensures
        opt_keys(r.0@) == digest_keys(ds@),
        r.0@.len() == ds@.len(),
        r.1 == count_some(ds@),
        r.1 <= ds@.len(),
{
    let mut k: Vec<Option<Vec<u64>>> = Vec::new();
    let mut computed: usize = 0;
    let mut i: usize = 0;
    while i < ds.len()
        invariant
            i <= ds@.len(),
            k@.len() == i,
            forall|j: int| 0 <= j < i ==> (#[trigger] opt_keys(k@)[j]) == digest_keys(ds@)[j],
            computed == count_some(ds@.subrange(0, i as int)),
            computed <= i,
        decreases ds@.len() - i,
    {
        assert(ds@.subrange(0, i + 1).drop_last() =~= ds@.subrange(0, i as int));
        let ghost before = k@;
        match &ds[i] {
            Some(d) => {
                let mut key: Vec<u64> = Vec::new();
                let mut j: usize = 0;
                while j < 32
                    invariant
                        j <= 32,
                        d@.len() == 32,
                        key@ == d@.subrange(0, j as int).map_values(|b: u8| b as u64),
                    decreases 32 - j,
                {
                    key.push(d[j] as u64);
                    j = j + 1;
                    assert(key@ =~= d@.subrange(0, j as int).map_values(|b: u8| b as u64));
                }
                assert(d@.subrange(0, 32) =~= d@);
                k.push(Some(key));
                computed = computed + 1;
            },
            None => {
                k.push(None);
            },
        }
        assert forall|j: int| 0 <= j < i + 1 implies (#[trigger] opt_keys(k@)[j]) == digest_keys(ds@)[j] by {
            if j < i {
                assert(k@[j] == before[j]);
                assert(opt_keys(before)[j] == digest_keys(ds@)[j]);
            }
        }
        i = i + 1;
    }
    assert(ds@.subrange(0, ds@.len() as int) =~= ds@);
    assert(opt_keys(k@) =~= digest_keys(ds@));
    (k, computed)
}

/// Stage one: candidates grouped by size; groups of one are eliminated.
pub fn size_stage(candidates: &Vec<CandidateFile>, metrics: &mut DuplicateDetectionMetrics) -> (groups: Vec<Vec<CandidateFile>>)
    requires
        old(metrics).files_eliminated_by_unique_size + candidates@.len() <= usize::MAX,
    ensures
        deep(groups@) == survivors(grouped(size_keys(candidates@), candidates@, candidates@.len() as nat).1),
        *final(metrics) == (DuplicateDetectionMetrics {
            files_entering_size_grouping: candidates@.len() as usize,
            size_groups_count: groups@.len() as usize,
            files_eliminated_by_unique_size: (old(metrics).files_eliminated_by_unique_size + eliminated(
                grouped(size_keys(candidates@), candidates@, candidates@.len() as nat).1,
            )) as usize,
            ..*old(metrics)
        }),
{
    metrics.files_entering_size_grouping = candidates.len();
    let keys = size_keys_exec(candidates);
    let (groups, _keys, dropped) = group_by_key(candidates, &keys);
    metrics.files_eliminated_by_unique_size = metrics.files_eliminated_by_unique_size + dropped;
    metrics.size_groups_count = groups.len();
    groups
}

/// Stage two: one size group split by quick fingerprint (`None` for a file that could
/// not be read, which leaves the group silently); groups of one are eliminated.
pub fn fingerprint_stage(
    group: &Vec<CandidateFile>,
    fingerprints: &Vec<Option<[u8; 32]>>,
    metrics: &mut DuplicateDetectionMetrics,
) -> (groups: Vec<Vec<CandidateFile>>)
    requires
        group@.len() == fingerprints@.len(),
        old(metrics).fingerprints_computed + group@.len() <= usize::MAX,
        old(metrics).files_eliminated_by_fingerprint + group@.len() <= usize::MAX,
    ensures
        deep(groups@) == survivors(grouped(digest_keys(fingerprints@), group@, group@.len() as nat).1),
        *final(metrics) == (DuplicateDetectionMetrics {
            fingerprints_computed: (old(metrics).fingerprints_computed + count_some(fingerprints@)) as usize,
            files_eliminated_by_fingerprint: (old(metrics).files_eliminated_by_fingerprint + eliminated(
                grouped(digest_keys(fingerprints@), group@, group@.len() as nat).1,
            )) as usize,
            ..*old(metrics)
        }),
{
    let (keys, computed) = digest_keys_exec(fingerprints);
    let (groups, _keys, dropped) = group_by_key(group, &keys);
    metrics.fingerprints_computed = metrics.fingerprints_computed + computed;
    metrics.files_eliminated_by_fingerprint = metrics.files_eliminated_by_fingerprint + dropped;
    groups
}

/// Stage three: one fingerprint group split by full-content digest (`None` for a file
/// that could not be read); returns the confirmed groups with their digests as keys.
pub fn full_hash_stage(
    group: &Vec<CandidateFile>,
    hashes: &Vec<Option<[u8; 32]>>,
    metrics: &mut DuplicateDetectionMetrics,
) -> (r: (Vec<Vec<CandidateFile>>, Vec<Vec<u64>>))
    requires
        group@.len() == hashes@.len(),
        old(metrics).full_hashes_computed + group@.len() <= usize::MAX,
        old(metrics).files_eliminated_by_full_hash + group@.len() <= usize::MAX,
    ensures
        deep(r.0@) == survivors(grouped(digest_keys(hashes@), group@, group@.len() as nat).1),
        deep_keys(r.1@) == survivor_keys(
            grouped(digest_keys(hashes@), group@, group@.len() as nat).0,
            grouped(digest_keys(hashes@), group@, group@.len() as nat).1,
        ),
        *final(metrics) == (DuplicateDetectionMetrics {
            full_hashes_computed: (old(metrics).full_hashes_computed + count_some(hashes@)) as usize,
            files_eliminated_by_full_hash: (old(metrics).files_eliminated_by_full_hash + eliminated(
                grouped(digest_keys(hashes@), group@, group@.len() as nat).1,
            )) as usize,
            ..*old(metrics)
        }),
{
    let (keys, computed) = digest_keys_exec(hashes);
    let (groups, gkeys, dropped) = group_by_key(group, &keys);
    metrics.full_hashes_computed = metrics.full_hashes_computed + computed;
    metrics.files_eliminated_by_full_hash = metrics.files_eliminated_by_full_hash + dropped;
    (groups, gkeys)
}


// ---------------------------------------------------------------------------
// Confirmed groups
// ---------------------------------------------------------------------------

/// A lowercase hexadecimal digit.
pub open spec fn hex_digit(d: nat) -> char {
    if d < 10 {
        (48 + d) as char
    } else {
        (87 + d) as char
    }
}

/// Lowercase hexadecimal rendering, two digits per byte.
pub open spec fn hex_of(bytes: Seq<u8>) -> Seq<char>
    decreases bytes.len(),
{
    if bytes.len() == 0 {
        Seq::empty()
    } else {
        hex_of(bytes.drop_last()) + seq![
            hex_digit((bytes.last() / 16) as nat),
            hex_digit((bytes.last() % 16) as nat),
        ]
    }
}

fn hex_digit_exec(d: u8) -> (c: char)
    requires
        d < 16,
    ensures
        c == hex_digit(d as nat),
{
    let b: u8 = if d < 10 {
        48 + d
    } else {
        87 + d
    };
    b as char
}

/// Converts a digest into a lowercase hex string.
pub fn to_hex(bytes: &[u8]) -> (s: String)
    ensures
        s@ == hex_of(bytes@),
{
    let mut s = String::new();
    let mut i: usize = 0;
    while i < bytes.len()
        invariant
            i <= bytes@.len(),
            s@ == hex_of(bytes@.subrange(0, i as int)),
        decreases bytes@.len() - i,
    {
        let b = bytes[i];
        push_char(&mut s, hex_digit_exec(b / 16));
        push_char(&mut s, hex_digit_exec(b % 16));
        assert(bytes@.subrange(0, i + 1).drop_last() =~= bytes@.subrange(0, i as int));
        i = i + 1;
    }
    assert(bytes@.subrange(0, bytes@.len() as int) =~= bytes@);
    s
}

/// The reported physical extent of the file at `path`: the extent given for the first
/// candidate with that path.
pub open spec fn extent_of(files: Seq<CandidateFile>, extents: Seq<Option<i64>>, path: Seq<char>, i: int) -> Option<i64>
    decreases files.len() - i,
{
    if i < 0 || i >= files.len() || i >= extents.len() {
        None
    } else if files[i].path@ == path {
        extents[i]
    } else {
        extent_of(files, extents, path, i + 1)
    }
}

fn extent_of_exec(files: &Vec<CandidateFile>, extents: &Vec<Option<i64>>, path: &str) -> (r: Option<i64>)
    ensures
        r == extent_of(files@, extents@, path@, 0),
{
    let mut i: usize = 0;
    while i < files.len() && i < extents.len()
        invariant
            extent_of(files@, extents@, path@, 0) == extent_of(files@, extents@, path@, i as int),
        decreases files@.len() - i,
    {
        if str_eq(files[i].path.as_str(), path) {
            return extents[i];
        }
        i = i + 1;
    }
    None
}

/// A view of a duplicate item by its field values.
pub struct ItemView {
    pub id: Seq<char>,
    pub path: Seq<char>,
    pub canonical_path: Seq<char>,
    pub size_bytes: u64,
    pub modified_ms: Option<u64>,
    pub inode: u64,
    pub device_id: u64,
    pub is_retained: bool,
    pub is_selected: bool,
    pub sharing_kind: StorageSharingKind,
}

pub open spec fn item_view(i: DuplicateItem) -> ItemView {
    ItemView {
        id: i.id@,
        path: i.path@,
        canonical_path: i.canonical_path@,
        size_bytes: i.size_bytes,
        modified_ms: i.modified_ms,
        inode: i.inode,
        device_id: i.device_id,
        is_retained: i.is_retained,
        is_selected: i.is_selected,
        sharing_kind: i.sharing_kind,
    }
}

pub open spec fn item_of(id: Seq<char>, c: CandidateFile, retained: bool, kind: StorageSharingKind) -> ItemView {
    ItemView {
        id,
        path: c.path@,
        canonical_path: c.canonical_path@,
        size_bytes: c.size_bytes,
        modified_ms: c.modified_ms,
        inode: c.identity.inode,
        device_id: c.identity.device_id,
        is_retained: retained,
        is_selected: false,
        sharing_kind: kind,
    }
}

pub open spec fn group_id_of(counter: u64) -> Seq<char> {
    "group-"@ + decimal(counter as nat)
}

pub open spec fn retained_id_of(counter: u64) -> Seq<char> {
    "dup-"@ + decimal(counter as nat) + "-retained"@
}

pub open spec fn copy_id_of(counter: u64, idx: nat) -> Seq<char> {
    "dup-"@ + decimal(counter as nat) + "-copy-"@ + decimal(idx)
}

/// How copy `i` of the ranked files relates to the retained copy `ranked[0]`.
pub open spec fn copy_kind(ranked: Seq<CandidateFile>, files: Seq<CandidateFile>, extents: Seq<Option<i64>>, i: int) -> StorageSharingKind {
    storage_sharing(
        ranked[i],
        ranked[0],
        extent_of(files, extents, ranked[i].path@, 0),
        extent_of(files, extents, ranked[0].path@, 0),
    )
}

/// The items for copies `1..n` of the ranked files whose kind is (or, with
/// `independent == false`, is not) `Independent`, in rank order, numbered by rank.
pub open spec fn copies_of(
    counter: u64,
    ranked: Seq<CandidateFile>,
    files: Seq<CandidateFile>,
    extents: Seq<Option<i64>>,
    n: int,
    independent: bool,
) -> Seq<ItemView>
    decreases n,
{
    if n <= 1 {
        Seq::empty()
    } else {
        let prev = copies_of(counter, ranked, files, extents, n - 1, independent);
        let k = copy_kind(ranked, files, extents, n - 1);
        if (k == StorageSharingKind::Independent) == independent {
            prev.push(item_of(copy_id_of(counter, (n - 1) as nat), ranked[n - 1], false, k))
        } else {
            prev
        }
    }
}

/// `g` is the group assembled from the ranked files: the first is retained, each other
/// copy is a deletion candidate when independent of it and a shared-storage copy
/// otherwise.
pub open spec fn assembled_from(
    g: DuplicateGroup,
    counter: u64,
    ranked: Seq<CandidateFile>,
    files: Seq<CandidateFile>,
    extents: Seq<Option<i64>>,
    hash_key: Seq<u64>,
) -> bool {
    &&& g.group_id@ == group_id_of(counter)
    &&& g.size_bytes == ranked[0].size_bytes
    &&& g.content_hash@ == hex_of(hash_key.map_values(|v: u64| v as u8))
    &&& g.safety_class == SafetyClass::Review
    &&& item_view(g.retained) == item_of(
        retained_id_of(counter),
        ranked[0],
        true,
        StorageSharingKind::Independent,
    )
    &&& g.candidates@.map_values(|i: DuplicateItem| item_view(i)) == copies_of(
        counter,
        ranked,
        files,
        extents,
        ranked.len() as int,
        true,
    )
    &&& g.shared_storage_items@.map_values(|i: DuplicateItem| item_view(i)) == copies_of(
        counter,
        ranked,
        files,
        extents,
        ranked.len() as int,
        false,
    )
    &&& g.reclaimable_bytes == g.candidates@.len() * g.size_bytes
    &&& g.total_group_bytes == ranked.len() * g.size_bytes
}

proof fn lemma_copies_len(
    counter: u64,
    ranked: Seq<CandidateFile>,
    files: Seq<CandidateFile>,
    extents: Seq<Option<i64>>,
    n: int,
)
    requires
        1 <= n,
    ensures
        copies_of(counter, ranked, files, extents, n, true).len() + copies_of(
            counter,
            ranked,
            files,
            extents,
            n,
            false,
        ).len() == n - 1,
    decreases n,
{
    if n > 1 {
        lemma_copies_len(counter, ranked, files, extents, n - 1);
    }
}

proof fn lemma_copies_kinds(
    counter: u64,
    ranked: Seq<CandidateFile>,
    files: Seq<CandidateFile>,
    extents: Seq<Option<i64>>,
    n: int,
    independent: bool,
)
    ensures
        forall|j: int|
            0 <= j < copies_of(counter, ranked, files, extents, n, independent).len() ==> {
                let v = #[trigger] copies_of(counter, ranked, files, extents, n, independent)[j];
                &&& (v.sharing_kind == StorageSharingKind::Independent) == independent
                &&& !v.is_retained
                &&& !v.is_selected
            },
    decreases n,
{
    if n > 1 {
        lemma_copies_kinds(counter, ranked, files, extents, n - 1, independent);
    }
}

fn item_from(id: String, c: &CandidateFile, retained: bool, kind: StorageSharingKind) -> (i: DuplicateItem)
    ensures
        item_view(i) == item_of(id@, *c, retained, kind),
{
    DuplicateItem::new(
        id,
        c.path.clone(),
        c.canonical_path.clone(),
        c.size_bytes,
        c.modified_ms,
        c.identity.inode,
        c.identity.device_id,
        retained,
        kind,
    )
}

/// Builds the duplicate group for a set of byte-identical files: ranks them by the rule,
/// retains the first, and sorts each other copy into the deletion candidates or, where it
/// shares storage with the retained copy, into the shared-storage copies.
/// `extents[i]` is the physical extent the filesystem reports for `files[i]`.
/// The group keeps every invariant of a duplicate group.
pub fn assemble_duplicate_group(
    counter: u64,
    files: &Vec<CandidateFile>,
    extents: &Vec<Option<i64>>,
    hash_key: &Vec<u64>,
    rule: RetainedRule,
) -> (g: DuplicateGroup)
    requires
        files@.len() >= 2,
        forall|i: int| 0 <= i < files@.len() ==> files@.len() * (#[trigger] files@[i]).size_bytes <= u64::MAX,
    ensures
        g.spec_invariant_check() == Ok::<(), &'static str>(()),
        g.spec_no_preselection(),
        g.spec_total_item_count() == files@.len(),
        exists|ranked: Seq<CandidateFile>|
            {
                &&& ranked.to_multiset() == files@.to_multiset()
                &&& ranked.len() == files@.len()
                &&& sorted_for(rule, ranked)
                &&& assembled_from(g, counter, ranked, files@, extents@, hash_key@)
            },
{
    broadcast use vstd::seq_lib::group_to_multiset_ensures;

    let mut ranked: Vec<CandidateFile> = Vec::new();
    let mut i: usize = 0;
    while i < files.len()
        invariant
            i <= files@.len(),
            ranked@ == files@.subrange(0, i as int),
        decreases files@.len() - i,
    {
        ranked.push(files[i].duplicate());
        i = i + 1;
        assert(ranked@ =~= files@.subrange(0, i as int));
    }
    assert(files@.subrange(0, files@.len() as int) =~= files@);
    sort_for_retained(&mut ranked, rule);
    let ghost rk = ranked@;
    assert(rk.to_multiset().count(rk[0]) > 0);
    assert(files@.contains(rk[0]));
    let n = ranked.len();
    let keeper = ranked[0].duplicate();
    let keeper_extent = extent_of_exec(files, extents, keeper.path.as_str());
    let number = u64_to_decimal(counter);
    let mut candidates: Vec<DuplicateItem> = Vec::new();
    let mut shared: Vec<DuplicateItem> = Vec::new();
    let mut idx: usize = 1;
    while idx < n
        invariant
            n == rk.len(),
            n == ranked@.len(),
            ranked@ == rk,
            keeper == rk[0],
            keeper_extent == extent_of(files@, extents@, rk[0].path@, 0),
            number@ == decimal(counter as nat),
            1 <= idx <= n,
            candidates@.map_values(|i: DuplicateItem| item_view(i)) == copies_of(counter, rk, files@, extents@, idx as int, true),
            shared@.map_values(|i: DuplicateItem| item_view(i)) == copies_of(counter, rk, files@, extents@, idx as int, false),
            candidates@.len() + shared@.len() == idx - 1,
        decreases n - idx,
    {
        let copy = &ranked[idx];
        let copy_extent = extent_of_exec(files, extents, copy.path.as_str());
        let kind = detect_storage_sharing(copy, &keeper, copy_extent, keeper_extent);
        let idx_text = u64_to_decimal(idx as u64);
        let id = concat2(concat3("dup-", number.as_str(), "-copy-").as_str(), idx_text.as_str());
        let item = item_from(id, copy, false, kind);
        let ghost cb = candidates@;
        let ghost sb = shared@;
        match kind {
            StorageSharingKind::Independent => {
                candidates.push(item);
                assert(candidates@.map_values(|i: DuplicateItem| item_view(i)) =~= cb.map_values(|i: DuplicateItem| item_view(i)).push(item_view(item)));
            },
            _ => {
                shared.push(item);
                assert(shared@.map_values(|i: DuplicateItem| item_view(i)) =~= sb.map_values(|i: DuplicateItem| item_view(i)).push(item_view(item)));
            },
        }
        idx = idx + 1;
    }
    let retained_id = concat3("dup-", number.as_str(), "-retained");
    let retained_item = item_from(retained_id, &keeper, true, StorageSharingKind::Independent);
    let hash_bytes = key_bytes(hash_key);
    let hash_hex = to_hex(hash_bytes.as_slice());
    let group_id = concat2("group-", number.as_str());
    proof {
        assert(files@.len() * keeper.size_bytes <= u64::MAX);
        lemma_copies_kinds(counter, rk, files@, extents@, n as int, true);
        lemma_copies_kinds(counter, rk, files@, extents@, n as int, false);
    }
    let ghost cands_before = candidates@;
    let ghost shared_before = shared@;
    let g = DuplicateGroup::new(group_id, keeper.size_bytes, hash_hex, retained_item, candidates, shared);
    proof {
        assert forall|j: int| 0 <= j < cands_before.len() implies unmarked(#[trigger] cands_before[j]) == cands_before[j] by {
            assert(cands_before.map_values(|i: DuplicateItem| item_view(i))[j] == item_view(cands_before[j]));
        }
        assert forall|j: int| 0 <= j < shared_before.len() implies unmarked(#[trigger] shared_before[j]) == shared_before[j] by {
            assert(shared_before.map_values(|i: DuplicateItem| item_view(i))[j] == item_view(shared_before[j]));
        }
        assert(g.candidates@ =~= cands_before);
        assert(g.shared_storage_items@ =~= shared_before);
        assert forall|j: int| 0 <= j < cands_before.len() implies (#[trigger] cands_before[j]).sharing_kind == StorageSharingKind::Independent by {
            assert(cands_before.map_values(|i: DuplicateItem| item_view(i))[j] == item_view(cands_before[j]));
        }
        assert forall|j: int| 0 <= j < shared_before.len() implies (#[trigger] shared_before[j]).sharing_kind != StorageSharingKind::Independent by {
            assert(shared_before.map_values(|i: DuplicateItem| item_view(i))[j] == item_view(shared_before[j]));
        }
        law_new_group_keeps_invariants(g, cands_before, shared_before, retained_item, keeper.size_bytes);
        assert(item_view(g.retained) == item_view(retained_item));
    }
    g
}

/// The digest bytes of a digest key.
pub open spec fn key_to_bytes(key: Seq<u64>) -> Seq<u8> {
    key.map_values(|v: u64| v as u8)
}

fn key_bytes(key: &Vec<u64>) -> (b: Vec<u8>)
    ensures
        b@ == key_to_bytes(key@),
{
    let mut b: Vec<u8> = Vec::new();
    let mut i: usize = 0;
    while i < key.len()
        invariant
            i <= key@.len(),
            b@ == key@.subrange(0, i as int).map_values(|v: u64| v as u8),
        decreases key@.len() - i,
    {
        b.push(key[i] as u8);
        i = i + 1;
        assert(b@ =~= key@.subrange(0, i as int).map_values(|v: u64| v as u8));
    }
    assert(key@.subrange(0, key@.len() as int) =~= key@);
    b
}

/// Which stage detection was in when it observed cancellation.
#[derive(Debug, Clone, Copy, PartialEq, Eq, Structural)]
pub enum DetectionStage {
    Screening,
    SizeGrouping,
    Fingerprinting,
    FullHashing,
}

/// What detection returns when cancelled: nothing before the full-hash stage; during it,
/// every group already confirmed.
pub fn result_on_cancellation(stage: DetectionStage, confirmed: Vec<DuplicateGroup>) -> (r: Vec<DuplicateGroup>)
    ensures
        stage == DetectionStage::FullHashing ==> r@ == confirmed@,
        stage != DetectionStage::FullHashing ==> r@.len() == 0,
{
    match stage {
        DetectionStage::FullHashing => confirmed,
        _ => Vec::new(),
    }
}

// ---------------------------------------------------------------------------
// What the stages guarantee together
// ---------------------------------------------------------------------------

/// Copy `c` is one of the first `n` items, and its key there is `key`.
pub open spec fn member_with_key(
    keys: Seq<Option<Seq<u64>>>,
    items: Seq<CandidateFile>,
    n: nat,
    key: Seq<u64>,
    c: CandidateFile,
) -> bool {
    exists|i: int| 0 <= i < n && items[i] == c && #[trigger] keys[i] == Some(key)
}

proof fn lemma_find_key(keys: Seq<Seq<u64>>, k: Seq<u64>, i: int)
    requires
        0 <= i,
    ensures
        find_key(keys, k, i) matches Some(g) ==> i <= g < keys.len() && keys[g] == k,
    decreases keys.len() - i,
{
    if i < keys.len() && keys[i] != k {
        lemma_find_key(keys, k, i + 1);
    }
}

/// Every copy in a group was one of the items, with the group's key.
pub proof fn lemma_grouped_members(keys: Seq<Option<Seq<u64>>>, items: Seq<CandidateFile>, n: nat)
    requires
        n <= items.len(),
        n <= keys.len(),
    ensures
        grouped(keys, items, n).0.len() == grouped(keys, items, n).1.len(),
        forall|g: int, j: int|
            0 <= g < grouped(keys, items, n).1.len() && 0 <= j < grouped(keys, items, n).1[g].len() ==> member_with_key(
                keys,
                items,
                n,
                grouped(keys, items, n).0[g],
                #[trigger] grouped(keys, items, n).1[g][j],
            ),
    decreases n,
{
    if n > 0 {
        let m = (n - 1) as nat;
        lemma_grouped_members(keys, items, m);
        let prev = grouped(keys, items, m);
        let cur = grouped(keys, items, n);
        assert forall|g: int, j: int| 0 <= g < prev.1.len() && 0 <= j < prev.1[g].len() implies member_with_key(
            keys,
            items,
            n,
            prev.0[g],
            #[trigger] prev.1[g][j],
        ) by {
            assert(member_with_key(keys, items, m, prev.0[g], prev.1[g][j]));
            let i = choose|i: int| 0 <= i < m && items[i] == prev.1[g][j] && #[trigger] keys[i] == Some(prev.0[g]);
            assert(0 <= i < n && items[i] == prev.1[g][j] && keys[i] == Some(prev.0[g]));
        }
        match keys[n - 1] {
            None => {},
            Some(k) => {
                lemma_find_key(prev.0, k, 0);
                assert(keys[n - 1] == Some(k));
                match find_key(prev.0, k, 0) {
                    Some(g0) => {
                        assert forall|g: int, j: int|
                            0 <= g < cur.1.len() && 0 <= j < cur.1[g].len() implies member_with_key(
                                keys,
                                items,
                                n,
                                cur.0[g],
                                #[trigger] cur.1[g][j],
                            ) by {
                            if g == g0 && j == prev.1[g0].len() {
                                assert(cur.1[g][j] == items[n - 1]);
                                assert(keys[n - 1] == Some(cur.0[g]));
                            } else {
                                assert(cur.1[g][j] == prev.1[g][j]);
                            }
                        }
                    },
                    None => {
                        assert forall|g: int, j: int|
                            0 <= g < cur.1.len() && 0 <= j < cur.1[g].len() implies member_with_key(
                                keys,
                                items,
                                n,
                                cur.0[g],
                                #[trigger] cur.1[g][j],
                            ) by {
                            if g == prev.1.len() {
                                assert(cur.1[g][j] == items[n - 1]);
                                assert(keys[n - 1] == Some(cur.0[g]));
                            } else {
                                assert(cur.1[g][j] == prev.1[g][j]);
                            }
                        }
                    },
                }
            },
        }
    }
}

/// Every surviving group is one of the groups, with at least two copies.
pub proof fn lemma_survivors_are_groups(groups: Seq<Seq<CandidateFile>>)
    ensures
        survivors(groups).len() <= groups.len(),
        forall|s: int|
            0 <= s < survivors(groups).len() ==> (#[trigger] survivors(groups)[s]).len() >= 2 && exists|g: int|
                0 <= g < groups.len() && groups[g] == survivors(groups)[s],
    decreases groups.len(),
{
    if groups.len() > 0 {
        let rest = groups.drop_last();
        lemma_survivors_are_groups(rest);
        assert forall|s: int| 0 <= s < survivors(groups).len() implies (#[trigger] survivors(groups)[s]).len() >= 2
            && exists|g: int| 0 <= g < groups.len() && groups[g] == survivors(groups)[s] by {
            if s < survivors(rest).len() {
                assert(survivors(groups)[s] == survivors(rest)[s]);
                let g = choose|g: int| 0 <= g < rest.len() && rest[g] == survivors(rest)[s];
                assert(groups[g] == rest[g]);
            } else {
                assert(survivors(groups)[s] == groups.last());
                assert(groups[groups.len() - 1] == groups.last());
            }
        }
    }
}

/// Every copy of a surviving group of a stage was an item of the stage, carrying one key,
/// the group's, which is returned.
pub proof fn law_stage_groups_share_key(keys: Seq<Option<Seq<u64>>>, items: Seq<CandidateFile>, s: int) -> (key: Seq<u64>)
    requires
        keys.len() == items.len(),
        0 <= s < survivors(grouped(keys, items, items.len() as nat).1).len(),
    ensures
        survivors(grouped(keys, items, items.len() as nat).1)[s].len() >= 2,
        forall|d: CandidateFile|
            survivors(grouped(keys, items, items.len() as nat).1)[s].contains(d) ==> #[trigger] member_with_key(
                keys,
                items,
                items.len() as nat,
                key,
                d,
            ),
{
    let n = items.len() as nat;
    let gr = grouped(keys, items, n);
    lemma_grouped_members(keys, items, n);
    lemma_survivors_are_groups(gr.1);
    let grp = survivors(gr.1)[s];
    let g = choose|g: int| 0 <= g < gr.1.len() && gr.1[g] == grp;
    assert forall|d: CandidateFile| grp.contains(d) implies #[trigger] member_with_key(keys, items, n, gr.0[g], d) by {
        let j = choose|j: int| 0 <= j < grp.len() && grp[j] == d;
        assert(gr.1[g][j] == d);
    }
    gr.0[g]
}

/// Copies confirmed as duplicates agree across the stages: every copy of a group that
/// survives the full-digest stage, run on a group that survived the fingerprint stage,
/// run on a group that survived the size stage, is one of the candidates, has the size
/// shared by the whole size group, and has the digest shared by the whole final group.
pub proof fn law_confirmed_copies_agree(
    candidates: Seq<CandidateFile>,
    size_group: Seq<CandidateFile>,
    fingerprints: Seq<Option<[u8; 32]>>,
    fingerprint_group: Seq<CandidateFile>,
    digests: Seq<Option<[u8; 32]>>,
    confirmed: Seq<CandidateFile>,
    a: CandidateFile,
    b: CandidateFile,
)
    requires
        survivors(grouped(size_keys(candidates), candidates, candidates.len() as nat).1).contains(size_group),
        fingerprints.len() == size_group.len(),
        survivors(grouped(digest_keys(fingerprints), size_group, size_group.len() as nat).1).contains(
            fingerprint_group,
        ),
        digests.len() == fingerprint_group.len(),
        survivors(grouped(digest_keys(digests), fingerprint_group, fingerprint_group.len() as nat).1).contains(
            confirmed,
        ),
        confirmed.contains(a),
        confirmed.contains(b),
    ensures
        confirmed.len() >= 2,
        candidates.contains(a),
        a.size_bytes == b.size_bytes,
        exists|i: int, j: int|
            #![trigger digests[i], digests[j]]
            0 <= i < fingerprint_group.len() && 0 <= j < fingerprint_group.len() && fingerprint_group[i] == a
                && fingerprint_group[j] == b && digests[i] is Some && digests[i] == digests[j],
{
    let sk = size_keys(candidates);
    let fk = digest_keys(fingerprints);
    let dk = digest_keys(digests);
    let s3 = choose|s: int|
        0 <= s < survivors(grouped(dk, fingerprint_group, fingerprint_group.len() as nat).1).len() && survivors(
            grouped(dk, fingerprint_group, fingerprint_group.len() as nat).1,
        )[s] == confirmed;
    let k3 = law_stage_groups_share_key(dk, fingerprint_group, s3);
    assert(member_with_key(dk, fingerprint_group, fingerprint_group.len() as nat, k3, a));
    assert(member_with_key(dk, fingerprint_group, fingerprint_group.len() as nat, k3, b));
    let ia = choose|i: int|
        0 <= i < fingerprint_group.len() && fingerprint_group[i] == a && #[trigger] dk[i] == Some(k3);
    let ib = choose|i: int|
        0 <= i < fingerprint_group.len() && fingerprint_group[i] == b && #[trigger] dk[i] == Some(k3);
    let da = digests[ia]->0;
    let db = digests[ib]->0;
    assert(da@.map_values(|x: u8| x as u64) == db@.map_values(|x: u8| x as u64));
    assert(da@ =~= db@) by {
        assert forall|t: int| 0 <= t < da@.len() implies da@[t] == db@[t] by {
            assert(da@.map_values(|x: u8| x as u64)[t] == db@.map_values(|x: u8| x as u64)[t]);
        }
    }
    assert(da == db);
    assert(digests[ib] == Some(da));
    // the final group's copies come from the fingerprint group, whose copies come from the size group
    let s2 = choose|s: int|
        0 <= s < survivors(grouped(fk, size_group, size_group.len() as nat).1).len() && survivors(
            grouped(fk, size_group, size_group.len() as nat).1,
        )[s] == fingerprint_group;
    assert(fingerprint_group.contains(a)) by {
        assert(fingerprint_group[ia] == a);
    }
    assert(fingerprint_group.contains(b)) by {
        assert(fingerprint_group[ib] == b);
    }
    let k2 = law_stage_groups_share_key(fk, size_group, s2);
    assert(member_with_key(fk, size_group, size_group.len() as nat, k2, a));
    assert(member_with_key(fk, size_group, size_group.len() as nat, k2, b));
    let ja = choose|i: int| 0 <= i < size_group.len() && size_group[i] == a && #[trigger] fk[i] == Some(k2);
    let jb = choose|i: int| 0 <= i < size_group.len() && size_group[i] == b && #[trigger] fk[i] == Some(k2);
    assert(size_group.contains(a)) by {
        assert(size_group[ja] == a);
    }
    let s1 = choose|s: int|
        0 <= s < survivors(grouped(sk, candidates, candidates.len() as nat).1).len() && survivors(
            grouped(sk, candidates, candidates.len() as nat).1,
        )[s] == size_group;
    let k1 = law_stage_groups_share_key(sk, candidates, s1);
    assert(member_with_key(sk, candidates, candidates.len() as nat, k1, a));
    assert(size_group.contains(b)) by {
        assert(size_group[jb] == b);
    }
    assert(member_with_key(sk, candidates, candidates.len() as nat, k1, b));
    let ca = choose|i: int| 0 <= i < candidates.len() && candidates[i] == a && #[trigger] sk[i] == Some(k1);
    let cb = choose|i: int| 0 <= i < candidates.len() && candidates[i] == b && #[trigger] sk[i] == Some(k1);
    assert(sk[ca] == Some(seq![a.size_bytes]));
    assert(sk[cb] == Some(seq![b.size_bytes]));
    assert(seq![a.size_bytes][0] == seq![b.size_bytes][0]);
    assert(candidates.contains(a));
}

} // verus!
