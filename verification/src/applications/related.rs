//! The related files of an application: what is measured for each tie, how credentials
//! and shared components are protected, and the order in which they are listed.

use vstd::prelude::*;
use crate::applications::adapter::ApplicationPlatform;
use crate::applications::associate::association_views;
use crate::applications::model::{
    ApplicationMatchEvidence, Association, AssociationView, Candidate, EvidenceView, MatchReason,
    MatchStrength, RelatedFile, RelatedFileView, RelatedLocationKind, location_of,
};
use crate::applications::names::{candidate_name, is_sensitive_path, is_top_level_path, name_of, sensitive, top_level};
use crate::classify::class::SafetyClass;
use crate::duplicates::order::{path_order_key, path_order_key_exec};
use crate::keyed::{comes_from, key_present, key_views, sort_dedup_keyed, strictly_sorted};
use crate::paths::{path_eq, path_starts_with, paths_equal, starts_with};
use crate::platform::PlatformError;
use crate::text::owned;

verus! {

/// The wording of the evidence of a freshly measured file.
pub open spec fn identity_wording() -> Seq<char> {
    "Matched by bundle identifier"@
}

/// The wording of the evidence of a file that is or holds a credential.
pub open spec fn credential_wording() -> Seq<char> {
    "Contains or is a licence, authentication token, or account credential"@
}

/// A file measured at `footprint` bytes for candidate `c`: for review, not selected,
/// offered for removal, with identity evidence.
pub open spec fn related_file_view(c: Candidate, footprint: u64) -> RelatedFileView {
    RelatedFileView {
        path: c.path@,
        name: name_of(c.path@),
        location: location_of(c.root.kind),
        measured_footprint_bytes: footprint,
        safety_class: SafetyClass::Review,
        selected_by_default: false,
        offered_for_removal: true,
        evidence: EvidenceView {
            reason: MatchReason::ExactBundleIdentifier,
            strength: MatchStrength::Strong,
            explanation: identity_wording(),
        },
    }
}

pub fn related_file_for(candidate: &Candidate, footprint: u64) -> (r: RelatedFile)
    ensures
        r@ == related_file_view(*candidate, footprint),
{
    RelatedFile {
        path: candidate.path.clone(),
        name: candidate_name(&candidate.path),
        location: RelatedLocationKind::from(candidate.root.kind),
        measured_footprint_bytes: footprint,
        safety_class: SafetyClass::Review,
        selected_by_default: false,
        offered_for_removal: true,
        evidence: ApplicationMatchEvidence {
            reason: MatchReason::ExactBundleIdentifier,
            strength: MatchStrength::Strong,
            explanation: owned("Matched by bundle identifier"),
        },
    }
}

/// What measuring the candidate gives: a file where it was measured, nothing where the
/// entry vanished, the error otherwise.
pub open spec fn measured_file(
    c: Candidate,
    footprint: Result<u64, PlatformError>,
) -> Result<Option<RelatedFileView>, PlatformError> {
    match footprint {
        Ok(v) => Ok(Some(related_file_view(c, v))),
        Err(PlatformError::NotFound(_)) => Ok(None),
        Err(e) => Err(e),
    }
}

pub fn related_file_from(candidate: &Candidate, footprint: &Result<u64, PlatformError>) -> (r: Result<
    Option<RelatedFile>,
    PlatformError,
>)
    ensures
        match (r, measured_file(*candidate, *footprint)) {
            (Ok(Some(f)), Ok(Some(v))) => f@ == v,
            (Ok(None), Ok(None)) => true,
            (Err(e), Err(d)) => e == d,
            _ => false,
        },
{
    match footprint {
        Ok(v) => Ok(Some(related_file_for(candidate, *v))),
        Err(PlatformError::NotFound(_)) => Ok(None),
        Err(e) => Err(e.duplicate()),
    }
}

/// What measuring `candidate` through `adapter` gave: nothing where the platform reported
/// nothing at its path; otherwise `measured_file` of the footprint it reported there.
pub open spec fn built_through<A: ApplicationPlatform>(
    adapter: &A,
    candidate: Candidate,
    r: Result<Option<RelatedFile>, PlatformError>,
) -> bool {
    ||| adapter.reports_entry_exists(candidate.path@, false) && r == Ok::<Option<RelatedFile>, PlatformError>(None)
    ||| exists|footprint: Result<u64, PlatformError>|
        adapter.reports_entry_exists(candidate.path@, true) && #[trigger] adapter.reports_footprint(
            candidate.path@,
            footprint,
        ) && match (r, measured_file(candidate, footprint)) {
            (Ok(Some(f)), Ok(Some(v))) => f@ == v,
            (Ok(None), Ok(None)) => true,
            (Err(e), Err(d)) => e == d,
            _ => false,
        }
}

/// Measures the candidate's footprint, where something is there.
pub fn build_related_file<A: ApplicationPlatform>(adapter: &A, candidate: &Candidate) -> (r: Result<
    Option<RelatedFile>,
    PlatformError,
>)
    ensures
        built_through(adapter, *candidate, r),
        match r {
            Ok(Some(f)) => exists|v: u64| f@ == related_file_view(*candidate, v),
            Ok(None) => true,
            Err(e) => !(e is NotFound),
        },
{
    if !adapter.entry_exists(&candidate.path) {
        return Ok(None);
    }
    let footprint = adapter.measure_footprint(&candidate.path);
    let r = related_file_from(candidate, &footprint);
    proof {
        match footprint {
            Ok(v) => {
                assert(r matches Ok(Some(f)) && f@ == related_file_view(*candidate, v));
            },
            Err(_) => {},
        }
    }
    r
}

/// The tied candidates whose file is named as a credential.
pub open spec fn sensitive_paths_of(assocs: Seq<AssociationView>) -> Seq<Seq<char>>
    decreases assocs.len(),
{
    if assocs.len() == 0 {
        Seq::empty()
    } else {
        let before = sensitive_paths_of(assocs.drop_last());
        if sensitive(assocs.last().path) {
            before.push(assocs.last().path)
        } else {
            before
        }
    }
}

/// Only entries directly under their data root, credentials and shared components are
/// listed; what lies deeper is covered by the entry that holds it.
pub open spec fn eligible(a: AssociationView) -> bool {
    top_level(a.path, a.root_path) || sensitive(a.path) || a.reason == MatchReason::SharedComponent
}

/// The file takes the tie's evidence; a shared component is not offered for removal; a
/// credential, or an entry that holds one, or a shared component is protected; only a
/// rebuildable file with a strong tie is selected.
pub open spec fn finished(rv: RelatedFileView, a: AssociationView, sensitive: Seq<Seq<char>>) -> RelatedFileView {
    let shared = a.reason == MatchReason::SharedComponent;
    let is_sensitive = exists|k: int| 0 <= k < sensitive.len() && path_eq(#[trigger] sensitive[k], rv.path);
    let protects_descendant = exists|k: int|
        0 <= k < sensitive.len() && !path_eq(#[trigger] sensitive[k], rv.path) && path_starts_with(sensitive[k], a.path);
    let credential = is_sensitive || protects_descendant;
    let class = if credential || shared {
        SafetyClass::Protected
    } else {
        rv.safety_class
    };
    RelatedFileView {
        safety_class: class,
        selected_by_default: class == SafetyClass::Rebuildable && a.strength == MatchStrength::Strong,
        offered_for_removal: if shared {
            false
        } else {
            rv.offered_for_removal
        },
        evidence: EvidenceView {
            reason: if credential {
                MatchReason::SensitiveCredential
            } else {
                a.reason
            },
            strength: a.strength,
            explanation: if credential {
                credential_wording()
            } else {
                a.explanation
            },
        },
        ..rv
    }
}

/// No related file is selected by default: a measured file is for review, and finishing
/// it can only make it protected.
pub proof fn law_related_files_never_preselected(
    c: Candidate,
    footprint: u64,
    a: AssociationView,
    sensitive: Seq<Seq<char>>,
)
    ensures
        !finished(related_file_view(c, footprint), a, sensitive).selected_by_default,
        finished(related_file_view(c, footprint), a, sensitive).safety_class != SafetyClass::Rebuildable,
{
}

/// A file that is itself named as a credential, or that holds one, is protected and its
/// evidence says so.
pub proof fn law_credentials_are_protected(rv: RelatedFileView, a: AssociationView, sensitive: Seq<Seq<char>>, k: int)
    requires
        0 <= k < sensitive.len(),
        path_eq(sensitive[k], rv.path) || path_starts_with(sensitive[k], a.path),
    ensures
        finished(rv, a, sensitive).safety_class == SafetyClass::Protected,
        finished(rv, a, sensitive).evidence.reason == MatchReason::SensitiveCredential,
        finished(rv, a, sensitive).evidence.explanation == credential_wording(),
        !finished(rv, a, sensitive).selected_by_default,
{
    if path_eq(sensitive[k], rv.path) {
        assert(exists|j: int| 0 <= j < sensitive.len() && path_eq(#[trigger] sensitive[j], rv.path));
    } else {
        assert(exists|j: int|
            0 <= j < sensitive.len() && !path_eq(#[trigger] sensitive[j], rv.path) && path_starts_with(sensitive[j], a.path));
    }
}

/// A shared component is protected and never offered for removal.
pub proof fn law_shared_components_are_kept(rv: RelatedFileView, a: AssociationView, sensitive: Seq<Seq<char>>)
    requires
        a.reason == MatchReason::SharedComponent,
    ensures
        finished(rv, a, sensitive).safety_class == SafetyClass::Protected,
        !finished(rv, a, sensitive).offered_for_removal,
        !finished(rv, a, sensitive).selected_by_default,
{
}

pub fn finish_related_file(
    related: RelatedFile,
    association: &Association,
    sensitive_paths: &Vec<String>,
) -> (r: RelatedFile)
    ensures
        r@ == finished(related@, association@, crate::applications::names::string_views(sensitive_paths@)),
{
    let ghost sv = crate::applications::names::string_views(sensitive_paths@);
    let mut related = related;
    related.evidence.reason = association.reason;
    related.evidence.strength = association.strength;
    related.evidence.explanation = association.explanation.clone();
    let shared = match association.reason {
        MatchReason::SharedComponent => true,
        _ => false,
    };
    if shared {
        related.offered_for_removal = false;
    }
    let mut is_sensitive = false;
    let mut protects_descendant = false;
    let mut k: usize = 0;
    while k < sensitive_paths.len()
        invariant
            sv == crate::applications::names::string_views(sensitive_paths@),
            k <= sensitive_paths@.len(),
            is_sensitive == exists|j: int| 0 <= j < k && path_eq(#[trigger] sv[j], related.path@),
            protects_descendant == exists|j: int|
                0 <= j < k && !path_eq(#[trigger] sv[j], related.path@) && path_starts_with(
                    sv[j],
                    association.candidate.path@,
                ),
        decreases sensitive_paths@.len() - k,
    {
        assert(sv[k as int] == sensitive_paths@[k as int]@);
        let same = paths_equal(sensitive_paths[k].as_str(), related.path.as_str());
        if same {
            is_sensitive = true;
        } else if starts_with(sensitive_paths[k].as_str(), association.candidate.path.as_str()) {
            protects_descendant = true;
        }
        k = k + 1;
    }
    if is_sensitive || protects_descendant {
        related.evidence.reason = MatchReason::SensitiveCredential;
        related.evidence.explanation = owned("Contains or is a licence, authentication token, or account credential");
        related.safety_class = SafetyClass::Protected;
    }
    if shared {
        related.safety_class = SafetyClass::Protected;
    }
    let rebuildable = match related.safety_class {
        SafetyClass::Rebuildable => true,
        _ => false,
    };
    let strong = match related.evidence.strength {
        MatchStrength::Strong => true,
        _ => false,
    };
    related.selected_by_default = rebuildable && strong;
    related
}

/// The paths of the tied candidates whose file is named as a credential.
pub fn sensitive_paths_for(associations: &Vec<Association>) -> (r: Vec<String>)
    ensures
        crate::applications::names::string_views(r@) == sensitive_paths_of(association_views(associations@)),
{
    let ghost av = association_views(associations@);
    let mut out: Vec<String> = Vec::new();
    let mut i: usize = 0;
    while i < associations.len()
        invariant
            av == association_views(associations@),
            i <= associations@.len(),
            crate::applications::names::string_views(out@) == sensitive_paths_of(av.subrange(0, i as int)),
        decreases associations@.len() - i,
    {
        let ghost next = av.subrange(0, i + 1);
        assert(next.drop_last() =~= av.subrange(0, i as int));
        assert(next.last() == associations@[i as int]@);
        let path = &associations[i].candidate.path;
        if is_sensitive_path(path) {
            let ghost before = crate::applications::names::string_views(out@);
            out.push(path.clone());
            assert(crate::applications::names::string_views(out@) =~= before.push(path@));
        }
        i = i + 1;
    }
    assert(av.subrange(0, av.len() as int) =~= av);
    out
}

/// The sort key of each file's path.
pub open spec fn file_path_keys(files: Seq<RelatedFile>) -> Seq<Seq<u64>> {
    files.map_values(|f: RelatedFile| path_order_key(f.path@))
}

/// File `f` was measured for one of the listed ties and finished by it.
pub open spec fn from_listed_tie(f: RelatedFileView, assocs: Seq<Association>) -> bool {
    exists|i: int|
        0 <= i < assocs.len() && eligible(#[trigger] assocs[i]@) && exists|v: u64|
            f == finished(
                related_file_view(assocs[i].candidate, v),
                assocs[i]@,
                sensitive_paths_of(association_views(assocs)),
            )
}

/// A related file as the inventory lists it: never selected by default, never
/// rebuildable, and, as a shared component, protected and not offered for removal.
pub open spec fn listed_safely(f: RelatedFileView) -> bool {
    &&& !f.selected_by_default
    &&& f.safety_class != SafetyClass::Rebuildable
    &&& f.evidence.reason == MatchReason::SharedComponent ==> f.safety_class == SafetyClass::Protected
        && !f.offered_for_removal
}

/// Every file measured and finished for a listed tie is listed safely.
pub proof fn lemma_listed_tie_is_safe(f: RelatedFileView, assocs: Seq<Association>)
    requires
        from_listed_tie(f, assocs),
    ensures
        listed_safely(f),
{
    let i = choose|i: int|
        0 <= i < assocs.len() && eligible(#[trigger] assocs[i]@) && exists|v: u64|
            f == finished(
                related_file_view(assocs[i].candidate, v),
                assocs[i]@,
                sensitive_paths_of(association_views(assocs)),
            );
    let v = choose|v: u64|
        f == finished(
            related_file_view(assocs[i].candidate, v),
            assocs[i]@,
            sensitive_paths_of(association_views(assocs)),
        );
    law_related_files_never_preselected(assocs[i].candidate, v, assocs[i]@, sensitive_paths_of(association_views(assocs)));
}

/// Some listed file has the path `p`, compared as paths are ordered.
pub open spec fn lists_path(files: Seq<RelatedFile>, p: Seq<char>) -> bool {
    exists|k: int| 0 <= k < files.len() && #[trigger] path_order_key(files[k].path@) == path_order_key(p)
}

/// `measured` holds, for each listed tie, what measuring its candidate through `adapter`
/// gave; each of those measurements succeeded, and every file it found is listed under
/// the candidate's path, whatever the reason of the tie.
pub open spec fn lists_every_measured_tie<A: ApplicationPlatform>(
    adapter: &A,
    assocs: Seq<Association>,
    measured: Seq<Result<Option<RelatedFile>, PlatformError>>,
    files: Seq<RelatedFile>,
) -> bool {
    &&& measured.len() == assocs.len()
    &&& forall|i: int|
        0 <= i < assocs.len() && eligible(#[trigger] assocs[i]@) ==> {
            &&& built_through(adapter, assocs[i].candidate, measured[i])
            &&& measured[i] is Ok
            &&& (match measured[i] {
                Ok(Some(_)) => lists_path(files, assocs[i].candidate.path@),
                _ => true,
            })
        }
}

/// The ties that are listed: an entry directly under its data root, a file named as a
/// credential, and a shared component, whatever else holds of them.
pub proof fn law_listed_ties(a: AssociationView)
    ensures
        top_level(a.path, a.root_path) ==> eligible(a),
        sensitive(a.path) ==> eligible(a),
        a.reason == MatchReason::SharedComponent ==> eligible(a),
        eligible(a) ==> top_level(a.path, a.root_path) || sensitive(a.path) || a.reason
            == MatchReason::SharedComponent,
{
}

/// Completeness: every listed tie (an entry directly under its data root, a credential or
/// a shared component) whose candidate was found and measured yields a listed related file
/// at the candidate's path, whether it was tied by bundle identifier, developer or a
/// similar name.
pub proof fn law_every_measured_tie_is_listed<A: ApplicationPlatform>(
    adapter: &A,
    assocs: Seq<Association>,
    measured: Seq<Result<Option<RelatedFile>, PlatformError>>,
    files: Seq<RelatedFile>,
    i: int,
)
    requires
        lists_every_measured_tie(adapter, assocs, measured, files),
        0 <= i < assocs.len(),
        eligible(assocs[i]@),
        measured[i] matches Ok(Some(_)),
    ensures
        exists|k: int|
            0 <= k < files.len() && #[trigger] path_order_key(files[k].path@) == path_order_key(
                assocs[i].candidate.path@,
            ),
{
    assert(lists_path(files, assocs[i].candidate.path@));
}

/// The files of the listed ties, measured, finished, sorted by path, with one file per
/// path. A tie whose file has vanished lists nothing; an error in measuring is returned.
pub fn related_files_for_application<A: ApplicationPlatform>(
    adapter: &A,
    associations: &Vec<Association>,
) -> (r: Result<Vec<RelatedFile>, PlatformError>)
    ensures
        r matches Ok(files) ==> {
            &&& strictly_sorted(file_path_keys(files@))
            &&& forall|k: int| 0 <= k < files@.len() ==> from_listed_tie(#[trigger] files@[k]@, associations@)
            &&& forall|k: int| 0 <= k < files@.len() ==> listed_safely(#[trigger] files@[k]@)
        },
        (forall|i: int| 0 <= i < associations@.len() ==> !eligible(#[trigger] associations@[i]@)) ==> (r matches Ok(
            files,
        ) && files@.len() == 0),
        r matches Err(e) ==> !(e is NotFound) && exists|i: int|
            0 <= i < associations@.len() && eligible(#[trigger] associations@[i]@),
        r matches Err(e) ==> exists|p: Seq<char>| #[trigger] adapter.reports_footprint(p, Err(e)),
        r matches Ok(files) ==> exists|measured: Seq<Result<Option<RelatedFile>, PlatformError>>|
            #[trigger] lists_every_measured_tie(adapter, associations@, measured, files@),
{
    let sensitive_paths = sensitive_paths_for(associations);
    let ghost sv = crate::applications::names::string_views(sensitive_paths@);
    let mut files: Vec<RelatedFile> = Vec::new();
    let mut keys: Vec<Vec<u64>> = Vec::new();
    let ghost mut measured: Seq<Result<Option<RelatedFile>, PlatformError>> = Seq::empty();
    let mut i: usize = 0;
    while i < associations.len()
        invariant
            sv == crate::applications::names::string_views(sensitive_paths@),
            sv == sensitive_paths_of(association_views(associations@)),
            i <= associations@.len(),
            measured.len() == i,
            forall|j: int|
                0 <= j < i && eligible(#[trigger] associations@[j]@) ==> {
                    &&& built_through(adapter, associations@[j].candidate, measured[j])
                    &&& measured[j] is Ok
                    &&& (match measured[j] {
                        Ok(Some(_)) => key_present(path_order_key(associations@[j].candidate.path@), key_views(keys@)),
                        _ => true,
                    })
                },
            files@.len() == keys@.len(),
            forall|k: int| 0 <= k < keys@.len() ==> #[trigger] key_views(keys@)[k] == path_order_key(files@[k].path@),
            forall|k: int| 0 <= k < files@.len() ==> from_listed_tie(#[trigger] files@[k]@, associations@),
            files@.len() > 0 ==> exists|j: int| 0 <= j < i && eligible(#[trigger] associations@[j]@),
        decreases associations@.len() - i,
    {
        let association = &associations[i];
        let eligible_here = is_top_level_path(&association.candidate.path, &association.candidate.root.path)
            || is_sensitive_path(&association.candidate.path) || match association.reason {
            MatchReason::SharedComponent => true,
            _ => false,
        };
        let ghost kb0 = key_views(keys@);
        if eligible_here {
            let built = build_related_file(adapter, &association.candidate);
            proof {
                measured = measured.push(built);
            }
            match built {
                Err(e) => {
                    assert(eligible(associations@[i as int]@));
                    assert(adapter.reports_footprint(association.candidate.path@, Err(e)));
                    return Err(e);
                },
                Ok(None) => {},
                Ok(Some(related)) => {
                    let ghost v = choose|v: u64| related@ == related_file_view(association.candidate, v);
                    let finished_file = finish_related_file(related, association, &sensitive_paths);
                    assert(association_views(associations@)[i as int] == association@);
                    assert(from_listed_tie(finished_file@, associations@)) by {
                        assert(eligible(associations@[i as int]@));
                        assert(finished_file@ == finished(
                            related_file_view(associations@[i as int].candidate, v),
                            associations@[i as int]@,
                            sensitive_paths_of(association_views(associations@)),
                        ));
                    }
                    let key = path_order_key_exec(&finished_file.path);
                    let ghost kb = key_views(keys@);
                    let ghost fb = files@;
                    files.push(finished_file);
                    keys.push(key);
                    assert(key_views(keys@) =~= kb.push(key@));
                    assert forall|k: int| 0 <= k < files@.len() implies from_listed_tie(#[trigger] files@[k]@, associations@) by {
                        if k < fb.len() {
                            assert(files@[k] == fb[k]);
                        }
                    }
                    assert(key_views(keys@)[kb.len() as int] == path_order_key(association.candidate.path@));
                },
            }
        } else {
            proof {
                measured = measured.push(Ok(None));
            }
        }
        proof {
            assert forall|j: int|
                0 <= j < i + 1 && eligible(#[trigger] associations@[j]@) implies {
                    &&& built_through(adapter, associations@[j].candidate, measured[j])
                    &&& measured[j] is Ok
                    &&& (match measured[j] {
                        Ok(Some(_)) => key_present(path_order_key(associations@[j].candidate.path@), key_views(keys@)),
                        _ => true,
                    })
                } by {
                if j < i {
                    if let Ok(Some(_)) = measured[j] {
                        let q = choose|q: int| 0 <= q < kb0.len() && kb0[q] == path_order_key(associations@[j].candidate.path@);
                        assert(key_views(keys@)[q] == kb0[q]);
                    }
                } else {
                    if let Ok(Some(_)) = measured[j] {
                        assert(key_views(keys@)[kb0.len() as int] == path_order_key(associations@[j].candidate.path@));
                    }
                }
            }
        }
        i = i + 1;
    }
    let ghost in_files = files@;
    let ghost in_keys = key_views(keys@);
    let (sorted, sorted_keys) = sort_dedup_keyed(files, keys);
    proof {
        assert forall|k: int| 0 <= k < sorted@.len() implies #[trigger] file_path_keys(sorted@)[k] == key_views(sorted_keys@)[k] by {
            assert(comes_from(key_views(sorted_keys@)[k], sorted@[k], in_keys, in_files));
            let p = choose|p: int| 0 <= p < in_files.len() && in_keys[p] == key_views(sorted_keys@)[k] && in_files[p] == sorted@[k];
            assert(in_keys[p] == path_order_key(in_files[p].path@));
        }
        assert(file_path_keys(sorted@) =~= key_views(sorted_keys@));
        assert forall|k: int| 0 <= k < sorted@.len() implies from_listed_tie(#[trigger] sorted@[k]@, associations@) by {
            assert(comes_from(key_views(sorted_keys@)[k], sorted@[k], in_keys, in_files));
            let p = choose|p: int| 0 <= p < in_files.len() && in_keys[p] == key_views(sorted_keys@)[k] && in_files[p] == sorted@[k];
            assert(from_listed_tie(in_files[p]@, associations@));
        }
    }
    proof {
        assert forall|k: int| 0 <= k < sorted@.len() implies listed_safely(#[trigger] sorted@[k]@) by {
            lemma_listed_tie_is_safe(sorted@[k]@, associations@);
        }
        assert forall|j: int|
            0 <= j < associations@.len() && eligible(#[trigger] associations@[j]@) && measured[j] matches Ok(
                Some(_),
            ) implies lists_path(sorted@, associations@[j].candidate.path@) by {
            let p = choose|p: int| 0 <= p < in_keys.len() && in_keys[p] == path_order_key(associations@[j].candidate.path@);
            assert(key_present(in_keys[p], key_views(sorted_keys@)));
            let q = choose|q: int| 0 <= q < key_views(sorted_keys@).len() && key_views(sorted_keys@)[q] == in_keys[p];
            assert(file_path_keys(sorted@)[q] == path_order_key(sorted@[q].path@));
        }
        assert(lists_every_measured_tie(adapter, associations@, measured, sorted@));
    }
    let r: Result<Vec<RelatedFile>, PlatformError> = Ok(sorted);
    assert(r matches Ok(files) && lists_every_measured_tie(adapter, associations@, measured, files@));
    r
}

} // verus!
