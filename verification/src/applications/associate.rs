//! Which candidates belong to an application, and why.

use vstd::prelude::*;
use crate::applications::model::{Association, AssociationView, Candidate, MatchReason, MatchStrength, clone_candidate};
use crate::applications::names::{
    developer_name, developer_of, exact_identity, has_ancestor_name, is_exact_identity_candidate,
    name_of, named_after, names_are_similar, similar, string_views, candidate_name,
};
use crate::paths::file_name;
use crate::platform::{ApplicationDataRootKind, ApplicationMetadata};
use crate::text::{concat2, concat3, decimal, opt_view, owned, u64_to_decimal};

verus! {

/// The character sequences of each list of strings.
pub open spec fn list_views(lists: Seq<Vec<String>>) -> Seq<Seq<Seq<char>>> {
    lists.map_values(|l: Vec<String>| string_views(l@))
}

/// How many times `name` occurs in one list.
pub open spec fn count_in(list: Seq<Seq<char>>, name: Seq<char>) -> nat
    decreases list.len(),
{
    if list.len() == 0 {
        0
    } else {
        count_in(list.drop_last(), name) + if list.last() == name {
            1nat
        } else {
            0nat
        }
    }
}

/// How many times `name` occurs over all the lists: the number of installed applications
/// that ship the component, counting an application once per listing.
pub open spec fn occurrences(lists: Seq<Seq<Seq<char>>>, name: Seq<char>) -> nat
    decreases lists.len(),
{
    if lists.len() == 0 {
        0
    } else {
        occurrences(lists.drop_last(), name) + count_in(lists.last(), name)
    }
}

/// A count held in a `u64`, which stops at its largest value.
pub open spec fn capped(n: nat) -> u64 {
    if n > u64::MAX {
        u64::MAX
    } else {
        n as u64
    }
}

/// The number of occurrences of `name` in the lists, stopping at `u64::MAX`.
pub fn usage_count(lists: &Vec<Vec<String>>, name: &str) -> (n: u64)
    ensures
        n == capped(occurrences(list_views(lists@), name@)),
{
    let ghost all = list_views(lists@);
    let mut n: u64 = 0;
    let mut a: usize = 0;
    while a < lists.len()
        invariant
            all == list_views(lists@),
            a <= lists@.len(),
            n == capped(occurrences(all.subrange(0, a as int), name@)),
        decreases lists@.len() - a,
    {
        let list = &lists[a];
        let ghost lv = string_views(list@);
        assert(all[a as int] == lv);
        let mut i: usize = 0;
        let ghost base = occurrences(all.subrange(0, a as int), name@);
        while i < list.len()
            invariant
                lv == string_views(list@),
                i <= list@.len(),
                n == capped(base + count_in(lv.subrange(0, i as int), name@)),
            decreases list@.len() - i,
        {
            assert(lv[i as int] == list@[i as int]@);
            assert(lv.subrange(0, i + 1).drop_last() =~= lv.subrange(0, i as int));
            if crate::text::str_eq(list[i].as_str(), name) {
                if n < u64::MAX {
                    n = n + 1;
                }
            }
            i = i + 1;
        }
        assert(lv.subrange(0, lv.len() as int) =~= lv);
        assert(all.subrange(0, a + 1).drop_last() =~= all.subrange(0, a as int));
        a = a + 1;
    }
    assert(all.subrange(0, all.len() as int) =~= all);
    n
}

/// The wording for a shared component: its name, how many applications use it, and that
/// it is excluded.
pub open spec fn shared_explanation(name: Seq<char>, usage: u64) -> Seq<char> {
    name + " is used by "@ + decimal(usage as nat) + " installed applications and is excluded from removal"@
}

/// A framework used by at least two installed applications, one of them this one, is
/// tied to it as a shared component and excluded from removal.
pub open spec fn shared_association(
    c: Candidate,
    lists: Seq<Seq<Seq<char>>>,
    shared: Seq<Seq<char>>,
) -> Option<AssociationView> {
    if c.root.kind != ApplicationDataRootKind::Frameworks {
        None
    } else {
        match file_name(c.path@) {
            None => None,
            Some(name) => {
                let usage = capped(occurrences(lists, name));
                if !shared.contains(name) || usage < 2 {
                    None
                } else {
                    Some(AssociationView {
                        path: c.path@,
                        root_path: c.root.path@,
                        root_kind: c.root.kind,
                        reason: MatchReason::SharedComponent,
                        strength: MatchStrength::Excluded,
                        explanation: shared_explanation(name, usage),
                    })
                }
            },
        }
    }
}

fn list_contains(list: &Vec<String>, name: &str) -> (r: bool)
    ensures
        r == string_views(list@).contains(name@),
{
    let ghost lv = string_views(list@);
    let mut i: usize = 0;
    while i < list.len()
        invariant
            lv == string_views(list@),
            i <= list@.len(),
            forall|j: int| 0 <= j < i ==> lv[j] != name@,
        decreases list@.len() - i,
    {
        assert(lv[i as int] == list@[i as int]@);
        if crate::text::str_eq(list[i].as_str(), name) {
            return true;
        }
        i = i + 1;
    }
    false
}

pub fn shared_component_association(
    candidate: &Candidate,
    component_lists: &Vec<Vec<String>>,
    shared_components: &Vec<String>,
) -> (r: Option<Association>)
    ensures
        match r {
            Some(a) => shared_association(*candidate, list_views(component_lists@), string_views(shared_components@)) == Some(a@),
            None => shared_association(*candidate, list_views(component_lists@), string_views(shared_components@)) is None,
        },
{
    if candidate.root.kind != ApplicationDataRootKind::Frameworks {
        return None;
    }
    let name = match crate::paths::file_name_of(&candidate.path) {
        Some(n) => n,
        None => return None,
    };
    if !list_contains(shared_components, &name) {
        return None;
    }
    let usage = usage_count(component_lists, &name);
    if usage < 2 {
        return None;
    }
    let count = u64_to_decimal(usage);
    let head = concat3(&name, " is used by ", &count);
    let explanation = concat2(&head, " installed applications and is excluded from removal");
    Some(Association {
        candidate: clone_candidate(candidate),
        reason: MatchReason::SharedComponent,
        strength: MatchStrength::Excluded,
        explanation,
    })
}

/// The developer as the explanation names it: the declared developer, else a note that
/// the name was derived from the bundle identifier.
pub open spec fn developer_wording(developer_name: Option<Seq<char>>) -> Seq<char> {
    match developer_name {
        Some(d) => d,
        None => "derived from the bundle identifier"@,
    }
}

/// The tie of candidate `c` with the given reason, strength and wording.
pub open spec fn tie(
    c: Candidate,
    reason: MatchReason,
    strength: MatchStrength,
    explanation: Seq<char>,
) -> Option<AssociationView> {
    Some(AssociationView {
        path: c.path@,
        root_path: c.root.path@,
        root_kind: c.root.kind,
        reason,
        strength,
        explanation,
    })
}

/// How a candidate is tied to an application, in order of precedence: as a shared
/// component; by its bundle identifier; by a directory named after the developer; by a
/// similar name. Nothing is tied to an application without a bundle identifier.
pub open spec fn association_of(
    meta: ApplicationMetadata,
    c: Candidate,
    lists: Seq<Seq<Seq<char>>>,
    shared: Seq<Seq<char>>,
) -> Option<AssociationView> {
    match meta.bundle_identifier {
        None => None,
        Some(b) => {
            if shared_association(c, lists, shared) is Some {
                shared_association(c, lists, shared)
            } else if exact_identity(c.path@, c.root.path@, Some(b@)) {
                tie(
                    c,
                    MatchReason::ExactBundleIdentifier,
                    MatchStrength::Strong,
                    "Matched by bundle identifier "@ + b@,
                )
            } else if named_after(
                c.path@,
                c.root.path@,
                developer_of(opt_view(meta.developer_name), opt_view(meta.bundle_identifier)),
            ) {
                tie(
                    c,
                    MatchReason::DeveloperDirectory,
                    MatchStrength::Weak,
                    "Path is inside a directory named after developer "@ + developer_wording(
                        opt_view(meta.developer_name),
                    ),
                )
            } else if similar(name_of(c.path@), meta.name@) {
                tie(
                    c,
                    MatchReason::SimilarName,
                    MatchStrength::Guess,
                    "Name looks similar; this is a guess, not an identity match"@,
                )
            } else {
                None
            }
        },
    }
}

/// The ties of the first `n` candidates, in candidate order.
pub open spec fn associations_upto(
    meta: ApplicationMetadata,
    cands: Seq<Candidate>,
    lists: Seq<Seq<Seq<char>>>,
    shared: Seq<Seq<char>>,
    n: int,
) -> Seq<AssociationView>
    decreases n,
{
    if n <= 0 {
        Seq::empty()
    } else {
        let before = associations_upto(meta, cands, lists, shared, n - 1);
        match association_of(meta, cands[n - 1], lists, shared) {
            Some(a) => before.push(a),
            None => before,
        }
    }
}

proof fn lemma_nothing_without_identifier(
    meta: ApplicationMetadata,
    cands: Seq<Candidate>,
    lists: Seq<Seq<Seq<char>>>,
    shared: Seq<Seq<char>>,
    n: int,
)
    requires
        meta.bundle_identifier is None,
    ensures
        associations_upto(meta, cands, lists, shared, n) == Seq::<AssociationView>::empty(),
    decreases n,
{
    if n > 0 {
        lemma_nothing_without_identifier(meta, cands, lists, shared, n - 1);
    }
}

pub open spec fn association_views(v: Seq<Association>) -> Seq<AssociationView> {
    v.map_values(|a: Association| a@)
}

fn association_for(
    metadata: &ApplicationMetadata,
    bundle_identifier: &str,
    developer: &str,
    candidate: &Candidate,
    component_lists: &Vec<Vec<String>>,
    shared_components: &Vec<String>,
) -> (r: Option<Association>)
    requires
        opt_view(metadata.bundle_identifier) == Some(bundle_identifier@),
        developer@ == developer_of(opt_view(metadata.developer_name), opt_view(metadata.bundle_identifier)),
    ensures
        match r {
            Some(a) => association_of(*metadata, *candidate, list_views(component_lists@), string_views(shared_components@)) == Some(a@),
            None => association_of(*metadata, *candidate, list_views(component_lists@), string_views(shared_components@)) is None,
        },
{
    if let Some(association) = shared_component_association(candidate, component_lists, shared_components) {
        return Some(association);
    }
    if is_exact_identity_candidate(&candidate.path, &candidate.root.path, Some(bundle_identifier)) {
        return Some(Association {
            candidate: clone_candidate(candidate),
            reason: MatchReason::ExactBundleIdentifier,
            strength: MatchStrength::Strong,
            explanation: concat2("Matched by bundle identifier ", bundle_identifier),
        });
    }
    if has_ancestor_name(&candidate.path, &candidate.root.path, developer) {
        let wording = match &metadata.developer_name {
            Some(d) => d.clone(),
            None => owned("derived from the bundle identifier"),
        };
        return Some(Association {
            candidate: clone_candidate(candidate),
            reason: MatchReason::DeveloperDirectory,
            strength: MatchStrength::Weak,
            explanation: concat2("Path is inside a directory named after developer ", &wording),
        });
    }
    if names_are_similar(&candidate_name(&candidate.path), &metadata.name) {
        return Some(Association {
            candidate: clone_candidate(candidate),
            reason: MatchReason::SimilarName,
            strength: MatchStrength::Guess,
            explanation: owned("Name looks similar; this is a guess, not an identity match"),
        });
    }
    None
}

/// The candidates tied to the application, each with the first reason that applies.
pub fn associations_for_application(
    metadata: &ApplicationMetadata,
    candidates: &Vec<Candidate>,
    component_lists: &Vec<Vec<String>>,
    shared_components: &Vec<String>,
) -> (r: Vec<Association>)
    ensures
        association_views(r@) == associations_upto(
            *metadata,
            candidates@,
            list_views(component_lists@),
            string_views(shared_components@),
            candidates@.len() as int,
        ),
{
    let ghost lists = list_views(component_lists@);
    let ghost shared = string_views(shared_components@);
    let mut out: Vec<Association> = Vec::new();
    let bundle_identifier = match &metadata.bundle_identifier {
        Some(b) => b,
        None => {
            proof {
                lemma_nothing_without_identifier(*metadata, candidates@, lists, shared, candidates@.len() as int);
            }
            assert(association_views(out@) =~= Seq::<AssociationView>::empty());
            return out;
        },
    };
    let developer = developer_name(metadata);
    let mut i: usize = 0;
    while i < candidates.len()
        invariant
            lists == list_views(component_lists@),
            shared == string_views(shared_components@),
            opt_view(metadata.bundle_identifier) == Some(bundle_identifier@),
            developer@ == developer_of(opt_view(metadata.developer_name), opt_view(metadata.bundle_identifier)),
            i <= candidates@.len(),
            association_views(out@) == associations_upto(*metadata, candidates@, lists, shared, i as int),
        decreases candidates@.len() - i,
    {
        let found = association_for(
            metadata,
            bundle_identifier.as_str(),
            developer.as_str(),
            &candidates[i],
            component_lists,
            shared_components,
        );
        match found {
            Some(a) => {
                let ghost before = association_views(out@);
                let ghost av = a@;
                out.push(a);
                assert(association_views(out@) =~= before.push(av));
            },
            None => {},
        }
        i = i + 1;
    }
    out
}

} // verus!
