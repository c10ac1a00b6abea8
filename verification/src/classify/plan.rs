//! Admission of classified findings into an immutable review plan, and the revalidation
//! of a plan item immediately before execution.

use vstd::prelude::*;
use crate::classify::catalogue::{ClassifiedFinding, RuleCatalogue};
use crate::classify::class::{PlannableClass, PlannableSafetyMarker, ProtectedClassRejection, SafetyClass};
use crate::classify::evidence::{Evidence, EvidenceValidationError};
use crate::classify::matcher::MatchContext;
use crate::paths::{path_eq, paths_equal};
use crate::platform::{EntryMetadata, EntryType, FileIdentity, PlatformAdapter, PlatformError, ResolvedPath};
use crate::text::{concat2, concat3, decimal, u64_to_decimal};

verus! {

/// Typed errors when attempting to admit a finding into a deletion plan.
#[derive(Debug, Clone, PartialEq, Eq)]
pub enum PlanConstructionError {
    /// Protected roots and assets are barred from entering a plan.
    ProtectedItemRejected { path: String, rule_id: String, reason: String },
    /// An evidence record was missing or empty.
    InvalidEvidence(EvidenceValidationError),
    /// The safety class could not be converted to a plannable class.
    NonPlannableClass(ProtectedClassRejection),
}

/// An immutable item admitted into a review plan. Its class is a `PlannableClass`, so it
/// cannot hold `SafetyClass::Protected`.
#[derive(Debug, Clone, PartialEq, Eq)]
pub struct PlanItem {
    pub item_id: String,
    pub original_path: String,
    pub canonical_path: String,
    pub identity: FileIdentity,
    pub size_bytes: u64,
    pub class: PlannableClass,
    pub rule_id: String,
    pub rule_version: u32,
    pub evidence: Evidence,
}

/// A finding classified at compile time by its marker type.
#[derive(Debug, Clone, PartialEq, Eq)]
pub struct StaticallyClassifiedFinding<M> {
    pub path: String,
    pub canonical_path: String,
    pub identity: FileIdentity,
    pub size_bytes: u64,
    pub marker: M,
    pub evidence: Evidence,
}

impl<M> StaticallyClassifiedFinding<M> {
    pub fn new(
        marker: M,
        path: String,
        canonical_path: String,
        identity: FileIdentity,
        size_bytes: u64,
        evidence: Evidence,
    ) -> (f: Self)
        ensures
            f == (StaticallyClassifiedFinding {
                path,
                canonical_path,
                identity,
                size_bytes,
                marker,
                evidence,
            }),
    {
        StaticallyClassifiedFinding { path, canonical_path, identity, size_bytes, marker, evidence }
    }
}

/// Builder for constructing immutable deletion plans with strict safety gating.
#[derive(Debug, Clone)]
pub struct PlanBuilder {
    pub plan_id: String,
    pub session_id: String,
    items: Vec<PlanItem>,
}

/// An admitted item is consistent with its evidence: the evidence validates and the item
/// carries the evidence's rule identifier and version.
pub open spec fn admitted_item_ok(item: PlanItem) -> bool {
    &&& item.evidence.spec_validation() is Ok
    &&& item.rule_id == item.evidence.rule_id
    &&& item.rule_version == item.evidence.rule_version
}

impl PlanBuilder {
    /// The items admitted so far, in admission order.
    pub closed spec fn spec_items(&self) -> Seq<PlanItem> {
        self.items@
    }

    pub closed spec fn spec_plan_id(&self) -> String {
        self.plan_id
    }

    pub closed spec fn spec_session_id(&self) -> String {
        self.session_id
    }

    /// Every admitted item is consistent with its evidence.
    pub open spec fn wf(&self) -> bool {
        forall|i: int| 0 <= i < self.spec_items().len() ==> admitted_item_ok(#[trigger] self.spec_items()[i])
    }

    pub fn new(plan_id: String, session_id: String) -> (b: Self)
        ensures
            b.spec_plan_id() == plan_id,
            b.spec_session_id() == session_id,
            b.spec_items().len() == 0,
            b.wf(),
    {
        PlanBuilder { plan_id, session_id, items: Vec::new() }
    }

    /// Admits a finding whose marker type proves at compile time that its class is
    /// plannable. Rejects it, leaving the plan unchanged, when its evidence is invalid.
    pub fn add_static_finding<M: PlannableSafetyMarker>(
        &mut self,
        item_id: String,
        finding: StaticallyClassifiedFinding<M>,
    ) -> (r: Result<&PlanItem, PlanConstructionError>)
        ensures
            final(self).spec_plan_id() == old(self).spec_plan_id(),
            final(self).spec_session_id() == old(self).spec_session_id(),
            match finding.evidence.spec_validation() {
                Err(e) => {
                    &&& r == Err::<&PlanItem, PlanConstructionError>(
                        PlanConstructionError::InvalidEvidence(e),
                    )
                    &&& final(self).spec_items() == old(self).spec_items()
                },
                Ok(_) => {
                    let item = PlanItem {
                        item_id,
                        original_path: finding.path,
                        canonical_path: finding.canonical_path,
                        identity: finding.identity,
                        size_bytes: finding.size_bytes,
                        class: M::spec_plannable_class(),
                        rule_id: finding.evidence.rule_id,
                        rule_version: finding.evidence.rule_version,
                        evidence: finding.evidence,
                    };
                    &&& final(self).spec_items() == old(self).spec_items().push(item)
                    &&& r matches Ok(added) && *added == item
                },
            },
            old(self).wf() ==> final(self).wf(),
    {
        if let Err(e) = finding.evidence.validate() {
            return Err(PlanConstructionError::InvalidEvidence(e));
        }
        let plan_item = PlanItem {
            item_id,
            original_path: finding.path,
            canonical_path: finding.canonical_path,
            identity: finding.identity,
            size_bytes: finding.size_bytes,
            class: M::plannable_class(),
            rule_id: finding.evidence.rule_id.clone(),
            rule_version: finding.evidence.rule_version,
            evidence: finding.evidence,
        };
        self.items.push(plan_item);
        proof {
            if old(self).wf() {
                assert forall|i: int| 0 <= i < self.spec_items().len() implies admitted_item_ok(
                    #[trigger] self.spec_items()[i],
                ) by {
                    if i < self.spec_items().len() - 1 {
                        assert(self.spec_items()[i] == old(self).spec_items()[i]);
                    }
                }
            }
        }
        let n = self.items.len();
        Ok(&self.items[n - 1])
    }

    /// Admits a classified scan finding into the plan. Invalid evidence is rejected first;
    /// a `Protected` finding is rejected with its path, rule and reason. A rejected finding
    /// leaves the plan unchanged.
    pub fn add_classified_finding(
        &mut self,
        item_id: String,
        finding: &ClassifiedFinding,
        identity: FileIdentity,
    ) -> (r: Result<&PlanItem, PlanConstructionError>)
        ensures
            final(self).spec_plan_id() == old(self).spec_plan_id(),
            final(self).spec_session_id() == old(self).spec_session_id(),
            match finding.evidence.spec_validation() {
                Err(e) => {
                    &&& r == Err::<&PlanItem, PlanConstructionError>(
                        PlanConstructionError::InvalidEvidence(e),
                    )
                    &&& final(self).spec_items() == old(self).spec_items()
                },
                Ok(_) => if finding.safety_class == SafetyClass::Protected {
                    &&& r == Err::<&PlanItem, PlanConstructionError>(
                        PlanConstructionError::ProtectedItemRejected {
                            path: finding.path,
                            rule_id: finding.evidence.rule_id,
                            reason: finding.evidence.matched_reason,
                        },
                    )
                    &&& final(self).spec_items() == old(self).spec_items()
                } else {
                    let item = PlanItem {
                        item_id,
                        original_path: finding.path,
                        canonical_path: finding.canonical_path,
                        identity,
                        size_bytes: finding.size_bytes,
                        class: if finding.safety_class == SafetyClass::Rebuildable {
                            PlannableClass::Rebuildable
                        } else {
                            PlannableClass::Review
                        },
                        rule_id: finding.evidence.rule_id,
                        rule_version: finding.evidence.rule_version,
                        evidence: finding.evidence,
                    };
                    &&& final(self).spec_items() == old(self).spec_items().push(item)
                    &&& r matches Ok(added) && *added == item
                },
            },
            old(self).wf() ==> final(self).wf(),
    {
        if let Err(e) = finding.evidence.validate() {
            return Err(PlanConstructionError::InvalidEvidence(e));
        }
        let plannable_class = match finding.safety_class {
            SafetyClass::Protected => {
                return Err(
                    PlanConstructionError::ProtectedItemRejected {
                        path: finding.path.clone(),
                        rule_id: finding.evidence.rule_id.clone(),
                        reason: finding.evidence.matched_reason.clone(),
                    },
                );
            },
            SafetyClass::Rebuildable => PlannableClass::Rebuildable,
            SafetyClass::Review => PlannableClass::Review,
        };
        let plan_item = PlanItem {
            item_id,
            original_path: finding.path.clone(),
            canonical_path: finding.canonical_path.clone(),
            identity,
            size_bytes: finding.size_bytes,
            class: plannable_class,
            rule_id: finding.evidence.rule_id.clone(),
            rule_version: finding.evidence.rule_version,
            evidence: finding.evidence.duplicate(),
        };
        self.items.push(plan_item);
        proof {
            if old(self).wf() {
                assert forall|i: int| 0 <= i < self.spec_items().len() implies admitted_item_ok(
                    #[trigger] self.spec_items()[i],
                ) by {
                    if i < self.spec_items().len() - 1 {
                        assert(self.spec_items()[i] == old(self).spec_items()[i]);
                    }
                }
            }
        }
        let n = self.items.len();
        Ok(&self.items[n - 1])
    }

    pub fn items(&self) -> (items: &[PlanItem])
        ensures
            items@ == self.spec_items(),
    {
        self.items.as_slice()
    }
}

/// Reason why pre-execution revalidation failed for a plan item.
#[derive(Debug, Clone, PartialEq, Eq)]
pub enum RevalidationFailure {
    PathVanished(String),
    IdentityChanged { path: String, expected: FileIdentity, actual: FileIdentity },
    CanonicalPathChanged { path: String, expected: String, actual: String },
    ItemBecameProtected { path: String, rule_id: String, reason: String },
    RuleVersionChanged { rule_id: String, plan_version: u32, current_version: u32 },
    PlatformError(String),
}

impl RevalidationFailure {
    /// The human-readable description of the failure.
    pub open spec fn spec_message(&self) -> Seq<char> {
        match self {
            RevalidationFailure::PathVanished(path) => "path vanished before execution: "@ + path@,
            RevalidationFailure::IdentityChanged { path, expected, actual } => "file identity changed for '"@
                + path@ + "' (expected dev:"@ + decimal(expected.device_id as nat) + " ino:"@ + decimal(
                expected.inode as nat,
            ) + ", got dev:"@ + decimal(actual.device_id as nat) + " ino:"@ + decimal(actual.inode as nat)
                + ")"@,
            RevalidationFailure::CanonicalPathChanged { path, expected, actual } => "canonical path shifted for '"@
                + path@ + "' (expected '"@ + expected@ + "', got '"@ + actual@ + "')"@,
            RevalidationFailure::ItemBecameProtected { path, rule_id, reason } => "target at '"@ + path@
                + "' became protected under rule "@ + rule_id@ + " ("@ + reason@ + ")"@,
            RevalidationFailure::RuleVersionChanged { rule_id, plan_version, current_version } => "rule '"@
                + rule_id@ + "' version mismatch (plan had v"@ + decimal(*plan_version as nat)
                + ", catalogue has v"@ + decimal(*current_version as nat) + ")"@,
            RevalidationFailure::PlatformError(err) => "platform error during revalidation: "@ + err@,
        }
    }

    pub fn message(&self) -> (m: String)
        ensures
            m@ == self.spec_message(),
    {
        match self {
            RevalidationFailure::PathVanished(path) => concat2("path vanished before execution: ", path),
            RevalidationFailure::IdentityChanged { path, expected, actual } => {
                let mut m = concat3("file identity changed for '", path, "' (expected dev:");
                m = concat3(&m, &u64_to_decimal(expected.device_id), " ino:");
                m = concat3(&m, &u64_to_decimal(expected.inode), ", got dev:");
                m = concat3(&m, &u64_to_decimal(actual.device_id), " ino:");
                concat3(&m, &u64_to_decimal(actual.inode), ")")
            },
            RevalidationFailure::CanonicalPathChanged { path, expected, actual } => {
                let m = concat3("canonical path shifted for '", path, "' (expected '");
                let m = concat3(&m, expected, "', got '");
                concat3(&m, actual, "')")
            },
            RevalidationFailure::ItemBecameProtected { path, rule_id, reason } => {
                let m = concat3("target at '", path, "' became protected under rule ");
                let m = concat3(&m, rule_id, " (");
                concat3(&m, reason, ")")
            },
            RevalidationFailure::RuleVersionChanged { rule_id, plan_version, current_version } => {
                let m = concat3("rule '", rule_id, "' version mismatch (plan had v");
                let m = concat3(&m, &u64_to_decimal(*plan_version as u64), ", catalogue has v");
                concat3(&m, &u64_to_decimal(*current_version as u64), ")")
            },
            RevalidationFailure::PlatformError(err) => concat2("platform error during revalidation: ", err),
        }
    }
}

/// The verdict of revalidation from what was observed of the item just before execution:
/// its metadata, its resolved path, how the current rules classify it, and the current
/// version of the rule it was admitted under.
pub open spec fn revalidation_verdict(
    item: PlanItem,
    metadata: Result<EntryMetadata, PlatformError>,
    resolved: Result<ResolvedPath, PlatformError>,
    reclassified: ClassifiedFinding,
    current_rule_version: Option<u32>,
) -> Result<(), RevalidationFailure> {
    match metadata {
        Err(PlatformError::NotFound(_)) => Err(RevalidationFailure::PathVanished(item.original_path)),
        Err(err) => Err(RevalidationFailure::PlatformError(string_of(err.spec_message()))),
        Ok(meta) => if meta.identity != item.identity {
            Err(
                RevalidationFailure::IdentityChanged {
                    path: item.original_path,
                    expected: item.identity,
                    actual: meta.identity,
                },
            )
        } else {
            match resolved {
                Err(err) => Err(RevalidationFailure::PlatformError(string_of(err.spec_message()))),
                Ok(res) => if !path_eq(res.canonical@, item.canonical_path@) {
                    Err(
                        RevalidationFailure::CanonicalPathChanged {
                            path: item.original_path,
                            expected: item.canonical_path,
                            actual: res.canonical,
                        },
                    )
                } else if reclassified.safety_class == SafetyClass::Protected {
                    Err(
                        RevalidationFailure::ItemBecameProtected {
                            path: item.original_path,
                            rule_id: reclassified.evidence.rule_id,
                            reason: reclassified.evidence.matched_reason,
                        },
                    )
                } else {
                    match current_rule_version {
                        Some(v) => if v != item.rule_version {
                            Err(
                                RevalidationFailure::RuleVersionChanged {
                                    rule_id: item.rule_id,
                                    plan_version: item.rule_version,
                                    current_version: v,
                                },
                            )
                        } else {
                            Ok(())
                        },
                        None => Ok(()),
                    }
                },
            }
        },
    }
}

/// `r` is the verdict `v`, a platform failure carrying the same message.
pub open spec fn verdict_agrees(r: Result<(), RevalidationFailure>, v: Result<(), RevalidationFailure>) -> bool {
    match (r, v) {
        (Ok(()), Ok(())) => true,
        (Err(RevalidationFailure::PlatformError(m)), Err(RevalidationFailure::PlatformError(n))) => m@ == n@,
        (Err(a), Err(b)) => a == b,
        _ => false,
    }
}

/// Some string whose characters are `s`.
pub open spec fn string_of(s: Seq<char>) -> String {
    choose|t: String| t@ == s
}

/// The context in which an item is reclassified at revalidation time.
pub open spec fn revalidation_context(
    item: PlanItem,
    meta: EntryMetadata,
    res: ResolvedPath,
    home: Option<String>,
    app_support: Option<String>,
    caches: Option<String>,
) -> MatchContext {
    MatchContext {
        original_path: item.original_path,
        canonical_path: res.canonical,
        normalized_path: res.normalized,
        entry_type: meta.entry_type,
        identity: meta.identity,
        apparent_size: meta.apparent_size,
        allocated_size: meta.allocated_size,
        modified_ms: meta.modified_ms,
        is_symlink: meta.entry_type == EntryType::Symlink,
        symlink_target_canonical: None,
        home_dir: home,
        home_dir_canonical: None,
        app_support_dir: app_support,
        caches_dir: caches,
        crosses_mount_boundary: false,
        inside_git_repo: false,
        is_git_internal: false,
    }
}

/// Decides revalidation from the observations, as `revalidation_verdict` states.
pub fn decide_revalidation(
    item: &PlanItem,
    metadata: &Result<EntryMetadata, PlatformError>,
    resolved: &Result<ResolvedPath, PlatformError>,
    reclassified: &ClassifiedFinding,
    current_rule_version: Option<u32>,
) -> (r: Result<(), RevalidationFailure>)
    ensures
        match (r, revalidation_verdict(*item, *metadata, *resolved, *reclassified, current_rule_version)) {
            (Ok(()), Ok(())) => true,
            (Err(RevalidationFailure::PlatformError(m)), Err(RevalidationFailure::PlatformError(n))) => m@ == n@,
            (Err(a), Err(b)) => a == b,
            _ => false,
        },
{
    let meta = match metadata {
        Ok(m) => *m,
        Err(PlatformError::NotFound(_)) => {
            return Err(RevalidationFailure::PathVanished(item.original_path.clone()));
        },
        Err(err) => {
            let m = err.message();
            return Err(RevalidationFailure::PlatformError(m));
        },
    };
    if meta.identity != item.identity {
        return Err(
            RevalidationFailure::IdentityChanged {
                path: item.original_path.clone(),
                expected: item.identity,
                actual: meta.identity,
            },
        );
    }
    let res = match resolved {
        Ok(r) => r,
        Err(err) => {
            let m = err.message();
            return Err(RevalidationFailure::PlatformError(m));
        },
    };
    if !paths_equal(res.canonical.as_str(), item.canonical_path.as_str()) {
        return Err(
            RevalidationFailure::CanonicalPathChanged {
                path: item.original_path.clone(),
                expected: item.canonical_path.clone(),
                actual: res.canonical.clone(),
            },
        );
    }
    if reclassified.safety_class.is_protected() {
        return Err(
            RevalidationFailure::ItemBecameProtected {
                path: item.original_path.clone(),
                rule_id: reclassified.evidence.rule_id.clone(),
                reason: reclassified.evidence.matched_reason.clone(),
            },
        );
    }
    if let Some(v) = current_rule_version {
        if v != item.rule_version {
            return Err(
                RevalidationFailure::RuleVersionChanged {
                    rule_id: item.rule_id.clone(),
                    plan_version: item.rule_version,
                    current_version: v,
                },
            );
        }
    }
    Ok(())
}

fn discovered_path<E>(r: Result<crate::platform::DiscoveredPath, E>) -> (o: Option<String>)
    ensures
        o == match r {
            Ok(d) => Some(d.path),
            Err(_) => None::<String>,
        },
{
    match r {
        Ok(d) => Some(d.path),
        Err(_) => None,
    }
}

/// The metadata was read and shows the recorded identity.
pub open spec fn identity_kept(item: PlanItem, metadata: Result<EntryMetadata, PlatformError>) -> bool {
    metadata matches Ok(m) && m.identity == item.identity
}

/// The path passed the checks made before reclassification: its metadata was read and
/// shows the recorded identity, and it resolved to the recorded canonical path.
pub open spec fn path_checks_pass(
    item: PlanItem,
    metadata: Result<EntryMetadata, PlatformError>,
    resolved: Result<ResolvedPath, PlatformError>,
) -> bool {
    &&& identity_kept(item, metadata)
    &&& resolved matches Ok(r) && path_eq(r.canonical@, item.canonical_path@)
}

/// The path reported, where the platform reported one.
pub open spec fn dir_reported(d: Result<crate::platform::DiscoveredPath, PlatformError>) -> Option<String> {
    match d {
        Ok(p) => Some(p.path),
        Err(_) => None,
    }
}

/// What revalidating `item` asked and was told: the metadata of the item's original path;
/// while its identity is unchanged, that path's resolution; once both checks pass, the
/// standard directories and the catalogue's classification of the context built from
/// them; and, where that is not protected, the current version of the item's rule.
pub open spec fn revalidation_observed<A: PlatformAdapter + ?Sized, C: RuleCatalogue + ?Sized>(
    adapter: &A,
    catalogue: &C,
    item: PlanItem,
    metadata: Result<EntryMetadata, PlatformError>,
    resolved: Result<ResolvedPath, PlatformError>,
    home: Result<crate::platform::DiscoveredPath, PlatformError>,
    app_support: Result<crate::platform::DiscoveredPath, PlatformError>,
    caches: Result<crate::platform::DiscoveredPath, PlatformError>,
    reclassified: ClassifiedFinding,
    current_rule_version: Option<u32>,
) -> bool {
    &&& adapter.reports_metadata(item.original_path@, metadata)
    &&& identity_kept(item, metadata) ==> adapter.reports_resolution(item.original_path@, resolved)
    &&& path_checks_pass(item, metadata, resolved) ==> {
        &&& adapter.reports_home(home)
        &&& adapter.reports_app_support(app_support)
        &&& adapter.reports_caches(caches)
        &&& catalogue.reports_classification(
            revalidation_context(
                item,
                metadata->Ok_0,
                resolved->Ok_0,
                dir_reported(home),
                dir_reported(app_support),
                dir_reported(caches),
            ),
            reclassified,
        )
    }
    &&& path_checks_pass(item, metadata, resolved) && reclassified.safety_class != SafetyClass::Protected
        ==> catalogue.reports_rule_version(item.rule_id@, current_rule_version)
}

/// Revalidates a plan item immediately before execution: the path must still exist with
/// the same device and inode, resolve to the same canonical path, not have become
/// protected under the current rules, and its rule must still have the version the item
/// was admitted under. The verdict is `revalidation_verdict` on what the adapter reported
/// for the item's original path and on what the catalogue answered.
pub fn revalidate_plan_item<A: PlatformAdapter + ?Sized, C: RuleCatalogue + ?Sized>(
    adapter: &A,
    catalogue: &C,
    item: &PlanItem,
) -> (r: Result<(), RevalidationFailure>)
    ensures
        exists|
            metadata: Result<EntryMetadata, PlatformError>,
            resolved: Result<ResolvedPath, PlatformError>,
            home: Result<crate::platform::DiscoveredPath, PlatformError>,
            app_support: Result<crate::platform::DiscoveredPath, PlatformError>,
            caches: Result<crate::platform::DiscoveredPath, PlatformError>,
            reclassified: ClassifiedFinding,
            current_rule_version: Option<u32>,
        |
            #[trigger] revalidation_observed(
                adapter,
                catalogue,
                *item,
                metadata,
                resolved,
                home,
                app_support,
                caches,
                reclassified,
                current_rule_version,
            ) && verdict_agrees(r, revalidation_verdict(*item, metadata, resolved, reclassified, current_rule_version)),
{
    let metadata = adapter.read_entry_metadata(item.original_path.as_str());
    let ghost md = metadata;
    let ghost no_res: Result<ResolvedPath, PlatformError> = arbitrary();
    let ghost no_rc: ClassifiedFinding = arbitrary();
    let ghost no_dir: Result<crate::platform::DiscoveredPath, PlatformError> = arbitrary();
    let meta = match metadata {
        Ok(m) => m,
        Err(PlatformError::NotFound(_)) => {
            let r = Err(RevalidationFailure::PathVanished(item.original_path.clone()));
            assert(revalidation_observed(adapter, catalogue, *item, md, no_res, no_dir, no_dir, no_dir, no_rc, None));
            assert(verdict_agrees(r, revalidation_verdict(*item, md, no_res, no_rc, None)));
            return r;
        },
        Err(err) => {
            let r = Err(RevalidationFailure::PlatformError(err.message()));
            assert(revalidation_observed(adapter, catalogue, *item, md, no_res, no_dir, no_dir, no_dir, no_rc, None));
            assert(verdict_agrees(r, revalidation_verdict(*item, md, no_res, no_rc, None)));
            return r;
        },
    };
    if meta.identity != item.identity {
        let r = Err(
            RevalidationFailure::IdentityChanged {
                path: item.original_path.clone(),
                expected: item.identity,
                actual: meta.identity,
            },
        );
        assert(revalidation_observed(adapter, catalogue, *item, md, no_res, no_dir, no_dir, no_dir, no_rc, None));
        assert(verdict_agrees(r, revalidation_verdict(*item, md, no_res, no_rc, None)));
        return r;
    }
    let resolved = adapter.canonicalize_and_normalize(item.original_path.as_str());
    let ghost rs = resolved;
    let res = match resolved {
        Ok(r) => r,
        Err(err) => {
            let r = Err(RevalidationFailure::PlatformError(err.message()));
            assert(revalidation_observed(adapter, catalogue, *item, md, rs, no_dir, no_dir, no_dir, no_rc, None));
            assert(verdict_agrees(r, revalidation_verdict(*item, md, rs, no_rc, None)));
            return r;
        },
    };
    if !paths_equal(res.canonical.as_str(), item.canonical_path.as_str()) {
        let r = Err(
            RevalidationFailure::CanonicalPathChanged {
                path: item.original_path.clone(),
                expected: item.canonical_path.clone(),
                actual: res.canonical,
            },
        );
        assert(revalidation_observed(adapter, catalogue, *item, md, rs, no_dir, no_dir, no_dir, no_rc, None));
        assert(verdict_agrees(r, revalidation_verdict(*item, md, rs, no_rc, None)));
        return r;
    }
    let home_reported = adapter.home_directory();
    let app_support_reported = adapter.application_support_directory();
    let caches_reported = adapter.caches_directory();
    let ghost (hr, ar, cr) = (home_reported, app_support_reported, caches_reported);
    let home = discovered_path(home_reported);
    let app_support = discovered_path(app_support_reported);
    let caches = discovered_path(caches_reported);
    let ctx = MatchContext {
        original_path: item.original_path.clone(),
        canonical_path: res.canonical.clone(),
        normalized_path: res.normalized.clone(),
        entry_type: meta.entry_type,
        identity: meta.identity,
        apparent_size: meta.apparent_size,
        allocated_size: meta.allocated_size,
        modified_ms: meta.modified_ms,
        is_symlink: match meta.entry_type {
            EntryType::Symlink => true,
            _ => false,
        },
        symlink_target_canonical: None,
        home_dir: home,
        home_dir_canonical: None,
        app_support_dir: app_support,
        caches_dir: caches,
        crosses_mount_boundary: false,
        inside_git_repo: false,
        is_git_internal: false,
    };
    assert(ctx == revalidation_context(*item, meta, res, dir_reported(hr), dir_reported(ar), dir_reported(cr)));
    let reclassified = catalogue.classify(&ctx);
    let version = if reclassified.safety_class.is_protected() {
        None
    } else {
        catalogue.rule_version(item.rule_id.as_str())
    };
    let metadata = Ok(meta);
    let resolved = Ok(res);
    let r = decide_revalidation(item, &metadata, &resolved, &reclassified, version);
    assert(revalidation_observed(adapter, catalogue, *item, metadata, resolved, hr, ar, cr, reclassified, version));
    assert(verdict_agrees(r, revalidation_verdict(*item, metadata, resolved, reclassified, version)));
    r
}

} // verus!
