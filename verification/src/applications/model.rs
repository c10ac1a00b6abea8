//! The records an application inventory is made of.

use vstd::prelude::*;
use vstd::std_specs::convert::FromSpecImpl;
use crate::classify::class::SafetyClass;
use crate::platform::{ApplicationDataRoot, ApplicationDataRootKind};

verus! {

/// Why a file was tied to an application.
#[derive(Debug, Clone, Copy, PartialEq, Eq, Hash, Structural)]
pub enum MatchReason {
    ExactBundleIdentifier,
    DeveloperDirectory,
    SimilarName,
    SensitiveCredential,
    SharedComponent,
}

/// How sure that tie is.
#[derive(Debug, Clone, Copy, PartialEq, Eq, Hash, Structural)]
pub enum MatchStrength {
    Strong,
    Weak,
    Guess,
    Excluded,
}

/// The reason, strength and wording of a tie between a file and an application.
#[derive(Debug, Clone, PartialEq, Eq)]
pub struct ApplicationMatchEvidence {
    pub reason: MatchReason,
    pub strength: MatchStrength,
    pub explanation: String,
}

/// Mathematical model of an `ApplicationMatchEvidence`.
pub struct EvidenceView {
    pub reason: MatchReason,
    pub strength: MatchStrength,
    pub explanation: Seq<char>,
}

impl View for ApplicationMatchEvidence {
    type V = EvidenceView;

    open spec fn view(&self) -> EvidenceView {
        EvidenceView { reason: self.reason, strength: self.strength, explanation: self.explanation@ }
    }
}

/// The kind of location a related file was found in.
#[derive(Debug, Clone, Copy, PartialEq, Eq, Hash, Structural)]
pub enum RelatedLocationKind {
    ApplicationSupport,
    Caches,
    Preferences,
    Containers,
    GroupContainers,
    SavedApplicationState,
    Logs,
    LaunchAgents,
    Frameworks,
}

/// Each kind of data root is the location kind of the same name.
pub open spec fn location_of(kind: ApplicationDataRootKind) -> RelatedLocationKind {
    match kind {
        ApplicationDataRootKind::ApplicationSupport => RelatedLocationKind::ApplicationSupport,
        ApplicationDataRootKind::Caches => RelatedLocationKind::Caches,
        ApplicationDataRootKind::Preferences => RelatedLocationKind::Preferences,
        ApplicationDataRootKind::Containers => RelatedLocationKind::Containers,
        ApplicationDataRootKind::GroupContainers => RelatedLocationKind::GroupContainers,
        ApplicationDataRootKind::SavedApplicationState => RelatedLocationKind::SavedApplicationState,
        ApplicationDataRootKind::Logs => RelatedLocationKind::Logs,
        ApplicationDataRootKind::LaunchAgents => RelatedLocationKind::LaunchAgents,
        ApplicationDataRootKind::Frameworks => RelatedLocationKind::Frameworks,
    }
}

impl From<ApplicationDataRootKind> for RelatedLocationKind {
    fn from(value: ApplicationDataRootKind) -> (r: Self) {
        match value {
            ApplicationDataRootKind::ApplicationSupport => RelatedLocationKind::ApplicationSupport,
            ApplicationDataRootKind::Caches => RelatedLocationKind::Caches,
            ApplicationDataRootKind::Preferences => RelatedLocationKind::Preferences,
            ApplicationDataRootKind::Containers => RelatedLocationKind::Containers,
            ApplicationDataRootKind::GroupContainers => RelatedLocationKind::GroupContainers,
            ApplicationDataRootKind::SavedApplicationState => RelatedLocationKind::SavedApplicationState,
            ApplicationDataRootKind::Logs => RelatedLocationKind::Logs,
            ApplicationDataRootKind::LaunchAgents => RelatedLocationKind::LaunchAgents,
            ApplicationDataRootKind::Frameworks => RelatedLocationKind::Frameworks,
        }
    }
}

impl FromSpecImpl<ApplicationDataRootKind> for RelatedLocationKind {
    open spec fn obeys_from_spec() -> bool {
        true
    }

    open spec fn from_spec(v: ApplicationDataRootKind) -> RelatedLocationKind {
        location_of(v)
    }
}

/// A file or directory outside an application's bundle that belongs to it.
#[derive(Debug, Clone, PartialEq, Eq)]
pub struct RelatedFile {
    pub path: String,
    pub name: String,
    pub location: RelatedLocationKind,
    pub measured_footprint_bytes: u64,
    pub safety_class: SafetyClass,
    pub selected_by_default: bool,
    pub offered_for_removal: bool,
    pub evidence: ApplicationMatchEvidence,
}

/// Mathematical model of a `RelatedFile`.
pub struct RelatedFileView {
    pub path: Seq<char>,
    pub name: Seq<char>,
    pub location: RelatedLocationKind,
    pub measured_footprint_bytes: u64,
    pub safety_class: SafetyClass,
    pub selected_by_default: bool,
    pub offered_for_removal: bool,
    pub evidence: EvidenceView,
}

impl View for RelatedFile {
    type V = RelatedFileView;

    open spec fn view(&self) -> RelatedFileView {
        RelatedFileView {
            path: self.path@,
            name: self.name@,
            location: self.location,
            measured_footprint_bytes: self.measured_footprint_bytes,
            safety_class: self.safety_class,
            selected_by_default: self.selected_by_default,
            offered_for_removal: self.offered_for_removal,
            evidence: self.evidence@,
        }
    }
}

/// Whether an application can be removed now.
#[derive(Debug, Clone, Copy, PartialEq, Eq, Structural)]
pub enum RemovalState {
    Ready,
    QuitRequired,
}

/// One installed application with its footprint and related files.
#[derive(Debug, Clone, PartialEq, Eq)]
pub struct ApplicationEntry {
    pub bundle_id: Option<String>,
    pub name: String,
    pub version: Option<String>,
    pub install_path: String,
    pub bundle_footprint_bytes: u64,
    pub related_files_footprint_bytes: u64,
    pub combined_footprint_bytes: u64,
    pub is_running: bool,
    pub can_remove: bool,
    pub bundle_selected_by_default: bool,
    pub removal_state: RemovalState,
    pub removal_explanation: String,
    pub related_files: Vec<RelatedFile>,
}

/// The installed applications and the leftovers whose application is gone.
#[derive(Debug, Clone, PartialEq, Eq)]
pub struct ApplicationInventory {
    pub applications: Vec<ApplicationEntry>,
    pub orphans: Vec<RelatedFile>,
}

/// An entry found under a data root, which may belong to some application.
#[derive(Debug, Clone, PartialEq, Eq)]
pub struct Candidate {
    pub path: String,
    pub root: ApplicationDataRoot,
}

/// A candidate tied to one application, with the reason and strength of the tie.
#[derive(Debug, Clone, PartialEq, Eq)]
pub struct Association {
    pub candidate: Candidate,
    pub reason: MatchReason,
    pub strength: MatchStrength,
    pub explanation: String,
}

/// Mathematical model of an `Association`.
pub struct AssociationView {
    pub path: Seq<char>,
    pub root_path: Seq<char>,
    pub root_kind: ApplicationDataRootKind,
    pub reason: MatchReason,
    pub strength: MatchStrength,
    pub explanation: Seq<char>,
}

impl View for Association {
    type V = AssociationView;

    open spec fn view(&self) -> AssociationView {
        AssociationView {
            path: self.candidate.path@,
            root_path: self.candidate.root.path@,
            root_kind: self.candidate.root.kind,
            reason: self.reason,
            strength: self.strength,
            explanation: self.explanation@,
        }
    }
}

/// A copy of a candidate that keeps its strings.
pub fn clone_candidate(c: &Candidate) -> (r: Candidate)
    ensures
        r.path@ == c.path@,
        r.root.path@ == c.root.path@,
        r.root.kind == c.root.kind,
{
    Candidate {
        path: c.path.clone(),
        root: ApplicationDataRoot { path: c.root.path.clone(), kind: c.root.kind },
    }
}

} // verus!
