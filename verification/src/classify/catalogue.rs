//! Classified findings, and the rule catalogue that produces them.

use vstd::prelude::*;
use crate::classify::class::SafetyClass;
use crate::classify::evidence::Evidence;
use crate::classify::matcher::MatchContext;

verus! {

/// A finding after classification: where it is, how large, its class and the evidence.
#[derive(Debug, Clone, PartialEq, Eq)]
pub struct ClassifiedFinding {
    pub path: String,
    pub canonical_path: String,
    pub size_bytes: u64,
    pub safety_class: SafetyClass,
    pub evidence: Evidence,
}

/// The versioned rule set that classifies items. Implementations decide the rules; the
/// library states only which questions were put to them.
pub trait RuleCatalogue {
    /// The catalogue classified the item described by `ctx` as `r`. A catalogue that
    /// states nothing of itself leaves this open.
    closed spec fn reports_classification(&self, ctx: MatchContext, r: ClassifiedFinding) -> bool {
        true
    }

    /// The catalogue reported `r` as the current version of the rule `rule_id`.
    closed spec fn reports_rule_version(&self, rule_id: Seq<char>, r: Option<u32>) -> bool {
        true
    }

    /// Classifies the item described by `ctx`.
    fn classify(&self, ctx: &MatchContext) -> (r: ClassifiedFinding)
        ensures
            self.reports_classification(*ctx, r),
    ;

    /// The current version of the rule `rule_id`, where the catalogue has that rule.
    fn rule_version(&self, rule_id: &str) -> (r: Option<u32>)
        ensures
            self.reports_rule_version(rule_id@, r),
    ;
}

} // verus!
