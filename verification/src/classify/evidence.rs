//! The evidence that every classified finding carries, and its validation.

use vstd::prelude::*;
use crate::text::{is_blank, opt_view, str_is_blank};

verus! {

/// How certain a rule is that it matched the right thing.
#[derive(Debug, Clone, Copy, PartialEq, Eq, Structural)]
pub enum Confidence {
    Definite,
    Probable,
    Heuristic,
}

/// How the bytes behind a finding could be brought back after removal.
#[derive(Debug, Clone, PartialEq, Eq)]
pub enum Recoverability {
    Irrecoverable,
    TrashRecoverable,
    SourceControlled { remote: Option<String> },
    RebuildableByTool { command: String },
}

/// Mathematical model of a `Recoverability`.
pub enum RecoverabilityView {
    Irrecoverable,
    TrashRecoverable,
    SourceControlled { remote: Option<Seq<char>> },
    RebuildableByTool { command: Seq<char> },
}

impl View for Recoverability {
    type V = RecoverabilityView;

    open spec fn view(&self) -> RecoverabilityView {
        match self {
            Recoverability::Irrecoverable => RecoverabilityView::Irrecoverable,
            Recoverability::TrashRecoverable => RecoverabilityView::TrashRecoverable,
            Recoverability::SourceControlled { remote } => RecoverabilityView::SourceControlled {
                remote: opt_view(*remote),
            },
            Recoverability::RebuildableByTool { command } => RecoverabilityView::RebuildableByTool {
                command: command@,
            },
        }
    }
}

/// An exact copy of an optional string.
pub fn duplicate_opt(o: &Option<String>) -> (r: Option<String>)
    ensures
        r == *o,
{
    match o {
        Some(s) => Some(s.clone()),
        None => None,
    }
}

impl Recoverability {
    /// An exact copy.
    pub fn duplicate(&self) -> (r: Self)
        ensures
            r == *self,
    {
        match self {
            Recoverability::Irrecoverable => Recoverability::Irrecoverable,
            Recoverability::TrashRecoverable => Recoverability::TrashRecoverable,
            Recoverability::SourceControlled { remote } => Recoverability::SourceControlled {
                remote: duplicate_opt(remote),
            },
            Recoverability::RebuildableByTool { command } => Recoverability::RebuildableByTool {
                command: command.clone(),
            },
        }
    }
}

/// The record of which rule classified a finding, and why.
#[derive(Debug, Clone, PartialEq, Eq)]
pub struct Evidence {
    pub rule_id: String,
    pub rule_version: u32,
    pub owning_tool: String,
    pub matched_reason: String,
    pub regenerator: Option<String>,
    pub last_activity_ms: Option<u64>,
    pub regeneration_cost: Option<String>,
    pub recoverability: Recoverability,
    pub confidence: Confidence,
}

/// Why an evidence record is not acceptable.
#[derive(Debug, Clone, Copy, PartialEq, Eq, Structural)]
pub enum EvidenceValidationError {
    EmptyRuleId,
    ZeroRuleVersion,
    EmptyOwningTool,
    EmptyMatchedReason,
}

/// The outcome of validating evidence: the first missing piece, in field order.
pub open spec fn evidence_validation(
    rule_id: Seq<char>,
    rule_version: u32,
    owning_tool: Seq<char>,
    matched_reason: Seq<char>,
) -> Result<(), EvidenceValidationError> {
    if is_blank(rule_id) {
        Err(EvidenceValidationError::EmptyRuleId)
    } else if rule_version == 0 {
        Err(EvidenceValidationError::ZeroRuleVersion)
    } else if is_blank(owning_tool) {
        Err(EvidenceValidationError::EmptyOwningTool)
    } else if is_blank(matched_reason) {
        Err(EvidenceValidationError::EmptyMatchedReason)
    } else {
        Ok(())
    }
}

impl Evidence {
    pub open spec fn spec_validation(&self) -> Result<(), EvidenceValidationError> {
        evidence_validation(self.rule_id@, self.rule_version, self.owning_tool@, self.matched_reason@)
    }

    /// An exact copy.
    pub fn duplicate(&self) -> (r: Self)
        ensures
            r == *self,
    {
        Evidence {
            rule_id: self.rule_id.clone(),
            rule_version: self.rule_version,
            owning_tool: self.owning_tool.clone(),
            matched_reason: self.matched_reason.clone(),
            regenerator: duplicate_opt(&self.regenerator),
            last_activity_ms: self.last_activity_ms,
            regeneration_cost: duplicate_opt(&self.regeneration_cost),
            recoverability: self.recoverability.duplicate(),
            confidence: self.confidence,
        }
    }

    /// Checks that the evidence names a rule, a positive rule version, an owning tool and
    /// a reason, none of them blank.
    pub fn validate(&self) -> (r: Result<(), EvidenceValidationError>)
        ensures
            r == self.spec_validation(),
    {
        if str_is_blank(self.rule_id.as_str()) {
            Err(EvidenceValidationError::EmptyRuleId)
        } else if self.rule_version == 0 {
            Err(EvidenceValidationError::ZeroRuleVersion)
        } else if str_is_blank(self.owning_tool.as_str()) {
            Err(EvidenceValidationError::EmptyOwningTool)
        } else if str_is_blank(self.matched_reason.as_str()) {
            Err(EvidenceValidationError::EmptyMatchedReason)
        } else {
            Ok(())
        }
    }
}

} // verus!
