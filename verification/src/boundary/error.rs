//! The typed error every command returns across the boundary.

use vstd::prelude::*;
use crate::text::{concat2, concat3};

verus! {

/// Errors returned to the interface, discriminated by kind.
#[derive(Debug, Clone, PartialEq, Eq)]
pub enum CommandError {
    PermissionDenied { path: Option<String>, reason: String },
    PathVanished { path: String },
    ChangedAfterReview { plan_id: String, details: String },
    Unsupported { feature: String, reason: String },
}

impl CommandError {
    /// The human-readable description of the error.
    pub open spec fn spec_message(&self) -> Seq<char> {
        match self {
            CommandError::PermissionDenied { path, reason } => match path {
                Some(p) => "permission denied for '"@ + p@ + "': "@ + reason@,
                None => "permission denied: "@ + reason@,
            },
            CommandError::PathVanished { path } => "path vanished: "@ + path@,
            CommandError::ChangedAfterReview { plan_id, details } => "plan '"@ + plan_id@
                + "' changed after review: "@ + details@,
            CommandError::Unsupported { feature, reason } => "feature '"@ + feature@
                + "' is unsupported: "@ + reason@,
        }
    }

    /// Renders the error as text.
    pub fn message(&self) -> (m: String)
        ensures
            m@ == self.spec_message(),
    {
        match self {
            CommandError::PermissionDenied { path, reason } => match path {
                Some(p) => {
                    let head = concat3("permission denied for '", p.as_str(), "': ");
                    concat2(head.as_str(), reason.as_str())
                },
                None => concat2("permission denied: ", reason.as_str()),
            },
            CommandError::PathVanished { path } => concat2("path vanished: ", path.as_str()),
            CommandError::ChangedAfterReview { plan_id, details } => {
                let head = concat3("plan '", plan_id.as_str(), "' changed after review: ");
                concat2(head.as_str(), details.as_str())
            },
            CommandError::Unsupported { feature, reason } => {
                let head = concat3("feature '", feature.as_str(), "' is unsupported: ");
                concat2(head.as_str(), reason.as_str())
            },
        }
    }
}

} // verus!
