//! Failure taxonomy of plan generation. Generation is all-or-nothing: any
//! of these aborts the run; no partial plan is ever emitted.

use vstd::prelude::*;

verus! {

/// Why a generation run produced no plan.
#[derive(Debug, PartialEq)]
pub enum PlanError {
    /// No provider recognized the source tree, under fail-closed policy.
    NoProviderMatched,
    /// The phase dependency relation has a cycle or names a missing phase.
    PlanGraph,
    /// A provider failed while inspecting the tree; carries its name.
    Detection { provider: String },
    /// A provider recognized its manifest but could not parse it; carries
    /// the provider's name.
    Config { provider: String },
}

impl PlanError {
    /// A short stable label for the failure, for callers that report it.
    pub fn label(&self) -> (r: String)
        ensures
            match self {
                PlanError::NoProviderMatched => r@ == "no provider matched"@,
                PlanError::PlanGraph => r@ == "invalid phase graph"@,
                PlanError::Detection { .. } => r@ == "detection failed"@,
                PlanError::Config { .. } => r@ == "malformed manifest"@,
            },
    {
        match self {
            PlanError::NoProviderMatched => "no provider matched".to_owned(),
            PlanError::PlanGraph => "invalid phase graph".to_owned(),
            PlanError::Detection { .. } => "detection failed".to_owned(),
            PlanError::Config { .. } => "malformed manifest".to_owned(),
        }
    }
}

} // verus!
