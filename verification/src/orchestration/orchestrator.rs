//! Failures of the orchestration layer that routes content to experts.
//! The routing itself queries a language model and lives in the
//! embedding application; what it can report is fixed here.

use vstd::prelude::*;
use vstd::string::StringExecFns;
use crate::orchestration::types::{spec_expert_name, ExpertType};

verus! {

/// Why orchestration failed.
#[derive(Debug)]
pub enum OrchestratorError {
    NetworkError(String),
    LlmError(String),
    ParseError(String),
    ExpertNotFound(ExpertType),
    ExpertError(String),
}

/// The label of an orchestrator error class.
pub open spec fn spec_orchestrator_error_label(e: &OrchestratorError) -> Seq<char> {
    match e {
        OrchestratorError::NetworkError(_) => "Network error: "@,
        OrchestratorError::LlmError(_) => "LLM error: "@,
        OrchestratorError::ParseError(_) => "Parse error: "@,
        OrchestratorError::ExpertNotFound(_) => "Expert not found: "@,
        OrchestratorError::ExpertError(_) => "Expert error: "@,
    }
}

/// The detail of an orchestrator error.
pub open spec fn spec_orchestrator_error_detail(e: &OrchestratorError) -> Seq<char> {
    match e {
        OrchestratorError::NetworkError(d) => d@,
        OrchestratorError::LlmError(d) => d@,
        OrchestratorError::ParseError(d) => d@,
        OrchestratorError::ExpertNotFound(t) => spec_expert_name(*t),
        OrchestratorError::ExpertError(d) => d@,
    }
}

impl OrchestratorError {
    /// A human-readable rendering: the class label, then the detail.
    pub fn message(&self) -> (r: String)
        ensures
            r@ == spec_orchestrator_error_label(self) + spec_orchestrator_error_detail(self),
    {
        let mut out = String::new();
        match self {
            OrchestratorError::NetworkError(d) => {
                out.append("Network error: ");
                out.append(d.as_str());
            },
            OrchestratorError::LlmError(d) => {
                out.append("LLM error: ");
                out.append(d.as_str());
            },
            OrchestratorError::ParseError(d) => {
                out.append("Parse error: ");
                out.append(d.as_str());
            },
            OrchestratorError::ExpertNotFound(t) => {
                out.append("Expert not found: ");
                out.append(t.as_str());
            },
            OrchestratorError::ExpertError(d) => {
                out.append("Expert error: ");
                out.append(d.as_str());
            },
        }
        out
    }
}

} // verus!
