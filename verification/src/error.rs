//! The failures orchestration can report.

use crate::types::AgentKind;
use vstd::prelude::*;
use vstd::string::*;

verus! {

/// Why an orchestration call did not produce reports.
#[derive(Debug, Clone)]
pub enum AgentError {
    /// The registry holds no executor for `kind`.
    NotRegistered { kind: AgentKind },
    /// An executor gave up on the task `task_id`; `reason` says why.
    Execution { task_id: u128, reason: String },
}

/// Mathematical view of an [`AgentError`].
pub enum AgentErrorView {
    NotRegistered { kind: AgentKind },
    Execution { task_id: u128, reason: Seq<char> },
}

impl View for AgentError {
    type V = AgentErrorView;

    open spec fn view(&self) -> AgentErrorView {
        match self {
            AgentError::NotRegistered { kind } => AgentErrorView::NotRegistered { kind: *kind },
            AgentError::Execution { task_id, reason } => AgentErrorView::Execution {
                task_id: *task_id,
                reason: reason@,
            },
        }
    }
}

impl AgentErrorView {
    /// The text shown to the user for this failure.
    pub open spec fn message(self) -> Seq<char> {
        match self {
            AgentErrorView::NotRegistered { kind } => kind.spec_label() + " agent not registered"@,
            AgentErrorView::Execution { task_id, reason } => reason,
        }
    }
}

impl AgentError {
    /// The text shown to the user for this failure: the missing role followed
    /// by " agent not registered", or the executor's own reason.
    pub fn message(&self) -> (text: String)
        ensures
            text@ == self@.message(),
    {
        match self {
            AgentError::NotRegistered { kind } => {
                let mut text = String::from_str(kind.label());
                text.append(" agent not registered");
                text
            },
            AgentError::Execution { task_id, reason } => reason.clone(),
        }
    }
}

} // verus!
