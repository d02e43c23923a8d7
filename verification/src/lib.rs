//! Task orchestration for a local developer workflow: a work item is
//! decomposed into an ordered plan of specialist tasks, each task is run by
//! an agent executor resolved through a registry, and the outcomes are
//! collected into execution reports.
//!
//! Everything in this crate is verified with Verus. Contracts are stated over
//! the views of the data model (`Seq<char>` for text, `Seq` for lists); the
//! calls into other crates are gathered in [`platform`], each behind a
//! documented contract that is assumed rather than proved.

pub mod config;
pub mod coordinator;
pub mod error;
pub mod execution;
pub mod filesystem;
pub mod identifiers;
pub mod logging;
pub mod platform;
pub mod registry;
pub mod types;

pub use config::{MiyabiConfig, MiyabiConfigManager};
pub use coordinator::CoordinatorAgent;
pub use error::AgentError;
pub use execution::{
    failure_outcome, outcome_at, success_outcome, AgentContext, AgentExecutor, ExecutionReport,
};
pub use filesystem::{ProjectPaths, WorkspaceDetector};
pub use logging::{info, log_action, LogAction};
pub use registry::{AgentRegistry, BuiltInAgent};
pub use types::{
    AgentKind, AgentOutcome, AgentTask, Artifact, ProjectMetadata, TaskPriority, WorkItem,
    WorkItemStatus,
};
