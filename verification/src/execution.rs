//! The contract every agent executor meets, the context it runs in, and the
//! outcome and report values it produces.

use crate::error::AgentError;
use crate::platform::now;
use crate::types::AgentKind;
use crate::types::AgentOutcome;
use crate::types::AgentOutcomeView;
use crate::types::AgentTask;
use crate::types::AgentTaskView;
use crate::types::ArtifactView;
use chrono::NaiveDateTime;
use std::collections::HashMap;
use vstd::prelude::*;
use vstd::string::*;

verus! {

/// Ambient key-value environment handed to every execution. The library
/// passes it on and never reads it.
#[derive(Debug, Clone)]
pub struct AgentContext {
    pub environment: HashMap<String, String>,
}

impl Default for AgentContext {
    fn default() -> (ctx: Self)
        ensures
            ctx.environment@ == Map::<String, String>::empty(),
    {
        AgentContext { environment: HashMap::new() }
    }
}

/// Anything that can run a task.
///
/// An implementation says what it is by three specification functions, and
/// its executable methods are held to them: `kind` and `name` are pure, and
/// `run` returns only what `may_return` allows. Whatever the
/// implementation, a run either fails with a recoverable error or produces
/// an outcome that refers back to the task it was given.
pub trait AgentExecutor {
    /// The registry slot this executor fills.
    spec fn spec_kind(&self) -> AgentKind;

    /// The display label of this executor.
    spec fn spec_name(&self) -> Seq<char>;

    /// Whether running `task` in the environment `ctx` may end in `result`.
    spec fn may_return(
        &self,
        task: AgentTask,
        ctx: AgentContext,
        result: Result<AgentOutcome, AgentError>,
    ) -> bool;

    /// The kind of tasks this executor is registered for.
    fn kind(&self) -> (kind: AgentKind)
        ensures
            kind == self.spec_kind(),
    ;

    /// A stable label for logs and listings.
    fn name(&self) -> (name: &'static str)
        ensures
            name@ == self.spec_name(),
    ;

    /// Runs one task. The task's `agent` need not be this executor's kind.
    fn run(&self, task: &AgentTask, ctx: &AgentContext) -> (result: Result<
        AgentOutcome,
        AgentError,
    >)
        ensures
            self.may_return(*task, *ctx, result),
            result matches Ok(outcome) ==> outcome.task_id == task.id,
    ;
}

/// A task paired with the outcome of running it.
#[derive(Debug)]
pub struct ExecutionReport {
    pub task: AgentTask,
    pub outcome: AgentOutcome,
}

/// Mathematical view of an [`ExecutionReport`].
pub struct ExecutionReportView {
    pub task: AgentTaskView,
    pub outcome: AgentOutcomeView,
}

impl View for ExecutionReport {
    type V = ExecutionReportView;

    open spec fn view(&self) -> ExecutionReportView {
        ExecutionReportView { task: self.task@, outcome: self.outcome@ }
    }
}

impl DeepView for ExecutionReport {
    type V = ExecutionReportView;

    open spec fn deep_view(&self) -> ExecutionReportView {
        self@
    }
}

impl Clone for ExecutionReport {
    fn clone(&self) -> (copy: Self)
        ensures
            copy@ == self@,
    {
        ExecutionReport { task: self.task.clone(), outcome: self.outcome.clone() }
    }
}

impl ExecutionReportView {
    /// The outcome refers back to the task it is paired with.
    pub open spec fn consistent(self) -> bool {
        self.outcome.task_id == self.task.id
    }
}

/// The outcome of `task` with the given flag, summary and creation instant,
/// and no artifacts.
pub open spec fn outcome_of(
    task: AgentTaskView,
    success: bool,
    summary: Seq<char>,
    created_at: NaiveDateTime,
) -> AgentOutcomeView {
    AgentOutcomeView {
        task_id: task.id,
        success,
        summary,
        artifacts: Seq::<ArtifactView>::empty(),
        created_at,
    }
}

/// Builds the outcome of `task` as of `created_at`.
pub fn outcome_at(
    task: &AgentTask,
    success: bool,
    summary: &str,
    created_at: NaiveDateTime,
) -> (outcome: AgentOutcome)
    ensures
        outcome@ == outcome_of(task@, success, summary@, created_at),
{
    let outcome = AgentOutcome {
        task_id: task.id,
        success,
        summary: String::from_str(summary),
        artifacts: Vec::new(),
        created_at,
    };
    assert(outcome.artifacts.deep_view() =~= Seq::<ArtifactView>::empty());
    outcome
}

/// A successful outcome of `task`, created now.
pub fn success_outcome(task: &AgentTask, summary: &str) -> (outcome: AgentOutcome)
    ensures
        outcome@ == outcome_of(task@, true, summary@, outcome.created_at),
{
    outcome_at(task, true, summary, now())
}

/// A failed outcome of `task`, created now.
pub fn failure_outcome(task: &AgentTask, summary: &str) -> (outcome: AgentOutcome)
    ensures
        outcome@ == outcome_of(task@, false, summary@, outcome.created_at),
{
    outcome_at(task, false, summary, now())
}

} // verus!
