//! The data that flows through the orchestration pipeline, with the
//! mathematical view of each type.

use crate::identifiers::is_random_uuid;
use crate::platform::fresh_task_id;
use chrono::NaiveDateTime;
use vstd::prelude::*;
use vstd::string::*;

verus! {

/// The closed set of specialist roles. A task names the role that should
/// handle it, and a registry holds at most one executor per role.
#[derive(Debug, Clone, Copy, PartialEq, Eq, Hash, Structural)]
pub enum AgentKind {
    Coordinator,
    CodeGen,
    Review,
    Test,
    Deploy,
    Issue,
}

impl AgentKind {
    /// The name of the role, spelled as its variant is.
    pub open spec fn spec_label(self) -> Seq<char> {
        match self {
            AgentKind::Coordinator => "Coordinator"@,
            AgentKind::CodeGen => "CodeGen"@,
            AgentKind::Review => "Review"@,
            AgentKind::Test => "Test"@,
            AgentKind::Deploy => "Deploy"@,
            AgentKind::Issue => "Issue"@,
        }
    }

    /// The name of the role, for messages and listings.
    pub fn label(&self) -> (label: &'static str)
        ensures
            label@ == self.spec_label(),
    {
        match self {
            AgentKind::Coordinator => "Coordinator",
            AgentKind::CodeGen => "CodeGen",
            AgentKind::Review => "Review",
            AgentKind::Test => "Test",
            AgentKind::Deploy => "Deploy",
            AgentKind::Issue => "Issue",
        }
    }
}

/// Importance hint of a task, from most to least urgent. Advisory: no
/// component reorders work by it.
#[derive(Debug, Clone, Copy, PartialEq, Eq, Structural)]
pub enum TaskPriority {
    Critical,
    High,
    Medium,
    Low,
}

impl Default for TaskPriority {
    fn default() -> (priority: Self)
        ensures
            priority == TaskPriority::Medium,
    {
        TaskPriority::Medium
    }
}

/// Lifecycle state of a work item. Transitions are driven by the caller.
#[derive(Debug, Clone, Copy, PartialEq, Eq, Structural)]
pub enum WorkItemStatus {
    Pending,
    InProgress,
    Completed,
    Failed,
}

/// A unit of dispatchable work.
///
/// `id` holds the 128 bits of the task's UUID, most significant byte first.
#[derive(Debug)]
pub struct AgentTask {
    pub id: u128,
    pub title: String,
    pub description: String,
    pub agent: AgentKind,
    pub priority: TaskPriority,
}

/// Mathematical view of an [`AgentTask`].
pub struct AgentTaskView {
    pub id: u128,
    pub title: Seq<char>,
    pub description: Seq<char>,
    pub agent: AgentKind,
    pub priority: TaskPriority,
}

impl View for AgentTask {
    type V = AgentTaskView;

    open spec fn view(&self) -> AgentTaskView {
        AgentTaskView {
            id: self.id,
            title: self.title@,
            description: self.description@,
            agent: self.agent,
            priority: self.priority,
        }
    }
}

impl DeepView for AgentTask {
    type V = AgentTaskView;

    open spec fn deep_view(&self) -> AgentTaskView {
        self@
    }
}

impl Clone for AgentTask {
    fn clone(&self) -> (copy: Self)
        ensures
            copy@ == self@,
    {
        AgentTask {
            id: self.id,
            title: self.title.clone(),
            description: self.description.clone(),
            agent: self.agent,
            priority: self.priority,
        }
    }
}

/// Copies a list of tasks, element by element and in order.
pub fn clone_tasks(tasks: &Vec<AgentTask>) -> (copy: Vec<AgentTask>)
    ensures
        copy.deep_view() == tasks.deep_view(),
{
    let mut copy: Vec<AgentTask> = Vec::new();
    let mut i: usize = 0;
    while i < tasks.len()
        invariant
            i <= tasks.len(),
            copy.len() == i,
            forall|k: int| 0 <= k < i ==> copy[k]@ == tasks[k]@,
        decreases tasks.len() - i,
    {
        copy.push(tasks[i].clone());
        i = i + 1;
    }
    assert(copy.deep_view() =~= tasks.deep_view());
    copy
}

impl AgentTask {
    /// A task with a fresh random identifier and the default priority.
    pub fn new(title: &str, description: &str, agent: AgentKind) -> (task: Self)
        ensures
            task@ == (AgentTaskView {
                id: task.id,
                title: title@,
                description: description@,
                agent,
                priority: TaskPriority::Medium,
            }),
            is_random_uuid(task.id),
    {
        AgentTask::with_id(fresh_task_id(), title, description, agent)
    }

    /// A task with the given identifier and the default priority.
    pub fn with_id(id: u128, title: &str, description: &str, agent: AgentKind) -> (task: Self)
        ensures
            task@ == (AgentTaskView {
                id,
                title: title@,
                description: description@,
                agent,
                priority: TaskPriority::Medium,
            }),
    {
        AgentTask {
            id,
            title: String::from_str(title),
            description: String::from_str(description),
            agent,
            priority: TaskPriority::default(),
        }
    }
}

/// A named byproduct of running a task.
#[derive(Debug)]
pub struct Artifact {
    pub name: String,
    pub path: Option<String>,
    pub description: Option<String>,
}

/// Mathematical view of an [`Artifact`].
pub struct ArtifactView {
    pub name: Seq<char>,
    pub path: Option<Seq<char>>,
    pub description: Option<Seq<char>>,
}

impl View for Artifact {
    type V = ArtifactView;

    open spec fn view(&self) -> ArtifactView {
        ArtifactView {
            name: self.name@,
            path: self.path.deep_view(),
            description: self.description.deep_view(),
        }
    }
}

impl DeepView for Artifact {
    type V = ArtifactView;

    open spec fn deep_view(&self) -> ArtifactView {
        self@
    }
}

impl Clone for Artifact {
    fn clone(&self) -> (copy: Self)
        ensures
            copy@ == self@,
    {
        Artifact {
            name: self.name.clone(),
            path: clone_text(&self.path),
            description: clone_text(&self.description),
        }
    }
}

/// Copies an optional text.
pub fn clone_text(text: &Option<String>) -> (copy: Option<String>)
    ensures
        copy.deep_view() == text.deep_view(),
{
    match text {
        Some(s) => Some(s.clone()),
        None => None,
    }
}

/// Copies a list of artifacts, element by element and in order.
pub fn clone_artifacts(artifacts: &Vec<Artifact>) -> (copy: Vec<Artifact>)
    ensures
        copy.deep_view() == artifacts.deep_view(),
{
    let mut copy: Vec<Artifact> = Vec::new();
    let mut i: usize = 0;
    while i < artifacts.len()
        invariant
            i <= artifacts.len(),
            copy.len() == i,
            forall|k: int| 0 <= k < i ==> copy[k]@ == artifacts[k]@,
        decreases artifacts.len() - i,
    {
        copy.push(artifacts[i].clone());
        i = i + 1;
    }
    assert(copy.deep_view() =~= artifacts.deep_view());
    copy
}

/// The result of running one task.
///
/// `task_id` refers back to the task the outcome was produced from.
/// `created_at` is an instant in UTC; it is carried through unread.
#[derive(Debug)]
pub struct AgentOutcome {
    pub task_id: u128,
    pub success: bool,
    pub summary: String,
    pub artifacts: Vec<Artifact>,
    pub created_at: NaiveDateTime,
}

/// Mathematical view of an [`AgentOutcome`].
pub struct AgentOutcomeView {
    pub task_id: u128,
    pub success: bool,
    pub summary: Seq<char>,
    pub artifacts: Seq<ArtifactView>,
    pub created_at: NaiveDateTime,
}

impl View for AgentOutcome {
    type V = AgentOutcomeView;

    open spec fn view(&self) -> AgentOutcomeView {
        AgentOutcomeView {
            task_id: self.task_id,
            success: self.success,
            summary: self.summary@,
            artifacts: self.artifacts.deep_view(),
            created_at: self.created_at,
        }
    }
}

impl DeepView for AgentOutcome {
    type V = AgentOutcomeView;

    open spec fn deep_view(&self) -> AgentOutcomeView {
        self@
    }
}

impl Clone for AgentOutcome {
    fn clone(&self) -> (copy: Self)
        ensures
            copy@ == self@,
    {
        AgentOutcome {
            task_id: self.task_id,
            success: self.success,
            summary: self.summary.clone(),
            artifacts: clone_artifacts(&self.artifacts),
            created_at: self.created_at,
        }
    }
}

/// The top-level unit of intake: one issue or feature request.
#[derive(Debug)]
pub struct WorkItem {
    pub issue_number: Option<u64>,
    pub title: String,
    pub description: String,
    pub status: WorkItemStatus,
    pub tasks: Vec<AgentTask>,
}

/// Mathematical view of a [`WorkItem`].
pub struct WorkItemView {
    pub issue_number: Option<u64>,
    pub title: Seq<char>,
    pub description: Seq<char>,
    pub status: WorkItemStatus,
    pub tasks: Seq<AgentTaskView>,
}

impl View for WorkItem {
    type V = WorkItemView;

    open spec fn view(&self) -> WorkItemView {
        WorkItemView {
            issue_number: self.issue_number,
            title: self.title@,
            description: self.description@,
            status: self.status,
            tasks: self.tasks.deep_view(),
        }
    }
}

impl Clone for WorkItem {
    fn clone(&self) -> (copy: Self)
        ensures
            copy@ == self@,
    {
        WorkItem {
            issue_number: self.issue_number,
            title: self.title.clone(),
            description: self.description.clone(),
            status: self.status,
            tasks: clone_tasks(&self.tasks),
        }
    }
}

/// Description of the project a workspace belongs to.
#[derive(Debug)]
pub struct ProjectMetadata {
    pub name: String,
    pub repository: Option<String>,
    pub created_at: NaiveDateTime,
    pub device_identifier: String,
}

/// Mathematical view of [`ProjectMetadata`].
pub struct ProjectMetadataView {
    pub name: Seq<char>,
    pub repository: Option<Seq<char>>,
    pub created_at: NaiveDateTime,
    pub device_identifier: Seq<char>,
}

impl View for ProjectMetadata {
    type V = ProjectMetadataView;

    open spec fn view(&self) -> ProjectMetadataView {
        ProjectMetadataView {
            name: self.name@,
            repository: self.repository.deep_view(),
            created_at: self.created_at,
            device_identifier: self.device_identifier@,
        }
    }
}

impl Clone for ProjectMetadata {
    fn clone(&self) -> (copy: Self)
        ensures
            copy@ == self@,
    {
        ProjectMetadata {
            name: self.name.clone(),
            repository: clone_text(&self.repository),
            created_at: self.created_at,
            device_identifier: self.device_identifier.clone(),
        }
    }
}

} // verus!
