//! The coordinator: it decomposes a work item into a fixed four-step plan
//! and runs the plan in order, one report per task.

use crate::error::AgentError;
use crate::execution::outcome_of;
use crate::execution::success_outcome;
use crate::execution::AgentContext;
use crate::execution::AgentExecutor;
use crate::execution::ExecutionReport;
use crate::execution::ExecutionReportView;
use crate::identifiers::is_random_uuid;
use crate::identifiers::law_spaced_ids_differ;
use crate::identifiers::law_spacing_keeps_uuids;
use crate::identifiers::space_apart;
use crate::platform::fresh_task_id;
use crate::types::AgentKind;
use crate::types::AgentOutcome;
use crate::types::AgentTask;
use crate::types::AgentTaskView;
use crate::types::TaskPriority;
use crate::types::WorkItem;
use vstd::prelude::*;
use vstd::string::*;

verus! {

/// Number of steps in every plan.
pub const PLAN_STEPS: usize = 4;

/// The role that handles step `step` of a plan.
pub open spec fn step_kind(step: int) -> AgentKind {
    if step == 0 {
        AgentKind::Issue
    } else if step == 1 {
        AgentKind::CodeGen
    } else if step == 2 {
        AgentKind::Test
    } else {
        AgentKind::Review
    }
}

/// The priority of step `step` of a plan.
pub open spec fn step_priority(step: int) -> TaskPriority {
    if step == 0 || step == 1 {
        TaskPriority::High
    } else {
        TaskPriority::Medium
    }
}

/// The title of step `step` of a plan.
pub open spec fn step_title(step: int) -> Seq<char> {
    if step == 0 {
        "Analyze issue context"@
    } else if step == 1 {
        "Implement solution"@
    } else if step == 2 {
        "Run verification suite"@
    } else {
        "Review code changes"@
    }
}

/// The description of step `step` of the plan for a work item titled
/// `work_title`. Only the first step quotes the title.
pub open spec fn step_description(step: int, work_title: Seq<char>) -> Seq<char> {
    if step == 0 {
        "Review the problem statement for '"@ + work_title + "'"@
    } else if step == 1 {
        "Generate code changes to satisfy the requirements"@
    } else if step == 2 {
        "Execute unit and integration tests"@
    } else {
        "Perform automated review of generated code"@
    }
}

/// Step `step` of the plan for a work item titled `work_title`, carrying
/// the identifier `id`.
pub open spec fn planned_task(work_title: Seq<char>, step: int, id: u128) -> AgentTaskView {
    AgentTaskView {
        id,
        title: step_title(step),
        description: step_description(step, work_title),
        agent: step_kind(step),
        priority: step_priority(step),
    }
}

/// The plan for a work item titled `work_title` whose tasks carry the
/// identifiers `ids`, in order.
pub open spec fn plan_for(work_title: Seq<char>, ids: Seq<u128>) -> Seq<AgentTaskView> {
    Seq::new(PLAN_STEPS as nat, |step: int| planned_task(work_title, step, ids[step]))
}

/// The identifiers of `tasks`, in order.
pub open spec fn task_ids(tasks: Seq<AgentTaskView>) -> Seq<u128> {
    Seq::new(tasks.len(), |i: int| tasks[i].id)
}

/// The roles of `tasks`, in order.
pub open spec fn task_kinds(tasks: Seq<AgentTaskView>) -> Seq<AgentKind> {
    Seq::new(tasks.len(), |i: int| tasks[i].agent)
}

/// The priorities of `tasks`, in order.
pub open spec fn task_priorities(tasks: Seq<AgentTaskView>) -> Seq<TaskPriority> {
    Seq::new(tasks.len(), |i: int| tasks[i].priority)
}

/// `needle` stands in `haystack` at offset `start`.
pub open spec fn occurs_at(haystack: Seq<char>, needle: Seq<char>, start: int) -> bool {
    &&& 0 <= start
    &&& start + needle.len() <= haystack.len()
    &&& haystack.subrange(start, start + needle.len()) == needle
}

/// `needle` stands somewhere in `haystack`, character for character.
pub open spec fn contains_text(haystack: Seq<char>, needle: Seq<char>) -> bool {
    exists|start: int| occurs_at(haystack, needle, start)
}

/// The summary of every outcome the coordinator produces.
pub open spec fn queued_summary() -> Seq<char> {
    "Task queued for specialist agents (simulated)"@
}

/// `report` pairs a task with the coordinator's outcome for it: a success
/// that refers back to the task, with the summary [`queued_summary`] and no
/// artifacts. Only the creation instant is left open.
pub open spec fn accepted(report: ExecutionReportView) -> bool {
    report.outcome == outcome_of(
        report.task,
        true,
        queued_summary(),
        report.outcome.created_at,
    )
}

/// The tasks of `reports`, in order.
pub open spec fn report_tasks(reports: Seq<ExecutionReportView>) -> Seq<AgentTaskView> {
    Seq::new(reports.len(), |i: int| reports[i].task)
}

/// `reports` is what running `plan` gives: one accepted report per task, in
/// plan order.
pub open spec fn reports_of(plan: Seq<AgentTaskView>, reports: Seq<ExecutionReportView>) -> bool {
    &&& report_tasks(reports) == plan
    &&& forall|i: int| 0 <= i < reports.len() ==> accepted(#[trigger] reports[i])
}

/// `report` is what orchestrating a work item titled `work_title` gives at
/// position `step`: that step of the plan, under a random identifier, with
/// the coordinator's outcome for it.
pub open spec fn orchestrated_step(
    work_title: Seq<char>,
    step: int,
    report: ExecutionReportView,
) -> bool {
    &&& report.task == planned_task(work_title, step, report.task.id)
    &&& is_random_uuid(report.task.id)
    &&& accepted(report)
}

/// `reports` is what orchestrating a work item titled `work_title` gives:
/// one report for each of the four steps of its plan, in plan order, no two
/// tasks under the same identifier.
pub open spec fn orchestrated(work_title: Seq<char>, reports: Seq<ExecutionReportView>) -> bool {
    &&& reports.len() == PLAN_STEPS
    &&& forall|step: int|
        0 <= step < reports.len() ==> orchestrated_step(work_title, step, #[trigger] reports[step])
    &&& task_ids(report_tasks(reports)).no_duplicates()
}

/// The built-in executor for [`AgentKind::Coordinator`].
#[derive(Debug, Clone, Copy)]
pub struct CoordinatorAgent;

impl AgentExecutor for CoordinatorAgent {
    open spec fn spec_kind(&self) -> AgentKind {
        AgentKind::Coordinator
    }

    open spec fn spec_name(&self) -> Seq<char> {
        "CoordinatorAgent"@
    }

    /// The coordinator accepts every task in every environment: a run ends
    /// in a success that refers back to the task, with the summary
    /// [`queued_summary`] and no artifacts. Only the creation instant is
    /// left open.
    open spec fn may_return(
        &self,
        task: AgentTask,
        ctx: AgentContext,
        result: Result<AgentOutcome, AgentError>,
    ) -> bool {
        result matches Ok(outcome) && outcome@ == outcome_of(
            task@,
            true,
            queued_summary(),
            outcome.created_at,
        )
    }

    fn kind(&self) -> (kind: AgentKind) {
        AgentKind::Coordinator
    }

    fn name(&self) -> (name: &'static str) {
        "CoordinatorAgent"
    }

    /// Accepts the task: always succeeds, with the summary
    /// [`queued_summary`] and no artifacts. Nothing is done yet beyond
    /// accepting; the work itself is left to specialist agents.
    fn run(&self, task: &AgentTask, ctx: &AgentContext) -> (result: Result<
        AgentOutcome,
        AgentError,
    >)
        ensures
            result matches Ok(outcome) && outcome@ == outcome_of(
                task@,
                true,
                queued_summary(),
                outcome.created_at,
            ),
    {
        Ok(success_outcome(task, "Task queued for specialist agents (simulated)"))
    }
}

impl CoordinatorAgent {
    /// The fixed four-step plan for `work_item`: whatever the work item
    /// holds, four tasks for Issue, CodeGen, Test and Review in this order,
    /// the first of which quotes the work item's title. Each task gets a
    /// fresh random identifier, and no two tasks get the same.
    pub fn build_plan(&self, work_item: &WorkItem) -> (plan: Vec<AgentTask>)
        ensures
            plan@.len() == 4,
            plan.deep_view() == plan_for(work_item.title@, task_ids(plan.deep_view())),
            task_ids(plan.deep_view()).no_duplicates(),
            forall|i: int, j: int|
                0 <= i < j < 4 ==> (#[trigger] plan[i]).id != (#[trigger] plan[j]).id,
            forall|i: int| 0 <= i < 4 ==> is_random_uuid(#[trigger] plan[i].id),
            task_kinds(plan.deep_view()) == seq![
                AgentKind::Issue,
                AgentKind::CodeGen,
                AgentKind::Test,
                AgentKind::Review,
            ],
            task_priorities(plan.deep_view()) == seq![
                TaskPriority::High,
                TaskPriority::High,
                TaskPriority::Medium,
                TaskPriority::Medium,
            ],
            contains_text(plan[0].description@, work_item.title@),
    {
        let drawn: [u128; 4] = [
            fresh_task_id(),
            fresh_task_id(),
            fresh_task_id(),
            fresh_task_id(),
        ];
        let ids = space_apart(&drawn);
        let plan = self.plan_with_ids(work_item, &ids);
        proof {
            law_spaced_ids_differ(drawn@);
            law_spacing_keeps_uuids(drawn@);
            assert(task_ids(plan.deep_view()) =~= ids@);
            law_plan_shape(work_item.title@, ids@);
            law_first_step_quotes_title(work_item.title@, ids@);
            assert forall|i: int, j: int| 0 <= i < j < 4 implies (#[trigger] plan[i]).id != (
            #[trigger] plan[j]).id by {
                assert(plan.deep_view()[i] == plan[i]@);
                assert(plan.deep_view()[j] == plan[j]@);
                assert(ids@[i] != ids@[j]);
            }
        }
        plan
    }

    /// Plans `work_item` and runs the plan on this executor: as many reports
    /// as the plan has tasks, in plan order, every outcome a success that
    /// refers back to the task it is paired with.
    pub fn orchestrate(&self, work_item: &WorkItem, ctx: &AgentContext) -> (result: Result<
        Vec<ExecutionReport>,
        AgentError,
    >)
        ensures
            result matches Ok(reports) && {
                &&& orchestrated(work_item.title@, reports.deep_view())
                &&& reports@.len() == 4
                &&& forall|step: int|
                    0 <= step < 4 ==> orchestrated_step(
                        work_item.title@,
                        step,
                        (#[trigger] reports[step])@,
                    )
            },
    {
        let plan = self.build_plan(work_item);
        let ghost planned = plan.deep_view();
        match self.execute_plan(plan, ctx) {
            Ok(reports) => {
                proof {
                    assert(report_tasks(reports.deep_view()) == planned);
                    assert forall|step: int| 0 <= step < 4 implies orchestrated_step(
                        work_item.title@,
                        step,
                        (#[trigger] reports[step])@,
                    ) by {
                        assert(reports.deep_view()[step] == reports[step]@);
                        assert(report_tasks(reports.deep_view())[step] == reports[step].task@);
                        assert(task_ids(planned)[step] == planned[step].id);
                    }
                    assert forall|step: int| 0 <= step < 4 implies orchestrated_step(
                        work_item.title@,
                        step,
                        #[trigger] reports.deep_view()[step],
                    ) by {
                        assert(reports.deep_view()[step] == reports[step]@);
                    }
                }
                Ok(reports)
            },
            Err(error) => Err(error),
        }
    }

    /// Runs `plan` in order on this executor, whatever role each task names.
    /// The first failure ends the run and is returned as it came, without
    /// the reports gathered so far; the coordinator itself never fails.
    pub fn execute_plan(&self, plan: Vec<AgentTask>, ctx: &AgentContext) -> (result: Result<
        Vec<ExecutionReport>,
        AgentError,
    >)
        ensures
            result matches Ok(reports) && reports_of(plan.deep_view(), reports.deep_view()),
    {
        let ghost planned = plan.deep_view();
        let mut pending = plan;
        let mut reports: Vec<ExecutionReport> = Vec::new();
        while pending.len() > 0
            invariant
                reports.len() + pending.len() == planned.len(),
                forall|i: int|
                    0 <= i < reports.len() ==> (#[trigger] reports[i]).task@ == planned[i],
                forall|i: int| 0 <= i < reports.len() ==> accepted((#[trigger] reports[i])@),
                forall|i: int|
                    0 <= i < pending.len() ==> (#[trigger] pending[i])@ == planned[reports.len()
                        + i],
            decreases pending.len(),
        {
            let task = pending.remove(0);
            match self.run(&task, ctx) {
                Ok(outcome) => {
                    reports.push(ExecutionReport { task, outcome });
                },
                Err(error) => {
                    return Err(error);
                },
            }
        }
        assert(report_tasks(reports.deep_view()) =~= planned);
        Ok(reports)
    }

    /// The fixed four-step plan for `work_item`, its tasks carrying the
    /// identifiers `ids` in order.
    pub fn plan_with_ids(&self, work_item: &WorkItem, ids: &[u128; 4]) -> (plan: Vec<AgentTask>)
        ensures
            plan.deep_view() == plan_for(work_item.title@, ids@),
    {
        let mut analysis = String::from_str("Review the problem statement for '");
        analysis.append(work_item.title.as_str());
        analysis.append("'");

        let mut plan: Vec<AgentTask> = Vec::new();
        plan.push(
            AgentTask {
                id: ids[0],
                title: String::from_str("Analyze issue context"),
                description: analysis,
                agent: AgentKind::Issue,
                priority: TaskPriority::High,
            },
        );
        plan.push(
            AgentTask {
                id: ids[1],
                title: String::from_str("Implement solution"),
                description: String::from_str("Generate code changes to satisfy the requirements"),
                agent: AgentKind::CodeGen,
                priority: TaskPriority::High,
            },
        );
        plan.push(
            AgentTask {
                id: ids[2],
                title: String::from_str("Run verification suite"),
                description: String::from_str("Execute unit and integration tests"),
                agent: AgentKind::Test,
                priority: TaskPriority::Medium,
            },
        );
        plan.push(
            AgentTask {
                id: ids[3],
                title: String::from_str("Review code changes"),
                description: String::from_str("Perform automated review of generated code"),
                agent: AgentKind::Review,
                priority: TaskPriority::Medium,
            },
        );
        assert(plan.deep_view() =~= plan_for(work_item.title@, ids@));
        plan
    }
}

/// Every plan has four tasks, assigned in order to Issue, CodeGen, Test and
/// Review, with priorities High, High, Medium and Medium, whatever the work
/// item's title and the identifiers.
pub proof fn law_plan_shape(work_title: Seq<char>, ids: Seq<u128>)
    ensures
        plan_for(work_title, ids).len() == 4,
        task_kinds(plan_for(work_title, ids)) == seq![
            AgentKind::Issue,
            AgentKind::CodeGen,
            AgentKind::Test,
            AgentKind::Review,
        ],
        task_priorities(plan_for(work_title, ids)) == seq![
            TaskPriority::High,
            TaskPriority::High,
            TaskPriority::Medium,
            TaskPriority::Medium,
        ],
{
    assert(task_kinds(plan_for(work_title, ids)) =~= seq![
        AgentKind::Issue,
        AgentKind::CodeGen,
        AgentKind::Test,
        AgentKind::Review,
    ]);
    assert(task_priorities(plan_for(work_title, ids)) =~= seq![
        TaskPriority::High,
        TaskPriority::High,
        TaskPriority::Medium,
        TaskPriority::Medium,
    ]);
}

/// The description of a plan's first task contains the work item's title
/// verbatim.
pub proof fn law_first_step_quotes_title(work_title: Seq<char>, ids: Seq<u128>)
    ensures
        contains_text(plan_for(work_title, ids)[0].description, work_title),
{
    let prefix = "Review the problem statement for '"@;
    let description = plan_for(work_title, ids)[0].description;
    let start = prefix.len() as int;
    assert(description.subrange(start, start + work_title.len()) =~= work_title);
    assert(occurs_at(description, work_title, start));
}

/// Orchestration reports exactly the tasks of the plan, in plan order, and
/// every outcome is a success.
pub proof fn law_reports_follow_plan(work_title: Seq<char>, reports: Seq<ExecutionReportView>)
    requires
        orchestrated(work_title, reports),
    ensures
        reports.len() == plan_for(work_title, task_ids(report_tasks(reports))).len(),
        report_tasks(reports) == plan_for(work_title, task_ids(report_tasks(reports))),
        forall|i: int| 0 <= i < reports.len() ==> (#[trigger] reports[i]).outcome.success,
{
    assert(report_tasks(reports) =~= plan_for(work_title, task_ids(report_tasks(reports))));
}

/// Every report of an orchestration pairs a task with an outcome that
/// refers back to that task.
pub proof fn law_reports_are_consistent(work_title: Seq<char>, reports: Seq<ExecutionReportView>)
    requires
        orchestrated(work_title, reports),
    ensures
        forall|i: int| 0 <= i < reports.len() ==> (#[trigger] reports[i]).consistent(),
{
}

/// No two reports of an orchestration carry tasks with the same identifier.
pub proof fn law_reported_tasks_differ(work_title: Seq<char>, reports: Seq<ExecutionReportView>)
    requires
        orchestrated(work_title, reports),
    ensures
        forall|i: int, j: int|
            0 <= i < j < reports.len() ==> (#[trigger] reports[i]).task.id != (
            #[trigger] reports[j]).task.id,
{
    let ids = task_ids(report_tasks(reports));
    assert forall|i: int, j: int| 0 <= i < j < reports.len() implies (#[trigger] reports[i]).task.id
        != (#[trigger] reports[j]).task.id by {
        assert(ids[i] == reports[i].task.id);
        assert(ids[j] == reports[j].task.id);
    }
}

/// A plan carries exactly the identifiers it was built with, so identifiers
/// that differ pairwise give tasks whose identifiers differ pairwise.
pub proof fn law_distinct_ids_stay_distinct(work_title: Seq<char>, ids: Seq<u128>)
    requires
        ids.len() == 4,
        ids.no_duplicates(),
    ensures
        task_ids(plan_for(work_title, ids)) == ids,
        forall|i: int, j: int|
            0 <= i < j < 4 ==> (#[trigger] plan_for(work_title, ids)[i]).id != (
            #[trigger] plan_for(work_title, ids)[j]).id,
{
    assert(task_ids(plan_for(work_title, ids)) =~= ids);
}

} // verus!
