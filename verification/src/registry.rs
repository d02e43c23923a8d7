//! The registry: at most one executor per agent kind, resolved when a call
//! is dispatched.

use crate::coordinator::orchestrated;
use crate::coordinator::orchestrated_step;
use crate::coordinator::CoordinatorAgent;
use crate::error::AgentError;
use crate::error::AgentErrorView;
use crate::execution::AgentContext;
use crate::execution::AgentExecutor;
use crate::execution::ExecutionReport;
use crate::types::AgentKind;
use crate::types::AgentOutcome;
use crate::types::AgentTask;
use crate::types::WorkItem;
use std::collections::HashMap;
use vstd::prelude::*;

verus! {

broadcast use vstd::std_specs::hash::group_hash_axioms;

/// The executors that ship with the library.
#[derive(Debug, Clone, Copy)]
pub enum BuiltInAgent {
    Coordinator(CoordinatorAgent),
}

impl BuiltInAgent {
    /// The kind of the executor held.
    pub open spec fn spec_kind(&self) -> AgentKind {
        match self {
            BuiltInAgent::Coordinator(agent) => agent.spec_kind(),
        }
    }

    /// The display label of the executor held.
    pub open spec fn spec_name(&self) -> Seq<char> {
        match self {
            BuiltInAgent::Coordinator(agent) => agent.spec_name(),
        }
    }

    /// Whether running `task` on the executor held may end in `result`.
    pub open spec fn may_return(
        &self,
        task: AgentTask,
        ctx: AgentContext,
        result: Result<AgentOutcome, AgentError>,
    ) -> bool {
        match self {
            BuiltInAgent::Coordinator(agent) => agent.may_return(task, ctx, result),
        }
    }

    /// The executor held, behind the common contract: it has the kind and
    /// the name of the executor held, and runs tasks as that one does.
    pub fn executor(&self) -> (executor: &dyn AgentExecutor)
        ensures
            executor.spec_kind() == self.spec_kind(),
            executor.spec_name() == self.spec_name(),
            forall|task: AgentTask, ctx: AgentContext, result: Result<AgentOutcome, AgentError>|
                #[trigger] executor.may_return(task, ctx, result) == self.may_return(
                    task,
                    ctx,
                    result,
                ),
    {
        match self {
            BuiltInAgent::Coordinator(agent) => {
                return agent;
            },
        }
    }
}

/// The table slot of a kind: its position in the declaration of
/// [`AgentKind`].
spec fn kind_slot(kind: AgentKind) -> u64 {
    match kind {
        AgentKind::Coordinator => 0,
        AgentKind::CodeGen => 1,
        AgentKind::Review => 2,
        AgentKind::Test => 3,
        AgentKind::Deploy => 4,
        AgentKind::Issue => 5,
    }
}

fn slot_of(kind: AgentKind) -> (slot: u64)
    ensures
        slot == kind_slot(kind),
{
    match kind {
        AgentKind::Coordinator => 0,
        AgentKind::CodeGen => 1,
        AgentKind::Review => 2,
        AgentKind::Test => 3,
        AgentKind::Deploy => 4,
        AgentKind::Issue => 5,
    }
}

/// Dispatch table from agent kind to executor.
///
/// Every executor is stored under its own kind, so a kind resolves to at
/// most one executor and that executor reports the kind it was found under.
pub struct AgentRegistry {
    agents: HashMap<u64, BuiltInAgent>,
}

impl View for AgentRegistry {
    type V = Map<AgentKind, BuiltInAgent>;

    closed spec fn view(&self) -> Map<AgentKind, BuiltInAgent> {
        Map::new(
            |kind: AgentKind| self.agents@.contains_key(kind_slot(kind)),
            |kind: AgentKind| self.agents@[kind_slot(kind)],
        )
    }
}

impl Default for AgentRegistry {
    fn default() -> (registry: Self)
        ensures
            registry@ == AgentRegistry::built_in(),
    {
        AgentRegistry::new()
    }
}

impl AgentRegistry {
    #[verifier::type_invariant]
    spec fn stored_under_own_kind(&self) -> bool {
        forall|slot: u64| #[trigger]
            self.agents@.contains_key(slot) ==> slot == kind_slot(self.agents@[slot].spec_kind())
    }

    /// The table of a freshly constructed registry: the coordinator, under
    /// its own kind, and nothing else.
    pub open spec fn built_in() -> Map<AgentKind, BuiltInAgent> {
        Map::<AgentKind, BuiltInAgent>::empty().insert(
            AgentKind::Coordinator,
            BuiltInAgent::Coordinator(CoordinatorAgent),
        )
    }

    /// A registry with every built-in executor registered.
    pub fn new() -> (registry: Self)
        ensures
            registry@ == AgentRegistry::built_in(),
            registry@.contains_key(AgentKind::Coordinator),
    {
        let mut registry = AgentRegistry::empty();
        registry.register(BuiltInAgent::Coordinator(CoordinatorAgent));
        assert(registry@ =~= AgentRegistry::built_in());
        registry
    }

    /// A registry with no executor registered.
    pub fn empty() -> (registry: Self)
        ensures
            registry@ == Map::<AgentKind, BuiltInAgent>::empty(),
    {
        let registry = AgentRegistry { agents: HashMap::new() };
        assert(registry@ =~= Map::<AgentKind, BuiltInAgent>::empty());
        registry
    }

    /// Registers `agent` under its own kind, replacing the executor that
    /// was registered for that kind, if any.
    pub fn register(&mut self, agent: BuiltInAgent)
        ensures
            final(self)@ == old(self)@.insert(agent.spec_kind(), agent),
    {
        proof {
            use_type_invariant(&*self);
        }
        let slot: u64 = slot_of(agent.executor().kind());
        // The table is taken out while it changes, so that the registry is
        // never left half-updated.
        let mut agents: HashMap<u64, BuiltInAgent> = HashMap::new();
        std::mem::swap(&mut self.agents, &mut agents);
        agents.insert(slot, agent);
        std::mem::swap(&mut self.agents, &mut agents);
        assert(self@ =~= old(self)@.insert(agent.spec_kind(), agent));
    }

    /// The executor registered for `kind`, if there is one. An executor
    /// that is found has the kind it was looked up under.
    pub fn resolve(&self, kind: AgentKind) -> (found: Option<&BuiltInAgent>)
        ensures
            match found {
                Some(agent) => self@.contains_key(kind) && *agent == self@[kind]
                    && agent.spec_kind() == kind,
                None => !self@.contains_key(kind),
            },
    {
        proof {
            use_type_invariant(self);
        }
        let slot: u64 = slot_of(kind);
        self.agents.get(&slot)
    }

    /// Resolves the coordinator and has it orchestrate `work_item`.
    ///
    /// With the coordinator registered the call succeeds with the four
    /// reports of the plan; without it the call fails with
    /// [`AgentError::NotRegistered`] and nothing is run.
    pub fn run_coordinator(&self, ctx: &AgentContext, work_item: &WorkItem) -> (result: Result<
        Vec<ExecutionReport>,
        AgentError,
    >)
        ensures
            self@.contains_key(AgentKind::Coordinator) ==> (result matches Ok(reports) && {
                &&& orchestrated(work_item.title@, reports.deep_view())
                &&& reports@.len() == 4
                &&& forall|step: int|
                    0 <= step < 4 ==> orchestrated_step(
                        work_item.title@,
                        step,
                        (#[trigger] reports[step])@,
                    )
            }),
            !self@.contains_key(AgentKind::Coordinator) ==> (result matches Err(error)
                && error@ == (AgentErrorView::NotRegistered { kind: AgentKind::Coordinator })),
    {
        match self.resolve(AgentKind::Coordinator) {
            Some(agent) => match agent {
                BuiltInAgent::Coordinator(coordinator) => coordinator.orchestrate(work_item, ctx),
            },
            None => Err(AgentError::NotRegistered { kind: AgentKind::Coordinator }),
        }
    }
}

/// A freshly constructed registry holds the coordinator, under its own
/// kind, and no other executor.
pub proof fn law_built_in_registry_holds_the_coordinator()
    ensures
        AgentRegistry::built_in().contains_key(AgentKind::Coordinator),
        AgentRegistry::built_in()[AgentKind::Coordinator] == BuiltInAgent::Coordinator(
            CoordinatorAgent,
        ),
        AgentRegistry::built_in()[AgentKind::Coordinator].spec_kind() == AgentKind::Coordinator,
        forall|kind: AgentKind|
            kind != AgentKind::Coordinator ==> !(#[trigger] AgentRegistry::built_in().contains_key(
                kind,
            )),
{
}

} // verus!
