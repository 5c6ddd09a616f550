//! A model of the server, and of a run against it.
//!
//! The model server knows hosts by name and holds the keys of its items, the
//! names of its web scenarios and the descriptions of its triggers. It
//! answers every lookup truthfully and every creation succeeds. A run of the
//! engine against it is the sequence of steps in which each action is
//! answered by the model. None of this runs: it is what the laws of the
//! engine are stated over.

use crate::reconcile::machine::{initial_progress, step_view, ProgressView, ReplyView};
use crate::reconcile::outcome::EntityKind;
use crate::reconcile::plan::{ActionView, PlanView};
use vstd::prelude::*;

verus! {

/// The state of the model server.
pub struct Remote {
    /// The id of each known host, by its name.
    pub hosts: Map<Seq<char>, Seq<char>>,
    /// The keys of the items.
    pub items: Set<Seq<char>>,
    /// The names of the web scenarios.
    pub scenarios: Set<Seq<char>>,
    /// The descriptions of the triggers.
    pub triggers: Set<Seq<char>>,
}

impl Remote {
    /// The id of the host called `name`, if the server knows it.
    pub open spec fn host_id(self, name: Seq<char>) -> Option<Seq<char>> {
        if self.hosts.contains_key(name) {
            Some(self.hosts[name])
        } else {
            None
        }
    }

    /// The server holds an object of this kind under `id`.
    pub open spec fn holds(self, kind: EntityKind, id: Seq<char>) -> bool {
        match kind {
            EntityKind::Item => self.items.contains(id),
            EntityKind::Scenario => self.scenarios.contains(id),
            EntityKind::Trigger => self.triggers.contains(id),
        }
    }

    /// The server after an object of this kind was created under `id`.
    pub open spec fn with(self, kind: EntityKind, id: Seq<char>) -> Remote {
        match kind {
            EntityKind::Item => Remote { items: self.items.insert(id), ..self },
            EntityKind::Scenario => Remote { scenarios: self.scenarios.insert(id), ..self },
            EntityKind::Trigger => Remote { triggers: self.triggers.insert(id), ..self },
        }
    }
}

/// What the model server does with an action: its state afterwards and the
/// reply that the engine gets.
pub open spec fn answer(remote: Remote, action: ActionView) -> (Remote, ReplyView) {
    match action {
        ActionView::ResolveHost { host_name } => (remote, ReplyView::Host(remote.host_id(host_name))),
        ActionView::FindItem { key } => (
            remote,
            ReplyView::Found(remote.holds(EntityKind::Item, key)),
        ),
        ActionView::CreateItem(request) => (
            remote.with(EntityKind::Item, request.key_),
            ReplyView::Created,
        ),
        ActionView::FindWebScenario { name } => (
            remote,
            ReplyView::Found(remote.holds(EntityKind::Scenario, name)),
        ),
        ActionView::CreateWebScenario(request) => (
            remote.with(EntityKind::Scenario, request.name),
            ReplyView::Created,
        ),
        ActionView::FindTrigger { description } => (
            remote,
            ReplyView::Found(remote.holds(EntityKind::Trigger, description)),
        ),
        ActionView::CreateTrigger(request) => (
            remote.with(EntityKind::Trigger, request.description),
            ReplyView::Created,
        ),
        ActionView::Finish => (remote, ReplyView::Start),
    }
}

/// What a run leaves: the engine's progress, the server's state and the
/// actions that were taken, in their order.
pub struct Run {
    pub progress: ProgressView,
    pub remote: Remote,
    pub actions: Seq<ActionView>,
}

/// The run from the given progress on, of at most `fuel` steps after the
/// first.
pub open spec fn run_steps(
    plan: PlanView,
    p: ProgressView,
    remote: Remote,
    reply: ReplyView,
    fuel: nat,
) -> Run
    decreases fuel,
{
    let (stepped, action) = step_view(plan, p, reply);
    if action is Finish || fuel == 0 {
        Run { progress: stepped, remote, actions: seq![action] }
    } else {
        let (answered, heard) = answer(remote, action);
        let rest = run_steps(plan, stepped, answered, heard, (fuel - 1) as nat);
        Run { actions: seq![action] + rest.actions, ..rest }
    }
}

/// The number of steps within which every run of `plan` is over: two at the
/// start and seven for each source.
pub open spec fn step_budget(plan: PlanView) -> nat {
    7 * plan.sources.len() + 2
}

/// The whole run of `plan` against the model server in state `remote`.
pub open spec fn run(plan: PlanView, remote: Remote) -> Run {
    run_steps(plan, initial_progress(), remote, ReplyView::Start, step_budget(plan))
}

/// The id of the host under which source `i` is processed; `None` where the
/// source is skipped because the server does not know the host.
pub open spec fn resolved_host(plan: PlanView, remote: Remote, i: int) -> Option<Seq<char>> {
    crate::reconcile::machine::usable_host(remote.host_id(plan.host_name(i)))
}

/// Nothing is missing on the server for source `i`: its host is unknown, or
/// its item, its web scenario and its trigger are there.
pub open spec fn covered(plan: PlanView, remote: Remote, i: int) -> bool {
    resolved_host(plan, remote, i) is Some ==> {
        &&& remote.holds(EntityKind::Item, plan.identifier(i, EntityKind::Item))
        &&& remote.holds(EntityKind::Scenario, plan.identifier(i, EntityKind::Scenario))
        &&& remote.holds(EntityKind::Trigger, plan.identifier(i, EntityKind::Trigger))
    }
}

/// Nothing is missing on the server for any source of the plan.
pub open spec fn all_covered(plan: PlanView, remote: Remote) -> bool {
    forall|i: int| 0 <= i < plan.sources.len() ==> covered(plan, remote, i)
}

/// No action of the list creates anything.
pub open spec fn no_creation(actions: Seq<ActionView>) -> bool {
    forall|k: int| 0 <= k < actions.len() ==> !(#[trigger] actions[k]).is_creation()
}

} // verus!
