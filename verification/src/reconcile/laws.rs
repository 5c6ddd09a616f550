//! The laws of the engine.
//!
//! The laws on whole runs are stated of runs against the model server, which
//! answers truthfully and never fails. The laws on single steps hold
//! whatever the driver replies.

use crate::reconcile::machine::{
    after_entity_view, begin_source_view, failures, initial_progress, lemma_step_fits,
    progress_fits, replay, skip_view, step_view, steps_left, usable_host, well_answered, Fatal,
    Phase, ProgressView, ReplyView,
};
use crate::reconcile::model::{
    all_covered, answer, covered, no_creation, resolved_host, run, run_steps, step_budget, Remote,
};
use crate::reconcile::outcome::{
    any_failed, entity_failed, run_status, source_failed, EntityKind, EntityOutcome, SourceOutcome,
};
use crate::reconcile::plan::{ActionView, PlanView};
use vstd::prelude::*;

verus! {

/// The objects that come before `kind` in the order of a source are on the
/// server.
pub open spec fn held_before(plan: PlanView, remote: Remote, i: int, kind: EntityKind) -> bool {
    match kind {
        EntityKind::Item => true,
        EntityKind::Scenario => remote.holds(
            EntityKind::Item,
            plan.identifier(i, EntityKind::Item),
        ),
        EntityKind::Trigger => remote.holds(EntityKind::Item, plan.identifier(i, EntityKind::Item))
            && remote.holds(EntityKind::Scenario, plan.identifier(i, EntityKind::Scenario)),
    }
}

/// Nothing is missing on the server for any of the first `n` sources.
pub open spec fn covered_upto(plan: PlanView, remote: Remote, n: int) -> bool {
    forall|i: int| 0 <= i < n ==> #[trigger] covered(plan, remote, i)
}

/// Each of the outcomes is a skip exactly when the server does not know the
/// host of its source.
pub open spec fn skips_match(plan: PlanView, remote: Remote, outcomes: Seq<SourceOutcome>) -> bool {
    forall|i: int|
        0 <= i < outcomes.len() ==> ((#[trigger] outcomes[i]) is Skipped <==> resolved_host(
            plan,
            remote,
            i,
        ) is None)
}

/// Nothing is missing on the server for the sources that are done, and each
/// was skipped exactly when its host is unknown.
pub open spec fn done_sources_covered(plan: PlanView, p: ProgressView, remote: Remote) -> bool {
    covered_upto(plan, remote, p.next) && skips_match(plan, remote, p.outcomes)
}

proof fn lemma_source_done(plan: PlanView, p: ProgressView, remote: Remote, outcome: SourceOutcome)
    requires
        0 <= p.next,
        p.outcomes.len() == p.next,
        done_sources_covered(plan, p, remote),
        covered(plan, remote, p.next),
        outcome is Skipped <==> resolved_host(plan, remote, p.next) is None,
    ensures
        covered_upto(plan, remote, p.next + 1),
        skips_match(plan, remote, p.outcomes.push(outcome)),
{
    let more = p.outcomes.push(outcome);
    assert forall|i: int| 0 <= i < more.len() implies ((#[trigger] more[i]) is Skipped
        <==> resolved_host(plan, remote, i) is None) by {
        if i < p.outcomes.len() {
            assert(more[i] == p.outcomes[i]);
        }
    }
}

proof fn lemma_created_keeps_covered(
    plan: PlanView,
    remote: Remote,
    kind: EntityKind,
    id: Seq<char>,
    n: int,
    outcomes: Seq<SourceOutcome>,
)
    requires
        covered_upto(plan, remote, n),
        skips_match(plan, remote, outcomes),
    ensures
        covered_upto(plan, remote.with(kind, id), n),
        skips_match(plan, remote.with(kind, id), outcomes),
{
    let more = remote.with(kind, id);
    assert forall|i: int| 0 <= i < n implies #[trigger] covered(plan, more, i) by {
        assert(covered(plan, remote, i));
    }
    assert forall|i: int| 0 <= i < outcomes.len() implies ((#[trigger] outcomes[i]) is Skipped
        <==> resolved_host(plan, more, i) is None) by {
        assert(resolved_host(plan, more, i) == resolved_host(plan, remote, i));
    }
}

/// The host that is configured for all sources has been looked up, and the
/// engine holds what the server said.
pub open spec fn fixed_host_known(plan: PlanView, p: ProgressView, remote: Remote) -> bool {
    plan.has_override() ==> p.fixed_host == usable_host(remote.host_id(plan.target_hostname))
}

/// The progress is that of a run against the model server in state
/// `remote`, and `reply` is the server's reply to the action that the engine
/// handed out last.
pub open spec fn in_step(plan: PlanView, p: ProgressView, remote: Remote, reply: ReplyView) -> bool {
    &&& progress_fits(plan, p)
    &&& p.fatal is None
    &&& p.phase is Finished ==> p.next == plan.sources.len()
    &&& !(p.phase is Idle) && !(p.phase is OverrideLookup) ==> fixed_host_known(plan, p, remote)
    &&& done_sources_covered(plan, p, remote)
    &&& match p.phase {
        Phase::Idle => reply == ReplyView::Start,
        Phase::OverrideLookup => plan.has_override() && reply == ReplyView::Host(
            remote.host_id(plan.target_hostname),
        ),
        Phase::HostLookup => !plan.has_override() && reply == ReplyView::Host(
            remote.host_id(plan.sources[p.next].zabbix_host),
        ),
        Phase::Lookup(kind) => {
            &&& resolved_host(plan, remote, p.next) == Some(p.host_id)
            &&& held_before(plan, remote, p.next, kind)
            &&& reply == ReplyView::Found(remote.holds(kind, plan.identifier(p.next, kind)))
        },
        Phase::Creation(kind) => {
            &&& resolved_host(plan, remote, p.next) == Some(p.host_id)
            &&& held_before(plan, remote, p.next, kind)
            &&& remote.holds(kind, plan.identifier(p.next, kind))
            &&& reply == ReplyView::Created
        },
        Phase::Finished => true,
    }
}

/// The source was skipped, or all its objects were found.
pub open spec fn untouched(outcome: SourceOutcome) -> bool {
    outcome is Skipped || outcome == (SourceOutcome::Processed {
        item: EntityOutcome::Present,
        scenario: EntityOutcome::Present,
        trigger: EntityOutcome::Present,
    })
}

/// Every source among the outcomes was skipped or found complete.
pub open spec fn all_untouched(outcomes: Seq<SourceOutcome>) -> bool {
    forall|i: int| 0 <= i < outcomes.len() ==> untouched(#[trigger] outcomes[i])
}

proof fn lemma_untouched_push(outcomes: Seq<SourceOutcome>, outcome: SourceOutcome)
    requires
        all_untouched(outcomes),
        untouched(outcome),
    ensures
        all_untouched(outcomes.push(outcome)),
{
    let more = outcomes.push(outcome);
    assert forall|i: int| 0 <= i < more.len() implies untouched(#[trigger] more[i]) by {
        if i < outcomes.len() {
            assert(more[i] == outcomes[i]);
        }
    }
}

/// So far nothing was created and nothing is about to be.
pub open spec fn calm(p: ProgressView) -> bool {
    &&& !(p.phase is Creation)
    &&& all_untouched(p.outcomes)
    &&& (p.phase == Phase::Lookup(EntityKind::Scenario) || p.phase == Phase::Lookup(
        EntityKind::Trigger,
    )) ==> p.item is Present
    &&& p.phase == Phase::Lookup(EntityKind::Trigger) ==> p.scenario is Present
}

/// What holds after a step from a state of a run against the model server.
pub open spec fn step_kept(
    plan: PlanView,
    p: ProgressView,
    remote: Remote,
    stepped: ProgressView,
    action: ActionView,
) -> bool {
    let (answered, heard) = answer(remote, action);
    &&& in_step(plan, stepped, answered, heard)
    &&& answered.hosts == remote.hosts
    &&& (action is Finish <==> stepped.phase is Finished)
    &&& !action.is_creation() ==> answered == remote
    &&& all_covered(plan, remote) && calm(p) ==> calm(stepped) && !action.is_creation()
}

proof fn lemma_begin_source(plan: PlanView, p: ProgressView, remote: Remote)
    requires
        0 <= p.next <= plan.sources.len(),
        p.outcomes.len() == p.next,
        p.fatal is None,
        fixed_host_known(plan, p, remote),
        done_sources_covered(plan, p, remote),
    ensures
        ({
            let (stepped, action) = begin_source_view(plan, p);
            &&& step_kept(plan, ProgressView { phase: Phase::Finished, ..p }, remote, stepped, action)
            &&& steps_left(plan, stepped) <= 7 * (plan.sources.len() - p.next)
        }),
    decreases plan.sources.len() - p.next,
{
    if p.next < plan.sources.len() && plan.has_override() {
        if p.fixed_host is None {
            let skipped = skip_view(p);
            assert(resolved_host(plan, remote, p.next) is None);
            lemma_source_done(plan, p, remote, SourceOutcome::Skipped);
            lemma_begin_source(plan, skipped, remote);
            if all_untouched(p.outcomes) {
                lemma_untouched_push(p.outcomes, SourceOutcome::Skipped);
            }
        } else {
            let (stepped, action) = begin_source_view(plan, p);
            assert(resolved_host(plan, remote, p.next) == Some(stepped.host_id));
        }
    }
}

proof fn lemma_after_entity(
    plan: PlanView,
    p: ProgressView,
    remote: Remote,
    kind: EntityKind,
    outcome: EntityOutcome,
)
    requires
        0 <= p.next < plan.sources.len(),
        p.outcomes.len() == p.next,
        p.fatal is None,
        p.phase is Lookup || p.phase is Creation,
        fixed_host_known(plan, p, remote),
        done_sources_covered(plan, p, remote),
        resolved_host(plan, remote, p.next) == Some(p.host_id),
        held_before(plan, remote, p.next, kind),
        remote.holds(kind, plan.identifier(p.next, kind)),
        outcome is Present || outcome is Created,
    ensures
        ({
            let (stepped, action) = after_entity_view(plan, p, kind, outcome);
            let (answered, heard) = answer(remote, action);
            &&& in_step(plan, stepped, answered, heard)
            &&& answered == remote
            &&& !action.is_creation()
            &&& (action is Finish <==> stepped.phase is Finished)
            &&& steps_left(plan, stepped) <= 7 * (plan.sources.len() - p.next) - (match kind {
                EntityKind::Item => 3int,
                EntityKind::Scenario => 5int,
                EntityKind::Trigger => 7int,
            })
            &&& all_covered(plan, remote) && calm(
                ProgressView { phase: Phase::Lookup(kind), ..p },
            ) && outcome is Present ==> calm(stepped)
        }),
{
    match kind {
        EntityKind::Item => {},
        EntityKind::Scenario => {},
        EntityKind::Trigger => {
            let done = ProgressView {
                next: p.next + 1,
                outcomes: p.outcomes.push(
                    SourceOutcome::Processed {
                        item: p.item,
                        scenario: p.scenario,
                        trigger: outcome,
                    },
                ),
                ..p
            };
            let settled = SourceOutcome::Processed {
                item: p.item,
                scenario: p.scenario,
                trigger: outcome,
            };
            lemma_source_done(plan, p, remote, settled);
            lemma_begin_source(plan, done, remote);
            if all_untouched(p.outcomes) && p.item is Present && p.scenario is Present
                && outcome is Present {
                lemma_untouched_push(p.outcomes, settled);
            }
        },
    }
}

/// A step of a run against the model server leads to a state of such a run;
/// it brings the run nearer to its end; and it creates something only
/// after a lookup that found nothing.
pub proof fn lemma_step(plan: PlanView, p: ProgressView, remote: Remote, reply: ReplyView)
    requires
        in_step(plan, p, remote, reply),
        !(p.phase is Finished),
    ensures
        ({
            let (stepped, action) = step_view(plan, p, reply);
            &&& step_kept(plan, p, remote, stepped, action)
            &&& 0 <= steps_left(plan, stepped) < steps_left(plan, p)
            &&& action.is_creation() ==> p.phase is Lookup && reply == ReplyView::Found(false)
        }),
{
    let (stepped, action) = step_view(plan, p, reply);
    match p.phase {
        Phase::Idle => {
            if !plan.has_override() {
                lemma_begin_source(plan, p, remote);
            }
        },
        Phase::OverrideLookup => {
            let known = ProgressView {
                fixed_host: usable_host(remote.host_id(plan.target_hostname)),
                ..p
            };
            lemma_begin_source(plan, known, remote);
        },
        Phase::HostLookup => {
            let found = remote.host_id(plan.sources[p.next].zabbix_host);
            if usable_host(found) is None {
                let skipped = skip_view(p);
                assert(resolved_host(plan, remote, p.next) is None);
                lemma_source_done(plan, p, remote, SourceOutcome::Skipped);
                lemma_begin_source(plan, skipped, remote);
                if all_untouched(p.outcomes) {
                    lemma_untouched_push(p.outcomes, SourceOutcome::Skipped);
                }
            }
        },
        Phase::Lookup(kind) => {
            if remote.holds(kind, plan.identifier(p.next, kind)) {
                lemma_after_entity(plan, p, remote, kind, EntityOutcome::Present);
            } else {
                let (answered, heard) = answer(remote, action);
                assert(answered == remote.with(kind, plan.identifier(p.next, kind)));
                assert(!covered(plan, remote, p.next));
                lemma_created_keeps_covered(
                    plan,
                    remote,
                    kind,
                    plan.identifier(p.next, kind),
                    p.next,
                    p.outcomes,
                );
            }
        },
        Phase::Creation(kind) => {
            lemma_after_entity(plan, p, remote, kind, EntityOutcome::Created);
        },
        Phase::Finished => {},
    }
}

/// What a run against the model server leaves, from any of its states on.
proof fn lemma_run_steps(plan: PlanView, p: ProgressView, remote: Remote, reply: ReplyView, fuel: nat)
    requires
        in_step(plan, p, remote, reply),
        fuel >= steps_left(plan, p),
    ensures
        ({
            let end = run_steps(plan, p, remote, reply, fuel);
            &&& in_step(plan, end.progress, end.remote, ReplyView::Start)
            &&& end.progress.phase is Finished
            &&& end.remote.hosts == remote.hosts
            &&& end.actions.len() > 0
            &&& end.actions.last() is Finish
            &&& all_covered(plan, remote) && calm(p) ==> {
                &&& end.remote == remote
                &&& no_creation(end.actions)
                &&& calm(end.progress)
            }
        }),
    decreases fuel,
{
    let (stepped, action) = step_view(plan, p, reply);
    if p.phase is Finished {
        assert(action is Finish);
    } else {
        lemma_step(plan, p, remote, reply);
        if !(action is Finish) {
            let (answered, heard) = answer(remote, action);
            lemma_run_steps(plan, stepped, answered, heard, (fuel - 1) as nat);
            let rest = run_steps(plan, stepped, answered, heard, (fuel - 1) as nat);
            let end = run_steps(plan, p, remote, reply, fuel);
            assert(end.actions == seq![action] + rest.actions);
            assert(end.actions.last() == rest.actions.last());
            if all_covered(plan, remote) && calm(p) {
                assert forall|k: int| 0 <= k < end.actions.len() implies !(
                #[trigger] end.actions[k]).is_creation() by {
                    if k > 0 {
                        assert(end.actions[k] == rest.actions[k - 1]);
                    }
                }
            }
        }
    }
}

/// Every run against the model server comes to its end within the step
/// budget, with one outcome for each source; a source is skipped exactly
/// when the server does not know its host; and afterwards nothing is missing
/// on the server for any source.
pub proof fn lemma_run_completes(plan: PlanView, remote: Remote)
    ensures
        run(plan, remote).progress.phase is Finished,
        run(plan, remote).progress.fatal is None,
        run(plan, remote).progress.outcomes.len() == plan.sources.len(),
        run(plan, remote).actions.last() is Finish,
        run(plan, remote).remote.hosts == remote.hosts,
        all_covered(plan, run(plan, remote).remote),
        forall|i: int|
            0 <= i < plan.sources.len() ==> ((#[trigger] run(plan, remote).progress.outcomes[i])
                is Skipped <==> resolved_host(plan, remote, i) is None),
{
    lemma_run_steps(plan, initial_progress(), remote, ReplyView::Start, step_budget(plan));
    let end = run(plan, remote);
    assert forall|i: int| 0 <= i < plan.sources.len() implies covered(plan, end.remote, i) by {}
    assert forall|i: int| 0 <= i < plan.sources.len() implies ((#[trigger] end.progress.outcomes[i])
        is Skipped <==> resolved_host(plan, remote, i) is None) by {
        assert(resolved_host(plan, end.remote, i) == resolved_host(plan, remote, i));
    }
}

/// Idempotence: a second run of the same plan, against the server as the
/// first run left it, creates nothing and leaves the server as it was; each
/// of its sources is skipped or found complete, so it does not fail.
pub proof fn lemma_second_run_creates_nothing(plan: PlanView, remote: Remote)
    ensures
        ({
            let first = run(plan, remote);
            let second = run(plan, first.remote);
            &&& no_creation(second.actions)
            &&& second.remote == first.remote
            &&& forall|i: int|
                0 <= i < plan.sources.len() ==> untouched(#[trigger] second.progress.outcomes[i])
            &&& !(run_status(second.progress.outcomes) is Failed)
        }),
{
    lemma_run_completes(plan, remote);
    let first = run(plan, remote);
    lemma_run_steps(plan, initial_progress(), first.remote, ReplyView::Start, step_budget(plan));
    let second = run(plan, first.remote);
    if any_failed(second.progress.outcomes) {
        let i = choose|i: int|
            0 <= i < second.progress.outcomes.len() && source_failed(
                #[trigger] second.progress.outcomes[i],
            );
        assert(untouched(second.progress.outcomes[i]));
    }
}

/// A run against a server on which nothing is missing creates nothing.
pub proof fn lemma_covered_run_creates_nothing(plan: PlanView, remote: Remote)
    requires
        all_covered(plan, remote),
    ensures
        no_creation(run(plan, remote).actions),
        run(plan, remote).remote == remote,
{
    lemma_run_steps(plan, initial_progress(), remote, ReplyView::Start, step_budget(plan));
}

/// Whatever the driver replies, the engine asks for a creation only in
/// answer to a lookup that found nothing, and then for the very object that
/// was looked up: what a lookup found is never created.
pub proof fn lemma_creation_only_when_missing(plan: PlanView, p: ProgressView, reply: ReplyView)
    ensures
        step_view(plan, p, reply).1.is_creation() ==> reply == ReplyView::Found(false) && (
        p.phase matches Phase::Lookup(kind) && step_view(plan, p, reply).1 == plan.creation(
            p.next,
            kind,
            p.host_id,
        )),
{
    lemma_begin_source_creates_nothing(plan, p);
    lemma_begin_source_creates_nothing(plan, skip_view(p));
    match (p.phase, reply) {
        (Phase::OverrideLookup, ReplyView::Host(found)) => {
            lemma_begin_source_creates_nothing(
                plan,
                ProgressView { fixed_host: usable_host(found), ..p },
            );
        },
        (Phase::Lookup(kind), ReplyView::Found(true)) => {
            lemma_after_entity_creates_nothing(plan, p, kind, EntityOutcome::Present);
        },
        (Phase::Creation(kind), ReplyView::Created) => {
            lemma_after_entity_creates_nothing(plan, p, kind, EntityOutcome::Created);
        },
        (Phase::Creation(kind), ReplyView::Failed(class)) => {
            lemma_after_entity_creates_nothing(plan, p, kind, EntityOutcome::Failed(class));
        },
        _ => {},
    }
}

proof fn lemma_begin_source_creates_nothing(plan: PlanView, p: ProgressView)
    ensures
        !begin_source_view(plan, p).1.is_creation(),
    decreases plan.sources.len() - p.next,
{
    if 0 <= p.next < plan.sources.len() && plan.has_override() && p.fixed_host is None {
        lemma_begin_source_creates_nothing(plan, skip_view(p));
    }
}

proof fn lemma_after_entity_creates_nothing(
    plan: PlanView,
    p: ProgressView,
    kind: EntityKind,
    outcome: EntityOutcome,
)
    ensures
        !after_entity_view(plan, p, kind, outcome).1.is_creation(),
{
    if kind is Trigger {
        lemma_begin_source_creates_nothing(
            plan,
            ProgressView {
                next: p.next + 1,
                outcomes: p.outcomes.push(
                    SourceOutcome::Processed {
                        item: p.item,
                        scenario: p.scenario,
                        trigger: outcome,
                    },
                ),
                ..p
            },
        );
    }
}

/// A failed creation is known to the engine: it stands in the outcome of a
/// source that is done, or in what the engine holds of the current source.
pub open spec fn failure_known(p: ProgressView) -> bool {
    ||| any_failed(p.outcomes)
    ||| (p.phase == Phase::Lookup(EntityKind::Scenario) || p.phase == Phase::Creation(
        EntityKind::Scenario,
    ) || p.phase == Phase::Lookup(EntityKind::Trigger) || p.phase == Phase::Creation(
        EntityKind::Trigger,
    )) && entity_failed(p.item)
    ||| (p.phase == Phase::Lookup(EntityKind::Trigger) || p.phase == Phase::Creation(
        EntityKind::Trigger,
    )) && entity_failed(p.scenario)
}

proof fn lemma_begin_source_keeps_failures(plan: PlanView, p: ProgressView)
    requires
        any_failed(p.outcomes),
    ensures
        any_failed(begin_source_view(plan, p).0.outcomes),
    decreases plan.sources.len() - p.next,
{
    if 0 <= p.next < plan.sources.len() && plan.has_override() && p.fixed_host is None {
        lemma_push_keeps_failures(p.outcomes, SourceOutcome::Skipped);
        lemma_begin_source_keeps_failures(plan, skip_view(p));
    }
}

proof fn lemma_push_keeps_failures(outcomes: Seq<SourceOutcome>, outcome: SourceOutcome)
    requires
        any_failed(outcomes) || source_failed(outcome),
    ensures
        any_failed(outcomes.push(outcome)),
{
    let more = outcomes.push(outcome);
    if any_failed(outcomes) {
        let i = choose|i: int| 0 <= i < outcomes.len() && source_failed(#[trigger] outcomes[i]);
        assert(source_failed(more[i]));
    } else {
        assert(source_failed(more[outcomes.len() as int]));
    }
}

/// Whatever the driver replies, a creation that failed makes the failure
/// known to the engine.
pub proof fn lemma_failed_creation_is_known(
    plan: PlanView,
    p: ProgressView,
    kind: EntityKind,
    class: crate::errors::FailureClass,
)
    requires
        p.phase == Phase::Creation(kind),
    ensures
        failure_known(step_view(plan, p, ReplyView::Failed(class)).0),
{
    if kind is Trigger {
        let outcome = SourceOutcome::Processed {
            item: p.item,
            scenario: p.scenario,
            trigger: EntityOutcome::Failed(class),
        };
        lemma_push_keeps_failures(p.outcomes, outcome);
        lemma_begin_source_keeps_failures(
            plan,
            ProgressView { next: p.next + 1, outcomes: p.outcomes.push(outcome), ..p },
        );
    }
}

/// Whatever the driver replies, a failure that the engine knows of stays
/// known in every later step, unless the run ends early on a fatal error.
pub proof fn lemma_failure_stays_known(plan: PlanView, p: ProgressView, reply: ReplyView)
    requires
        failure_known(p),
    ensures
        failure_known(step_view(plan, p, reply).0) || step_view(plan, p, reply).0.fatal is Some,
{
    let (stepped, action) = step_view(plan, p, reply);
    if any_failed(p.outcomes) {
        lemma_begin_source_keeps_failures(plan, p);
        lemma_push_keeps_failures(p.outcomes, SourceOutcome::Skipped);
        lemma_begin_source_keeps_failures(plan, skip_view(p));
        match (p.phase, reply) {
            (Phase::OverrideLookup, ReplyView::Host(found)) => {
                lemma_begin_source_keeps_failures(
                    plan,
                    ProgressView { fixed_host: usable_host(found), ..p },
                );
            },
            (Phase::Lookup(EntityKind::Trigger), ReplyView::Found(true)) => {
                lemma_trigger_settled_keeps_failures(plan, p, EntityOutcome::Present);
            },
            (Phase::Creation(EntityKind::Trigger), ReplyView::Created) => {
                lemma_trigger_settled_keeps_failures(plan, p, EntityOutcome::Created);
            },
            (Phase::Creation(EntityKind::Trigger), ReplyView::Failed(class)) => {
                lemma_trigger_settled_keeps_failures(plan, p, EntityOutcome::Failed(class));
            },
            _ => {},
        }
    } else {
        match (p.phase, reply) {
            (Phase::Lookup(EntityKind::Trigger), ReplyView::Found(true)) => {
                lemma_trigger_settled_keeps_failures(plan, p, EntityOutcome::Present);
            },
            (Phase::Creation(EntityKind::Trigger), ReplyView::Created) => {
                lemma_trigger_settled_keeps_failures(plan, p, EntityOutcome::Created);
            },
            (Phase::Creation(EntityKind::Trigger), ReplyView::Failed(class)) => {
                lemma_trigger_settled_keeps_failures(plan, p, EntityOutcome::Failed(class));
            },
            _ => {},
        }
    }
}

proof fn lemma_trigger_settled_keeps_failures(
    plan: PlanView,
    p: ProgressView,
    trigger: EntityOutcome,
)
    requires
        any_failed(p.outcomes) || entity_failed(p.item) || entity_failed(p.scenario)
            || entity_failed(trigger),
    ensures
        any_failed(after_entity_view(plan, p, EntityKind::Trigger, trigger).0.outcomes),
{
    let outcome = SourceOutcome::Processed { item: p.item, scenario: p.scenario, trigger };
    lemma_push_keeps_failures(p.outcomes, outcome);
    lemma_begin_source_keeps_failures(
        plan,
        ProgressView { next: p.next + 1, outcomes: p.outcomes.push(outcome), ..p },
    );
}

/// Whatever the driver replies, the engine's progress fits the plan.
pub proof fn lemma_replay_fits(plan: PlanView, replies: Seq<ReplyView>)
    ensures
        progress_fits(plan, replay(plan, replies)),
    decreases replies.len(),
{
    if replies.len() > 0 {
        lemma_replay_fits(plan, replies.drop_last());
        lemma_step_fits(plan, replay(plan, replies.drop_last()), replies.last());
    }
}

proof fn lemma_failure_reaches(plan: PlanView, replies: Seq<ReplyView>, k: int, j: int)
    requires
        0 <= k < j <= replies.len(),
        replay(plan, replies.take(k)).phase is Creation,
        replies[k] is Failed,
    ensures
        failure_known(replay(plan, replies.take(j))) || replay(plan, replies.take(j)).fatal is Some,
    decreases j - k,
{
    let before = replies.take(j - 1);
    let now = replies.take(j);
    assert(now.drop_last() =~= before);
    assert(now.last() == replies[j - 1]);
    let p = replay(plan, before);
    if j == k + 1 {
        match (p.phase, replies[k]) {
            (Phase::Creation(kind), ReplyView::Failed(class)) => {
                lemma_failed_creation_is_known(plan, p, kind, class);
            },
            _ => {},
        }
    } else {
        lemma_failure_reaches(plan, replies, k, j - 1);
        if failure_known(p) {
            lemma_failure_stays_known(plan, p, replies[j - 1]);
        } else {
            lemma_replay_fits(plan, before);
            lemma_step_fits(plan, p, replies[j - 1]);
        }
    }
}

/// Whatever else the driver replies: where the reply to a creation was a
/// failure, a run that comes to its end without a fatal error is a failed
/// run.
pub proof fn lemma_failed_creation_fails_run(plan: PlanView, replies: Seq<ReplyView>, k: int)
    requires
        0 <= k < replies.len(),
        replay(plan, replies.take(k)).phase is Creation,
        replies[k] is Failed,
        replay(plan, replies).phase is Finished,
        replay(plan, replies).fatal is None,
    ensures
        run_status(replay(plan, replies).outcomes) is Failed,
{
    lemma_failure_reaches(plan, replies, k, replies.len() as int);
    assert(replies.take(replies.len() as int) =~= replies);
}

/// A run that is over and knows of a failed creation is a failed run.
pub proof fn lemma_known_failure_fails_run(p: ProgressView)
    requires
        p.phase is Finished,
        failure_known(p),
    ensures
        run_status(p.outcomes) is Failed,
{
}

/// No failed call has left a trace in the engine.
pub open spec fn unfailed(p: ProgressView) -> bool {
    &&& !any_failed(p.outcomes)
    &&& !entity_failed(p.item)
    &&& !entity_failed(p.scenario)
    &&& !(p.fatal matches Some(Fatal::LookupFailed(_)))
}

proof fn lemma_push_keeps_unfailed(outcomes: Seq<SourceOutcome>, outcome: SourceOutcome)
    requires
        !any_failed(outcomes),
        !source_failed(outcome),
    ensures
        !any_failed(outcomes.push(outcome)),
{
    let more = outcomes.push(outcome);
    if any_failed(more) {
        let i = choose|i: int| 0 <= i < more.len() && source_failed(#[trigger] more[i]);
        if i < outcomes.len() {
            assert(source_failed(outcomes[i]));
        }
    }
}

proof fn lemma_begin_source_unfailed(plan: PlanView, p: ProgressView)
    requires
        unfailed(p),
    ensures
        unfailed(begin_source_view(plan, p).0),
    decreases plan.sources.len() - p.next,
{
    if 0 <= p.next < plan.sources.len() && plan.has_override() && p.fixed_host is None {
        lemma_push_keeps_unfailed(p.outcomes, SourceOutcome::Skipped);
        lemma_begin_source_unfailed(plan, skip_view(p));
    }
}

proof fn lemma_step_unfailed(plan: PlanView, p: ProgressView, reply: ReplyView)
    requires
        unfailed(p),
        !(reply is Failed),
    ensures
        unfailed(step_view(plan, p, reply).0),
{
    lemma_begin_source_unfailed(plan, p);
    lemma_push_keeps_unfailed(p.outcomes, SourceOutcome::Skipped);
    lemma_begin_source_unfailed(plan, skip_view(p));
    match (p.phase, reply) {
        (Phase::OverrideLookup, ReplyView::Host(found)) => {
            lemma_begin_source_unfailed(plan, ProgressView { fixed_host: usable_host(found), ..p });
        },
        (Phase::Lookup(EntityKind::Trigger), ReplyView::Found(true)) => {
            lemma_trigger_settled_unfailed(plan, p, EntityOutcome::Present);
        },
        (Phase::Creation(EntityKind::Trigger), ReplyView::Created) => {
            lemma_trigger_settled_unfailed(plan, p, EntityOutcome::Created);
        },
        _ => {},
    }
}

proof fn lemma_trigger_settled_unfailed(plan: PlanView, p: ProgressView, trigger: EntityOutcome)
    requires
        unfailed(p),
        !entity_failed(trigger),
    ensures
        unfailed(after_entity_view(plan, p, EntityKind::Trigger, trigger).0),
{
    let outcome = SourceOutcome::Processed { item: p.item, scenario: p.scenario, trigger };
    lemma_push_keeps_unfailed(p.outcomes, outcome);
    lemma_begin_source_unfailed(
        plan,
        ProgressView { next: p.next + 1, outcomes: p.outcomes.push(outcome), ..p },
    );
}

/// Whatever the driver replies, a run without a failed call does not fail:
/// no source of it has failed and no lookup has ended it.
pub proof fn lemma_no_failed_call_no_failure(plan: PlanView, replies: Seq<ReplyView>)
    requires
        failures(replies) == 0,
    ensures
        !(run_status(replay(plan, replies).outcomes) is Failed),
        !(replay(plan, replies).fatal matches Some(Fatal::LookupFailed(_))),
{
    lemma_replay_unfailed(plan, replies);
}

proof fn lemma_replay_unfailed(plan: PlanView, replies: Seq<ReplyView>)
    requires
        failures(replies) == 0,
    ensures
        unfailed(replay(plan, replies)),
    decreases replies.len(),
{
    if replies.len() > 0 {
        lemma_replay_unfailed(plan, replies.drop_last());
        lemma_step_unfailed(plan, replay(plan, replies.drop_last()), replies.last());
    } else {
        assert(initial_progress().outcomes.len() == 0);
    }
}

/// As long as every reply answers the action before it, the engine's
/// progress fits the plan and no reply is turned down as unexpected.
pub proof fn lemma_answered_replies_are_taken(plan: PlanView, replies: Seq<ReplyView>)
    requires
        well_answered(plan, replies),
    ensures
        progress_fits(plan, replay(plan, replies)),
        replay(plan, replies).fatal != Some(Fatal::UnexpectedReply),
    decreases replies.len(),
{
    if replies.len() > 0 {
        lemma_answered_replies_are_taken(plan, replies.drop_last());
        lemma_step_fits(plan, replay(plan, replies.drop_last()), replies.last());
    }
}

/// A skipped source stands in nobody's way: without a host configured for
/// all sources, the engine goes from a host that the server does not know
/// straight to the next source, with nothing looked up or created for the
/// skipped one.
pub proof fn lemma_unknown_host_skips_source(plan: PlanView, p: ProgressView)
    requires
        p.phase is HostLookup,
    ensures
        step_view(plan, p, ReplyView::Host(None)) == begin_source_view(plan, skip_view(p)),
        skip_view(p).outcomes == p.outcomes.push(SourceOutcome::Skipped),
        skip_view(p).next == p.next + 1,
{
}

} // verus!
