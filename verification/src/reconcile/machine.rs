//! The reconciliation loop as a state machine.
//!
//! The engine never talks to the server. It hands its driver one action at a
//! time and is told what came of it; from that it decides the next action.
//! For each URL source it resolves the host, then looks up the item, the web
//! scenario and the trigger in turn and asks for each to be created where
//! the lookup found nothing. A source whose host is unknown is skipped. A
//! creation that fails marks the source as failed and the run goes on; a
//! lookup that fails ends the run. A creation that the server turns down
//! counts as failed whatever the reason, also where the object has appeared
//! on the server since it was looked up. Nothing is tried twice.

use crate::errors::FailureClass;
use crate::reconcile::outcome::{EntityKind, EntityOutcome, SourceOutcome};
use crate::reconcile::plan::{Action, ActionView, Plan, PlanView};
use vstd::prelude::*;
use vstd::string::StringExecFns;

verus! {

/// What the driver tells the engine about the action it was handed.
#[derive(Debug)]
pub enum Reply {
    /// Nothing yet: the run begins.
    Start,
    /// The id of the host that was looked up, if the server knows the host.
    Host(Option<String>),
    /// Whether the lookup found anything.
    Found(bool),
    /// The creation succeeded.
    Created,
    /// The call failed.
    Failed(FailureClass),
}

/// `Reply` as characters.
pub enum ReplyView {
    Start,
    Host(Option<Seq<char>>),
    Found(bool),
    Created,
    Failed(FailureClass),
}

impl DeepView for Reply {
    type V = ReplyView;

    open spec fn deep_view(&self) -> ReplyView {
        match self {
            Reply::Start => ReplyView::Start,
            Reply::Host(Some(id)) => ReplyView::Host(Some(id@)),
            Reply::Host(None) => ReplyView::Host(None),
            Reply::Found(found) => ReplyView::Found(*found),
            Reply::Created => ReplyView::Created,
            Reply::Failed(class) => ReplyView::Failed(*class),
        }
    }
}

/// What the engine is waiting to hear.
#[derive(Clone, Copy, Debug)]
pub enum Phase {
    /// Nothing: the run has not begun.
    Idle,
    /// The id of the host that is configured for all sources.
    OverrideLookup,
    /// The id of the current source's own host.
    HostLookup,
    /// Whether an object of the current source exists.
    Lookup(EntityKind),
    /// Whether an object of the current source could be created.
    Creation(EntityKind),
    /// Nothing: the run is over.
    Finished,
}

/// Why a run ended before all sources were worked through.
#[derive(Clone, Copy, Debug)]
pub enum Fatal {
    /// A lookup failed.
    LookupFailed(FailureClass),
    /// The driver's reply does not answer the action it was handed.
    UnexpectedReply,
}

/// How far a run has come.
#[derive(Debug)]
pub struct Progress {
    pub phase: Phase,
    /// The index of the current source; all sources before it are done.
    pub next: usize,
    /// The id of the host that is configured for all sources, once it has
    /// been looked up and found.
    pub fixed_host: Option<String>,
    /// The id of the current source's host.
    pub host_id: String,
    /// What became of the current source's item.
    pub item: EntityOutcome,
    /// What became of the current source's web scenario.
    pub scenario: EntityOutcome,
    /// The outcomes of the sources that are done, in their order.
    pub outcomes: Vec<SourceOutcome>,
    /// Why the run ended early, if it did.
    pub fatal: Option<Fatal>,
}

/// `Progress` as characters.
pub struct ProgressView {
    pub phase: Phase,
    pub next: int,
    pub fixed_host: Option<Seq<char>>,
    pub host_id: Seq<char>,
    pub item: EntityOutcome,
    pub scenario: EntityOutcome,
    pub outcomes: Seq<SourceOutcome>,
    pub fatal: Option<Fatal>,
}

/// The characters of a host id that may be missing.
pub open spec fn host_view(host: Option<String>) -> Option<Seq<char>> {
    match host {
        Some(id) => Some(id@),
        None => None,
    }
}

impl DeepView for Progress {
    type V = ProgressView;

    open spec fn deep_view(&self) -> ProgressView {
        ProgressView {
            phase: self.phase,
            next: self.next as int,
            fixed_host: host_view(self.fixed_host),
            host_id: self.host_id@,
            item: self.item,
            scenario: self.scenario,
            outcomes: self.outcomes@,
            fatal: self.fatal,
        }
    }
}

/// The progress of a run that has not begun.
pub open spec fn initial_progress() -> ProgressView {
    ProgressView {
        phase: Phase::Idle,
        next: 0,
        fixed_host: None,
        host_id: Seq::empty(),
        item: EntityOutcome::Present,
        scenario: EntityOutcome::Present,
        outcomes: Seq::empty(),
        fatal: None,
    }
}

/// The host id that a reply makes known: the id it carries, unless that is
/// empty.
pub open spec fn usable_host(found: Option<Seq<char>>) -> Option<Seq<char>> {
    match found {
        Some(id) if id.len() > 0 => Some(id),
        _ => None,
    }
}

/// The run ends early.
pub open spec fn abort_view(p: ProgressView, fatal: Fatal) -> (ProgressView, ActionView) {
    (ProgressView { phase: Phase::Finished, fatal: Some(fatal), ..p }, ActionView::Finish)
}

/// The current source is skipped.
pub open spec fn skip_view(p: ProgressView) -> ProgressView {
    ProgressView { next: p.next + 1, outcomes: p.outcomes.push(SourceOutcome::Skipped), ..p }
}

/// An object of the current source is taken up: it is looked up.
pub open spec fn begin_entity_view(plan: PlanView, p: ProgressView, kind: EntityKind) -> (
    ProgressView,
    ActionView,
) {
    (ProgressView { phase: Phase::Lookup(kind), ..p }, plan.lookup(p.next, kind))
}

/// The next source is taken up, if there is one. With a host configured for
/// all sources no host is looked up: the sources are processed under it, or
/// all skipped where the server does not know it.
pub open spec fn begin_source_view(plan: PlanView, p: ProgressView) -> (ProgressView, ActionView)
    decreases plan.sources.len() - p.next,
{
    if p.next < 0 || p.next >= plan.sources.len() {
        (ProgressView { phase: Phase::Finished, ..p }, ActionView::Finish)
    } else if plan.has_override() {
        match p.fixed_host {
            Some(id) => begin_entity_view(
                plan,
                ProgressView { host_id: id, ..p },
                EntityKind::Item,
            ),
            None => begin_source_view(plan, skip_view(p)),
        }
    } else {
        (
            ProgressView { phase: Phase::HostLookup, ..p },
            ActionView::ResolveHost { host_name: plan.sources[p.next].zabbix_host },
        )
    }
}

/// An object of the current source is settled: the next one is taken up, or
/// after the trigger the next source.
pub open spec fn after_entity_view(
    plan: PlanView,
    p: ProgressView,
    kind: EntityKind,
    outcome: EntityOutcome,
) -> (ProgressView, ActionView) {
    match kind {
        EntityKind::Item => begin_entity_view(
            plan,
            ProgressView { item: outcome, ..p },
            EntityKind::Scenario,
        ),
        EntityKind::Scenario => begin_entity_view(
            plan,
            ProgressView { scenario: outcome, ..p },
            EntityKind::Trigger,
        ),
        EntityKind::Trigger => begin_source_view(
            plan,
            ProgressView {
                next: p.next + 1,
                outcomes: p.outcomes.push(
                    SourceOutcome::Processed {
                        item: p.item,
                        scenario: p.scenario,
                        trigger: outcome,
                    },
                ),
                ..p
            },
        ),
    }
}

/// One step of the engine: from the progress and the driver's reply to the
/// new progress and the next action.
pub open spec fn step_view(plan: PlanView, p: ProgressView, reply: ReplyView) -> (
    ProgressView,
    ActionView,
) {
    match (p.phase, reply) {
        (Phase::Finished, _) => (p, ActionView::Finish),
        (Phase::Idle, ReplyView::Start) => {
            if plan.has_override() {
                (
                    ProgressView { phase: Phase::OverrideLookup, ..p },
                    ActionView::ResolveHost { host_name: plan.target_hostname },
                )
            } else {
                begin_source_view(plan, p)
            }
        },
        (Phase::OverrideLookup, ReplyView::Host(found)) => begin_source_view(
            plan,
            ProgressView { fixed_host: usable_host(found), ..p },
        ),
        (Phase::HostLookup, ReplyView::Host(found)) => match usable_host(found) {
            Some(id) => begin_entity_view(
                plan,
                ProgressView { host_id: id, ..p },
                EntityKind::Item,
            ),
            None => begin_source_view(plan, skip_view(p)),
        },
        (Phase::Lookup(kind), ReplyView::Found(true)) => after_entity_view(
            plan,
            p,
            kind,
            EntityOutcome::Present,
        ),
        (Phase::Lookup(kind), ReplyView::Found(false)) => (
            ProgressView { phase: Phase::Creation(kind), ..p },
            plan.creation(p.next, kind, p.host_id),
        ),
        (Phase::Creation(kind), ReplyView::Created) => after_entity_view(
            plan,
            p,
            kind,
            EntityOutcome::Created,
        ),
        (Phase::Creation(kind), ReplyView::Failed(class)) => after_entity_view(
            plan,
            p,
            kind,
            EntityOutcome::Failed(class),
        ),
        (Phase::OverrideLookup, ReplyView::Failed(class)) => abort_view(
            p,
            Fatal::LookupFailed(class),
        ),
        (Phase::HostLookup, ReplyView::Failed(class)) => abort_view(p, Fatal::LookupFailed(class)),
        (Phase::Lookup(_), ReplyView::Failed(class)) => abort_view(p, Fatal::LookupFailed(class)),
        _ => abort_view(p, Fatal::UnexpectedReply),
    }
}

/// The progress is one that a run of `plan` can be in: the current source
/// exists wherever the engine waits to hear of it.
pub open spec fn progress_fits(plan: PlanView, p: ProgressView) -> bool {
    &&& 0 <= p.next <= plan.sources.len()
    &&& (p.phase is HostLookup || p.phase is Lookup || p.phase is Creation) ==> p.next
        < plan.sources.len()
    &&& (p.phase is Idle || p.phase is OverrideLookup) ==> p.next == 0
    &&& p.phase is Finished && p.fatal is None ==> p.next == plan.sources.len()
    &&& p.outcomes.len() == p.next
}

/// The progress of a run in which the driver gave these replies, one after
/// the other.
pub open spec fn replay(plan: PlanView, replies: Seq<ReplyView>) -> ProgressView
    decreases replies.len(),
{
    if replies.len() == 0 {
        initial_progress()
    } else {
        step_view(plan, replay(plan, replies.drop_last()), replies.last()).0
    }
}

/// Every reply is of a kind that the engine could hear when it came: the
/// first is the start, and every later one answers the action that was
/// handed out before it.
pub open spec fn well_answered(plan: PlanView, replies: Seq<ReplyView>) -> bool
    decreases replies.len(),
{
    replies.len() == 0 || (well_answered(plan, replies.drop_last()) && awaited(
        replay(plan, replies.drop_last()).phase,
        replies.last(),
    ))
}

/// The number of failed calls among the replies.
pub open spec fn failures(replies: Seq<ReplyView>) -> nat
    decreases replies.len(),
{
    if replies.len() == 0 {
        0
    } else {
        failures(replies.drop_last()) + if replies.last() is Failed {
            1nat
        } else {
            0nat
        }
    }
}

/// The action is the one that the engine hands out when it enters `phase`.
pub open spec fn asks(phase: Phase, action: ActionView) -> bool {
    match phase {
        Phase::Idle => false,
        Phase::OverrideLookup => action is ResolveHost,
        Phase::HostLookup => action is ResolveHost,
        Phase::Lookup(EntityKind::Item) => action is FindItem,
        Phase::Lookup(EntityKind::Scenario) => action is FindWebScenario,
        Phase::Lookup(EntityKind::Trigger) => action is FindTrigger,
        Phase::Creation(EntityKind::Item) => action is CreateItem,
        Phase::Creation(EntityKind::Scenario) => action is CreateWebScenario,
        Phase::Creation(EntityKind::Trigger) => action is CreateTrigger,
        Phase::Finished => action is Finish,
    }
}

/// The reply is of the kind that answers the action.
pub open spec fn answers(action: ActionView, reply: ReplyView) -> bool {
    match action {
        ActionView::ResolveHost { .. } => reply is Host || reply is Failed,
        ActionView::FindItem { .. } => reply is Found || reply is Failed,
        ActionView::FindWebScenario { .. } => reply is Found || reply is Failed,
        ActionView::FindTrigger { .. } => reply is Found || reply is Failed,
        ActionView::CreateItem(_) => reply is Created || reply is Failed,
        ActionView::CreateWebScenario(_) => reply is Created || reply is Failed,
        ActionView::CreateTrigger(_) => reply is Created || reply is Failed,
        ActionView::Finish => true,
    }
}

/// The reply is of a kind that the engine can hear in `phase`: the first
/// reply is the start, and every later one answers the action that was
/// handed out last.
pub open spec fn awaited(phase: Phase, reply: ReplyView) -> bool {
    match phase {
        Phase::Idle => reply is Start,
        Phase::OverrideLookup => reply is Host || reply is Failed,
        Phase::HostLookup => reply is Host || reply is Failed,
        Phase::Lookup(_) => reply is Found || reply is Failed,
        Phase::Creation(_) => reply is Created || reply is Failed,
        Phase::Finished => true,
    }
}

/// A bound on the number of steps that a run still takes.
pub open spec fn steps_left(plan: PlanView, p: ProgressView) -> int {
    let ahead = 7 * (plan.sources.len() - p.next);
    match p.phase {
        Phase::Finished => 0,
        Phase::Idle => ahead + 2,
        Phase::OverrideLookup => ahead + 1,
        Phase::HostLookup => ahead,
        Phase::Lookup(EntityKind::Item) => ahead - 1,
        Phase::Creation(EntityKind::Item) => ahead - 2,
        Phase::Lookup(EntityKind::Scenario) => ahead - 3,
        Phase::Creation(EntityKind::Scenario) => ahead - 4,
        Phase::Lookup(EntityKind::Trigger) => ahead - 5,
        Phase::Creation(EntityKind::Trigger) => ahead - 6,
    }
}

/// The engine of one run.
pub struct Reconciler<'a> {
    plan: Plan<'a>,
    progress: Progress,
}

impl<'a> Reconciler<'a> {
    #[verifier::type_invariant]
    spec fn well_formed(&self) -> bool {
        progress_fits(self.plan.deep_view(), self.progress.deep_view())
    }

    /// The run's inputs.
    pub closed spec fn plan_view(&self) -> PlanView {
        self.plan.deep_view()
    }

    /// How far the run has come.
    pub closed spec fn progress_view(&self) -> ProgressView {
        self.progress.deep_view()
    }

    /// The engine of a run of `plan` that has not begun.
    pub fn new(plan: Plan<'a>) -> (engine: Reconciler<'a>)
        ensures
            engine.plan_view() == plan.deep_view(),
            engine.progress_view() == initial_progress(),
    {
        let progress = Progress {
            phase: Phase::Idle,
            next: 0,
            fixed_host: None,
            host_id: String::new(),
            item: EntityOutcome::Present,
            scenario: EntityOutcome::Present,
            outcomes: Vec::new(),
            fatal: None,
        };
        assert(progress.deep_view().outcomes =~= initial_progress().outcomes);
        Reconciler { plan, progress }
    }

    /// Whether the run is over.
    pub fn is_finished(&self) -> (finished: bool)
        ensures
            finished == (self.progress_view().phase is Finished),
            progress_fits(self.plan_view(), self.progress_view()),
    {
        proof {
            use_type_invariant(self);
        }
        match self.progress.phase {
            Phase::Finished => true,
            _ => false,
        }
    }

    /// The outcomes of the sources that are done, in their order.
    pub fn outcomes(&self) -> (outcomes: &Vec<SourceOutcome>)
        ensures
            outcomes@ == self.progress_view().outcomes,
    {
        &self.progress.outcomes
    }

    /// Why the run ended early, if it did.
    pub fn fatal(&self) -> (fatal: Option<Fatal>)
        ensures
            fatal == self.progress_view().fatal,
    {
        self.progress.fatal
    }

    /// The index of the current source.
    pub fn current(&self) -> (next: usize)
        ensures
            next == self.progress_view().next,
    {
        self.progress.next
    }

    /// Ends the engine's work and hands out what it holds: the outcomes of
    /// the sources that are done, and why the run ended early, if it did.
    pub fn into_outcomes(self) -> (held: (Vec<SourceOutcome>, Option<Fatal>))
        ensures
            held.0@ == self.progress_view().outcomes,
            held.1 == self.progress_view().fatal,
    {
        (self.progress.outcomes, self.progress.fatal)
    }

    /// Takes the driver's reply to the last action and hands out the next
    /// action. The first call takes `Reply::Start`.
    pub fn step(&mut self, reply: Reply) -> (action: Action)
        ensures
            final(self).plan_view() == old(self).plan_view(),
            (final(self).progress_view(), action.deep_view()) == step_view(
                old(self).plan_view(),
                old(self).progress_view(),
                reply.deep_view(),
            ),
    {
        proof {
            use_type_invariant(&*self);
        }
        let ghost plan = self.plan.deep_view();
        let ghost before = self.progress.deep_view();
        let mut progress = Progress {
            phase: Phase::Idle,
            next: 0,
            fixed_host: None,
            host_id: String::new(),
            item: EntityOutcome::Present,
            scenario: EntityOutcome::Present,
            outcomes: Vec::new(),
            fatal: None,
        };
        assert(progress_fits(plan, progress.deep_view()));
        std::mem::swap(&mut progress, &mut self.progress);
        assert(progress.deep_view() == before);
        let action = advance(&self.plan, &mut progress, reply);
        proof {
            lemma_step_fits(plan, before, reply.deep_view());
        }
        self.progress = progress;
        action
    }
}

/// Whatever the driver replies, a step leads from a progress that fits the
/// plan to one that fits it, hands out the action that belongs to the new
/// phase, and brings the run nearer to its end. A reply that answers the
/// last action is never turned down as unexpected.
pub proof fn lemma_step_fits(plan: PlanView, p: ProgressView, reply: ReplyView)
    requires
        progress_fits(plan, p),
    ensures
        progress_fits(plan, step_view(plan, p, reply).0),
        asks(step_view(plan, p, reply).0.phase, step_view(plan, p, reply).1),
        !(p.phase is Finished) ==> 0 <= steps_left(plan, step_view(plan, p, reply).0) < steps_left(
            plan,
            p,
        ),
        awaited(p.phase, reply) && step_view(plan, p, reply).0.fatal == Some(
            Fatal::UnexpectedReply,
        ) ==> p.fatal == Some(Fatal::UnexpectedReply),
        step_view(plan, p, reply).0.fatal is None ==> p.fatal is None,
{
    match (p.phase, reply) {
        (Phase::Idle, ReplyView::Start) => {
            if !plan.has_override() {
                lemma_begin_source_fits(plan, p);
            }
        },
        (Phase::OverrideLookup, ReplyView::Host(found)) => {
            lemma_begin_source_fits(plan, ProgressView { fixed_host: usable_host(found), ..p });
        },
        (Phase::HostLookup, ReplyView::Host(found)) => {
            if usable_host(found) is None {
                lemma_begin_source_fits(plan, skip_view(p));
            }
        },
        (Phase::Lookup(kind), ReplyView::Found(true)) => {
            lemma_after_entity_fits(plan, p, kind, EntityOutcome::Present);
        },
        (Phase::Creation(kind), ReplyView::Created) => {
            lemma_after_entity_fits(plan, p, kind, EntityOutcome::Created);
        },
        (Phase::Creation(kind), ReplyView::Failed(class)) => {
            lemma_after_entity_fits(plan, p, kind, EntityOutcome::Failed(class));
        },
        _ => {},
    }
}

proof fn lemma_begin_source_fits(plan: PlanView, p: ProgressView)
    requires
        0 <= p.next <= plan.sources.len(),
        p.outcomes.len() == p.next,
    ensures
        progress_fits(plan, begin_source_view(plan, p).0),
        asks(begin_source_view(plan, p).0.phase, begin_source_view(plan, p).1),
        0 <= steps_left(plan, begin_source_view(plan, p).0) <= 7 * (plan.sources.len() - p.next),
        begin_source_view(plan, p).0.fatal == p.fatal,
    decreases plan.sources.len() - p.next,
{
    if p.next < plan.sources.len() && plan.has_override() && p.fixed_host is None {
        lemma_begin_source_fits(plan, skip_view(p));
    }
}

proof fn lemma_after_entity_fits(
    plan: PlanView,
    p: ProgressView,
    kind: EntityKind,
    outcome: EntityOutcome,
)
    requires
        0 <= p.next < plan.sources.len(),
        p.outcomes.len() == p.next,
    ensures
        progress_fits(plan, after_entity_view(plan, p, kind, outcome).0),
        asks(
            after_entity_view(plan, p, kind, outcome).0.phase,
            after_entity_view(plan, p, kind, outcome).1,
        ),
        0 <= steps_left(plan, after_entity_view(plan, p, kind, outcome).0) <= 7 * (
        plan.sources.len() - p.next) - (match kind {
            EntityKind::Item => 3int,
            EntityKind::Scenario => 5int,
            EntityKind::Trigger => 7int,
        }),
        after_entity_view(plan, p, kind, outcome).0.fatal == p.fatal,
{
    if kind is Trigger {
        lemma_begin_source_fits(
            plan,
            ProgressView {
                next: p.next + 1,
                outcomes: p.outcomes.push(
                    SourceOutcome::Processed {
                        item: p.item,
                        scenario: p.scenario,
                        trigger: outcome,
                    },
                ),
                ..p
            },
        );
    }
}

/// A copy of a host id that may be missing.
fn copy_host(host: &Option<String>) -> (copy: Option<String>)
    ensures
        host_view(copy) == host_view(*host),
{
    match host {
        Some(id) => Some(id.clone()),
        None => None,
    }
}

/// The host id that a reply makes known.
fn usable(found: Option<String>) -> (host: Option<String>)
    ensures
        host_view(host) == usable_host(host_view(found)),
{
    match found {
        Some(id) => {
            if id.as_str().is_empty() {
                None
            } else {
                Some(id)
            }
        },
        None => None,
    }
}

fn abort(progress: &mut Progress, fatal: Fatal) -> (action: Action)
    ensures
        (final(progress).deep_view(), action.deep_view()) == abort_view(
            old(progress).deep_view(),
            fatal,
        ),
{
    progress.phase = Phase::Finished;
    progress.fatal = Some(fatal);
    Action::Finish
}

fn begin_entity(plan: &Plan, progress: &mut Progress, kind: EntityKind) -> (action: Action)
    requires
        old(progress).next < plan.deep_view().sources.len(),
    ensures
        (final(progress).deep_view(), action.deep_view()) == begin_entity_view(
            plan.deep_view(),
            old(progress).deep_view(),
            kind,
        ),
{
    progress.phase = Phase::Lookup(kind);
    plan.lookup(progress.next, kind)
}

fn begin_source(plan: &Plan, progress: &mut Progress) -> (action: Action)
    requires
        old(progress).next <= plan.deep_view().sources.len(),
    ensures
        (final(progress).deep_view(), action.deep_view()) == begin_source_view(
            plan.deep_view(),
            old(progress).deep_view(),
        ),
{
    let fixed = plan.has_override();
    loop
        invariant
            progress.next <= plan.deep_view().sources.len(),
            fixed == plan.deep_view().has_override(),
            begin_source_view(plan.deep_view(), progress.deep_view()) == begin_source_view(
                plan.deep_view(),
                old(progress).deep_view(),
            ),
        decreases plan.deep_view().sources.len() - progress.next,
    {
        if progress.next >= plan.len() {
            progress.phase = Phase::Finished;
            return Action::Finish;
        }
        if !fixed {
            progress.phase = Phase::HostLookup;
            return Action::ResolveHost {
                host_name: plan.sources[progress.next].zabbix_host.clone(),
            };
        }
        match copy_host(&progress.fixed_host) {
            Some(id) => {
                progress.host_id = id;
                return begin_entity(plan, progress, EntityKind::Item);
            },
            None => {
                progress.outcomes.push(SourceOutcome::Skipped);
                progress.next = progress.next + 1;
            },
        }
    }
}

fn after_entity(
    plan: &Plan,
    progress: &mut Progress,
    kind: EntityKind,
    outcome: EntityOutcome,
) -> (action: Action)
    requires
        old(progress).next < plan.deep_view().sources.len(),
    ensures
        (final(progress).deep_view(), action.deep_view()) == after_entity_view(
            plan.deep_view(),
            old(progress).deep_view(),
            kind,
            outcome,
        ),
{
    match kind {
        EntityKind::Item => {
            progress.item = outcome;
            begin_entity(plan, progress, EntityKind::Scenario)
        },
        EntityKind::Scenario => {
            progress.scenario = outcome;
            begin_entity(plan, progress, EntityKind::Trigger)
        },
        EntityKind::Trigger => {
            assert(plan.deep_view().sources.len() == plan.sources.len());
            progress.outcomes.push(
                SourceOutcome::Processed {
                    item: progress.item,
                    scenario: progress.scenario,
                    trigger: outcome,
                },
            );
            progress.next = progress.next + 1;
            begin_source(plan, progress)
        },
    }
}

/// One step on the parts of an engine.
fn advance(plan: &Plan, progress: &mut Progress, reply: Reply) -> (action: Action)
    requires
        progress_fits(plan.deep_view(), old(progress).deep_view()),
    ensures
        (final(progress).deep_view(), action.deep_view()) == step_view(
            plan.deep_view(),
            old(progress).deep_view(),
            reply.deep_view(),
        ),
{
    match (progress.phase, reply) {
        (Phase::Finished, _) => Action::Finish,
        (Phase::Idle, Reply::Start) => {
            if plan.has_override() {
                progress.phase = Phase::OverrideLookup;
                Action::ResolveHost { host_name: String::from_str(plan.target_hostname) }
            } else {
                begin_source(plan, progress)
            }
        },
        (Phase::OverrideLookup, Reply::Host(found)) => {
            progress.fixed_host = usable(found);
            begin_source(plan, progress)
        },
        (Phase::HostLookup, Reply::Host(found)) => match usable(found) {
            Some(id) => {
                progress.host_id = id;
                begin_entity(plan, progress, EntityKind::Item)
            },
            None => {
                assert(plan.deep_view().sources.len() == plan.sources.len());
                progress.outcomes.push(SourceOutcome::Skipped);
                progress.next = progress.next + 1;
                begin_source(plan, progress)
            },
        },
        (Phase::Lookup(kind), Reply::Found(true)) => after_entity(
            plan,
            progress,
            kind,
            EntityOutcome::Present,
        ),
        (Phase::Lookup(kind), Reply::Found(false)) => {
            progress.phase = Phase::Creation(kind);
            plan.creation(progress.next, kind, progress.host_id.as_str())
        },
        (Phase::Creation(kind), Reply::Created) => after_entity(
            plan,
            progress,
            kind,
            EntityOutcome::Created,
        ),
        (Phase::Creation(kind), Reply::Failed(class)) => after_entity(
            plan,
            progress,
            kind,
            EntityOutcome::Failed(class),
        ),
        (Phase::OverrideLookup, Reply::Failed(class)) => abort(progress, Fatal::LookupFailed(class)),
        (Phase::HostLookup, Reply::Failed(class)) => abort(progress, Fatal::LookupFailed(class)),
        (Phase::Lookup(_), Reply::Failed(class)) => abort(progress, Fatal::LookupFailed(class)),
        _ => abort(progress, Fatal::UnexpectedReply),
    }
}

} // verus!
