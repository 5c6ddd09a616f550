//! Running the engine against a server.
//!
//! The driver hands each action of the engine to the server and tells the
//! engine what came of it, until the engine says that the run is over.

use crate::errors::ApiError;
use crate::reconcile::machine::{
    answers, asks, failures, initial_progress, lemma_step_fits, progress_fits, replay, steps_left,
    well_answered, Fatal, Reconciler, Reply, ReplyView,
};
use crate::reconcile::outcome::{
    count_failed, count_skipped, run_status, status_exit_code, status_of, summarize, RunStatus,
    RunSummary, SourceOutcome,
};
use crate::reconcile::plan::{Action, Plan, PlanView};
use crate::zabbix::host::{first_host_id, first_host_id_view};
use crate::zabbix::hosts::ZabbixHost;
use crate::zabbix::service::ZabbixService;
use vstd::prelude::*;

verus! {

/// What a run leaves behind.
#[derive(Debug)]
pub struct RunReport {
    /// The outcomes of the sources that were worked through, in their order.
    pub outcomes: Vec<SourceOutcome>,
    /// Why the run ended before all sources were worked through, if it did.
    pub fatal: Option<Fatal>,
    /// The failed calls, in the order in which they failed.
    pub errors: Vec<ApiError>,
}

/// The state of a run with this report: failed where it ended early, else
/// what its outcomes say.
pub open spec fn report_status(outcomes: Seq<SourceOutcome>, fatal: Option<Fatal>) -> RunStatus {
    if fatal is Some {
        RunStatus::Failed
    } else {
        run_status(outcomes)
    }
}

impl RunReport {
    /// The state of the run.
    pub fn status(&self) -> (status: RunStatus)
        ensures
            status == report_status(self.outcomes@, self.fatal),
    {
        if self.fatal.is_some() {
            RunStatus::Failed
        } else {
            status_of(&self.outcomes)
        }
    }

    /// How many sources came to what.
    pub fn summary(&self) -> (summary: RunSummary)
        ensures
            summary.sources == self.outcomes@.len(),
            summary.skipped == count_skipped(self.outcomes@),
            summary.failed == count_failed(self.outcomes@),
            summary.reconciled == self.outcomes@.len() - count_skipped(self.outcomes@)
                - count_failed(self.outcomes@),
    {
        summarize(&self.outcomes)
    }

    /// The exit code for the run: an error only where the run failed.
    pub fn exit_code(&self) -> (code: i32)
        ensures
            code == status_exit_code(report_status(self.outcomes@, self.fatal)),
    {
        self.status().exit_code()
    }
}

/// The report is that of a run of `plan` which is over: the engine came to
/// it by some sequence of replies, each answering the action before it, of
/// which as many were failures as the report lists failed calls. A run that
/// did not end early has an outcome for every source.
pub open spec fn reported(
    plan: PlanView,
    outcomes: Seq<SourceOutcome>,
    fatal: Option<Fatal>,
    failed_calls: nat,
) -> bool {
    &&& exists|replies: Seq<ReplyView>|
        {
            &&& (#[trigger] replay(plan, replies)).phase is Finished
            &&& replay(plan, replies).outcomes == outcomes
            &&& replay(plan, replies).fatal == fatal
            &&& well_answered(plan, replies)
            &&& failures(replies) == failed_calls
        }
    &&& fatal != Some(Fatal::UnexpectedReply)
    &&& fatal is None ==> outcomes.len() == plan.sources.len()
    &&& outcomes.len() <= plan.sources.len()
}

/// The reply that a search for a host comes to: the id of the first host
/// found, or none, or the failure.
pub fn host_reply(found: Result<Vec<ZabbixHost>, ApiError>) -> (heard: (Reply, Option<ApiError>))
    ensures
        match found {
            Ok(hosts) => heard.0.deep_view() == ReplyView::Host(
                first_host_id_view(hosts.deep_view()),
            ) && heard.1 is None,
            Err(cause) => heard.0.deep_view() == ReplyView::Failed(cause.class) && heard.1 == Some(
                cause,
            ),
        },
{
    match found {
        Ok(hosts) => {
            let id = first_host_id(&hosts);
            (Reply::Host(id), None)
        },
        Err(cause) => (Reply::Failed(cause.class), Some(cause)),
    }
}

/// The reply that a lookup comes to: whether it found anything, or the
/// failure.
pub fn lookup_reply<T>(found: Result<Vec<T>, ApiError>) -> (heard: (Reply, Option<ApiError>))
    ensures
        match found {
            Ok(list) => heard.0.deep_view() == ReplyView::Found(list@.len() > 0) && heard.1 is None,
            Err(cause) => heard.0.deep_view() == ReplyView::Failed(cause.class) && heard.1 == Some(
                cause,
            ),
        },
{
    match found {
        Ok(list) => (Reply::Found(list.len() > 0), None),
        Err(cause) => (Reply::Failed(cause.class), Some(cause)),
    }
}

/// The reply that a creation comes to: done, or the failure.
pub fn creation_reply(done: Result<(), ApiError>) -> (heard: (Reply, Option<ApiError>))
    ensures
        match done {
            Ok(_) => heard.0.deep_view() == ReplyView::Created && heard.1 is None,
            Err(cause) => heard.0.deep_view() == ReplyView::Failed(cause.class) && heard.1 == Some(
                cause,
            ),
        },
{
    match done {
        Ok(_) => (Reply::Created, None),
        Err(cause) => (Reply::Failed(cause.class), Some(cause)),
    }
}

/// Has the server do what the action asks, and says what came of it.
pub fn perform<C: ZabbixService>(client: &C, session: &str, action: &Action) -> (heard: (
    Reply,
    Option<ApiError>,
))
    ensures
        answers(action.deep_view(), heard.0.deep_view()),
        action.deep_view() is Finish ==> heard.0.deep_view() is Start,
        heard.0.deep_view() is Failed <==> heard.1 is Some,
{
    match action {
        Action::ResolveHost { host_name } => host_reply(
            client.find_hosts(session, host_name.as_str()),
        ),
        Action::FindItem { key } => lookup_reply(client.find_items(session, key.as_str())),
        Action::CreateItem(request) => creation_reply(client.create_item(session, request)),
        Action::FindWebScenario { name } => lookup_reply(
            client.find_web_scenarios(session, name.as_str()),
        ),
        Action::CreateWebScenario(request) => creation_reply(
            client.create_web_scenario(session, request),
        ),
        Action::FindTrigger { description } => lookup_reply(
            client.find_triggers(session, description.as_str()),
        ),
        Action::CreateTrigger(request) => creation_reply(client.create_trigger(session, request)),
        Action::Finish => (Reply::Start, None),
    }
}

/// Runs `plan` against the server in the session `session`: every source is
/// worked through in order, unless a lookup fails, which ends the run.
pub fn reconcile_sources<'a, C: ZabbixService>(client: &C, session: &str, plan: Plan<'a>) -> (report:
    RunReport)
    ensures
        reported(plan.deep_view(), report.outcomes@, report.fatal, report.errors@.len()),
{
    let ghost plan_view = plan.deep_view();
    let mut engine = Reconciler::new(plan);
    let mut errors: Vec<ApiError> = Vec::new();
    let ghost mut heard_so_far: Seq<ReplyView> = seq![ReplyView::Start];
    proof {
        assert(heard_so_far.drop_last() =~= Seq::<ReplyView>::empty());
        assert(replay(plan_view, heard_so_far.drop_last()) == initial_progress());
        assert(failures(heard_so_far.drop_last()) == 0);
        assert(well_answered(plan_view, heard_so_far.drop_last()));
        lemma_step_fits(plan_view, initial_progress(), ReplyView::Start);
    }
    let mut action = engine.step(Reply::Start);
    while !engine.is_finished()
        invariant
            engine.plan_view() == plan_view,
            engine.progress_view() == replay(plan_view, heard_so_far),
            progress_fits(plan_view, engine.progress_view()),
            asks(engine.progress_view().phase, action.deep_view()),
            engine.progress_view().fatal != Some(Fatal::UnexpectedReply),
            errors@.len() == failures(heard_so_far),
            well_answered(plan_view, heard_so_far),
        decreases steps_left(plan_view, engine.progress_view()),
    {
        let (reply, error) = perform(client, session, &action);
        match error {
            Some(cause) => {
                errors.push(cause);
            },
            None => {},
        }
        proof {
            lemma_step_fits(plan_view, engine.progress_view(), reply.deep_view());
            let longer = heard_so_far.push(reply.deep_view());
            assert(longer.drop_last() =~= heard_so_far);
            heard_so_far = longer;
        }
        action = engine.step(reply);
    }
    let (outcomes, fatal) = engine.into_outcomes();
    RunReport { outcomes, fatal, errors }
}

} // verus!
