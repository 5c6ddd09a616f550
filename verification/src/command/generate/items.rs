//! One run, from the list of URL sources to the report.

use crate::config::item::ZabbixItemConfig;
use crate::config::trigger::ZabbixTriggerConfig;
use crate::config::ws::WebScenarioConfig;
use crate::errors::{ApiError, OperationError};
use crate::reconcile::driver::{reconcile_sources, report_status, reported, RunReport};
use crate::reconcile::outcome::{status_exit_code, EntityKind, ERROR_EXIT_CODE};
use crate::reconcile::plan::{Plan, PlanView};
use crate::source::{UrlSource, UrlSourceProvider, UrlSourceView};
use crate::zabbix::service::ZabbixService;
use vstd::prelude::*;

verus! {

/// Why a run did not begin.
#[derive(Debug)]
pub enum RunError {
    /// The URL sources could not be listed.
    SourcesUnavailable(OperationError),
    /// A template gives an empty key, name or description for the source at
    /// `index`: nothing can be filed under it on the server.
    InvalidIdentifier { index: usize, kind: EntityKind },
    /// Logging in failed.
    AuthenticationFailed(ApiError),
}

/// The plan of a run with these settings over these sources.
pub open spec fn plan_of(
    target_hostname: Seq<char>,
    web_scenario_config: &WebScenarioConfig,
    item_config: &ZabbixItemConfig,
    trigger_config: &ZabbixTriggerConfig,
    sources: Seq<UrlSourceView>,
) -> PlanView {
    PlanView {
        target_hostname,
        item: item_config.deep_view(),
        scenario: web_scenario_config.deep_view(),
        trigger: trigger_config.deep_view(),
        sources,
    }
}

/// What a run over known sources returns. Where a template gives an empty
/// identifier, the error that names the first such source and object, and
/// nothing else; where none does, the failure to log in or the report of a
/// run of the plan.
pub open spec fn run_result(plan: PlanView, result: Result<RunReport, RunError>) -> bool {
    match plan.first_invalid() {
        Some((index, kind)) => result matches Err(RunError::InvalidIdentifier { index: i, kind: k })
            && i == index && k == kind,
        None => match result {
            Ok(report) => reported(plan, report.outcomes@, report.fatal, report.errors@.len()),
            Err(cause) => cause is AuthenticationFailed,
        },
    }
}

/// Works through `url_sources`: checks that every source has a key, a name
/// and a description to be filed under, logs in, and runs the engine
/// against the server.
pub fn reconcile_url_sources<C: ZabbixService>(
    zabbix_client: &C,
    zabbix_login: &str,
    zabbix_password: &str,
    url_sources: &Vec<UrlSource>,
    target_hostname: &str,
    web_scenario_config: &WebScenarioConfig,
    item_config: &ZabbixItemConfig,
    trigger_config: &ZabbixTriggerConfig,
) -> (result: Result<RunReport, RunError>)
    ensures
        run_result(
            plan_of(
                target_hostname@,
                web_scenario_config,
                item_config,
                trigger_config,
                url_sources.deep_view(),
            ),
            result,
        ),
{
    let plan = Plan {
        target_hostname,
        item: item_config,
        scenario: web_scenario_config,
        trigger: trigger_config,
        sources: url_sources,
    };
    match plan.first_invalid() {
        Some((index, kind)) => {
            return Err(RunError::InvalidIdentifier { index, kind });
        },
        None => {},
    }
    let session = match zabbix_client.get_session(zabbix_login, zabbix_password) {
        Ok(token) => token,
        Err(cause) => {
            return Err(RunError::AuthenticationFailed(cause));
        },
    };
    Ok(reconcile_sources(zabbix_client, session.as_str(), plan))
}

/// One whole run: lists the URL sources, then works through them. Whatever
/// the provider and the server return, the result is either the failure to
/// list the sources or what working through some list of sources returns.
pub fn generate_web_scenarios_and_triggers<C: ZabbixService, P: UrlSourceProvider>(
    zabbix_client: &C,
    zabbix_login: &str,
    zabbix_password: &str,
    url_source_provider: P,
    target_hostname: &str,
    web_scenario_config: &WebScenarioConfig,
    item_config: &ZabbixItemConfig,
    trigger_config: &ZabbixTriggerConfig,
) -> (result: Result<RunReport, RunError>)
    ensures
        result matches Err(RunError::SourcesUnavailable(_)) || exists|sources: Seq<UrlSourceView>|
            run_result(
                #[trigger] plan_of(
                    target_hostname@,
                    web_scenario_config,
                    item_config,
                    trigger_config,
                    sources,
                ),
                result,
            ),
{
    reconcile_listed_sources(
        zabbix_client,
        zabbix_login,
        zabbix_password,
        url_source_provider.get_url_sources(),
        target_hostname,
        web_scenario_config,
        item_config,
        trigger_config,
    )
}

/// The run, given what listing the URL sources returned. A failure to list
/// them is the result, and the server is not called; a list is worked
/// through.
pub fn reconcile_listed_sources<C: ZabbixService>(
    zabbix_client: &C,
    zabbix_login: &str,
    zabbix_password: &str,
    listed: Result<Vec<UrlSource>, OperationError>,
    target_hostname: &str,
    web_scenario_config: &WebScenarioConfig,
    item_config: &ZabbixItemConfig,
    trigger_config: &ZabbixTriggerConfig,
) -> (result: Result<RunReport, RunError>)
    ensures
        match listed {
            Ok(url_sources) => run_result(
                plan_of(
                    target_hostname@,
                    web_scenario_config,
                    item_config,
                    trigger_config,
                    url_sources.deep_view(),
                ),
                result,
            ),
            Err(cause) => result == Err::<RunReport, RunError>(
                RunError::SourcesUnavailable(cause),
            ),
        },
{
    match listed {
        Ok(url_sources) => reconcile_url_sources(
            zabbix_client,
            zabbix_login,
            zabbix_password,
            &url_sources,
            target_hostname,
            web_scenario_config,
            item_config,
            trigger_config,
        ),
        Err(cause) => Err(RunError::SourcesUnavailable(cause)),
    }
}

/// The exit code of the process for what a run returned.
pub open spec fn result_exit_code(result: Result<RunReport, RunError>) -> i32 {
    match result {
        Ok(report) => status_exit_code(report_status(report.outcomes@, report.fatal)),
        Err(_) => ERROR_EXIT_CODE,
    }
}

/// The exit code of the process: an error where the run did not begin,
/// ended early, or could not create something; else a success.
pub fn exit_code(result: &Result<RunReport, RunError>) -> (code: i32)
    ensures
        code == result_exit_code(*result),
{
    match result {
        Ok(report) => report.exit_code(),
        Err(_) => ERROR_EXIT_CODE,
    }
}

} // verus!
