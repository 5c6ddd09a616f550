//! Building the request that creates a web scenario.

use crate::config::ws::{WebScenarioConfig, WebScenarioConfigView};
use crate::errors::ApiError;
use crate::template::{get_template_vars, process_template_string, substitute, TemplateVars};
use crate::zabbix::hosts::ZabbixHost;
use crate::zabbix::service::ZabbixService;
use crate::zabbix::webscenarios::{
    CreateRequestParams, CreateRequestParamsView, WebScenarioStep, WebScenarioStepView,
    ZabbixWebScenario,
};
use vstd::prelude::*;
use vstd::string::StringExecFns;

verus! {

/// The number of the one step that a web scenario has.
pub const FIRST_STEP_NO: u8 = 1;

/// The name of the web scenario for the source whose variables are `vars`.
pub open spec fn scenario_name_view(
    config: WebScenarioConfigView,
    vars: Map<Seq<char>, Seq<char>>,
) -> Seq<char> {
    substitute(config.name_template, vars)
}

/// The request that creates the web scenario for `url` on the host
/// `host_id`: one step, named like the scenario, that fetches the URL and
/// expects the configured status; update interval and attempts come from the
/// settings.
pub open spec fn web_scenario_request_view(
    config: WebScenarioConfigView,
    vars: Map<Seq<char>, Seq<char>>,
    url: Seq<char>,
    host_id: Seq<char>,
) -> CreateRequestParamsView {
    CreateRequestParamsView {
        name: scenario_name_view(config, vars),
        host_id,
        steps: seq![
            WebScenarioStepView {
                name: scenario_name_view(config, vars),
                url,
                status_codes: config.expect_status_code,
                no: FIRST_STEP_NO,
            },
        ],
        delay: config.update_interval,
        retries: config.attempts,
    }
}

/// Computes the name of the web scenario for the source whose variables are
/// `vars`.
pub fn scenario_name(config: &WebScenarioConfig, vars: &TemplateVars) -> (name: String)
    ensures
        name@ == scenario_name_view(config.deep_view(), vars@),
{
    process_template_string(config.name_template.as_str(), vars)
}

/// Builds the request that creates the web scenario for `url` on the host
/// `host_id`.
pub fn web_scenario_request(
    config: &WebScenarioConfig,
    vars: &TemplateVars,
    url: &str,
    host_id: &str,
) -> (request: CreateRequestParams)
    ensures
        request.deep_view() == web_scenario_request_view(config.deep_view(), vars@, url@, host_id@),
{
    let step = WebScenarioStep {
        name: scenario_name(config, vars),
        url: String::from_str(url),
        status_codes: config.expect_status_code.clone(),
        no: FIRST_STEP_NO,
    };
    let mut steps: Vec<WebScenarioStep> = Vec::new();
    steps.push(step);
    let request = CreateRequestParams {
        name: scenario_name(config, vars),
        host_id: String::from_str(host_id),
        steps,
        delay: config.update_interval.clone(),
        retries: config.attempts,
    };
    assert(request.steps.deep_view() =~= seq![step.deep_view()]);
    request
}

/// One of the web scenarios has this name.
pub open spec fn scenario_known(scenarios: Seq<ZabbixWebScenario>, name: Seq<char>) -> bool {
    exists|i: int| 0 <= i < scenarios.len() && (#[trigger] scenarios[i]).name@ == name
}

/// Tells whether one of the web scenarios has this name.
pub fn is_scenario_known(scenarios: &Vec<ZabbixWebScenario>, name: &String) -> (known: bool)
    ensures
        known == scenario_known(scenarios@, name@),
{
    let mut i: usize = 0;
    while i < scenarios.len()
        invariant
            i <= scenarios.len(),
            forall|k: int| 0 <= k < i ==> (#[trigger] scenarios@[k]).name@ != name@,
        decreases scenarios.len() - i,
    {
        if scenarios[i].name == *name {
            return true;
        }
        i = i + 1;
    }
    false
}

/// Creates the web scenario for `url` on `zabbix_host` unless one of the
/// web scenarios that are known to be on the server has its name. Returns
/// whether a creation was asked for; a failed creation is handed on. Where
/// the scenario is known, the server is not called.
pub fn create_web_scenario_if_does_not_exists<C: ZabbixService>(
    zabbix_service: &C,
    auth_token: &str,
    scenario_config: &WebScenarioConfig,
    url: &str,
    zabbix_host: &ZabbixHost,
    web_scenarios: &Vec<ZabbixWebScenario>,
) -> (out: Result<bool, ApiError>)
    ensures
        scenario_known(
            web_scenarios@,
            scenario_name_view(
                scenario_config.deep_view(),
                crate::template::template_vars_of(zabbix_host.host@, url@),
            ),
        ) ==> out matches Ok(false),
        out matches Ok(asked) ==> asked != scenario_known(
            web_scenarios@,
            scenario_name_view(
                scenario_config.deep_view(),
                crate::template::template_vars_of(zabbix_host.host@, url@),
            ),
        ),
{
    let vars = get_template_vars(zabbix_host.host.as_str(), url);
    let name = scenario_name(scenario_config, &vars);
    if is_scenario_known(web_scenarios, &name) {
        return Ok(false);
    }
    let request = web_scenario_request(scenario_config, &vars, url, zabbix_host.host_id.as_str());
    match zabbix_service.create_web_scenario(auth_token, &request) {
        Ok(_) => Ok(true),
        Err(cause) => Err(cause),
    }
}

} // verus!
