//! Web scenarios: as the server reports them, and as they are created.

use crate::errors::ApiError;
use crate::string_map::StringMap;
use crate::zabbix::{found, found_of, Delivery, ZabbixError, ZabbixRequest};
use vstd::prelude::*;
use vstd::string::StringExecFns;

pub mod create;

verus! {

/// A web scenario on the server.
#[derive(Debug)]
pub struct ZabbixWebScenario {
    pub name: String,
}

/// The parameters of a search by field values.
pub struct GetSearchRequestParams {
    pub search: StringMap,
}

/// The server's answer to a search for web scenarios.
#[derive(Debug)]
pub struct WebScenariosResponse {
    pub result: Option<Vec<ZabbixWebScenario>>,
}

/// What the server is asked to create as a web scenario.
#[derive(Debug)]
pub struct CreateRequestParams {
    pub name: String,
    pub host_id: String,
    pub steps: Vec<WebScenarioStep>,
    pub delay: String,
    pub retries: u8,
}

/// One step of a web scenario: the page to fetch and the status to expect.
#[derive(Debug)]
pub struct WebScenarioStep {
    pub name: String,
    pub url: String,
    pub status_codes: String,
    pub no: u8,
}

/// `WebScenarioStep` as characters.
pub struct WebScenarioStepView {
    pub name: Seq<char>,
    pub url: Seq<char>,
    pub status_codes: Seq<char>,
    pub no: u8,
}

impl DeepView for WebScenarioStep {
    type V = WebScenarioStepView;

    open spec fn deep_view(&self) -> WebScenarioStepView {
        WebScenarioStepView {
            name: self.name@,
            url: self.url@,
            status_codes: self.status_codes@,
            no: self.no,
        }
    }
}

/// `CreateRequestParams` as characters.
pub struct CreateRequestParamsView {
    pub name: Seq<char>,
    pub host_id: Seq<char>,
    pub steps: Seq<WebScenarioStepView>,
    pub delay: Seq<char>,
    pub retries: u8,
}

impl DeepView for CreateRequestParams {
    type V = CreateRequestParamsView;

    open spec fn deep_view(&self) -> CreateRequestParamsView {
        CreateRequestParamsView {
            name: self.name@,
            host_id: self.host_id@,
            steps: self.steps.deep_view(),
            delay: self.delay@,
            retries: self.retries,
        }
    }
}

/// The method that searches for web scenarios.
pub const WEB_SCENARIO_GET_METHOD: &'static str = "httptest.get";

/// The method that creates a web scenario.
pub const WEB_SCENARIO_CREATE_METHOD: &'static str = "httptest.create";

/// The field in which a web scenario's name is searched.
pub const WEB_SCENARIO_NAME_FIELD: &'static str = "name";

/// The delivery of an answer, with the answer taken apart.
pub open spec fn scenario_delivery(delivery: Delivery<WebScenariosResponse>) -> Delivery<
    (Option<Vec<ZabbixWebScenario>>, Option<ZabbixError>),
> {
    match delivery {
        Delivery::Unreachable => Delivery::Unreachable,
        Delivery::Undecodable => Delivery::Undecodable,
        Delivery::Decoded(answer) => Delivery::Decoded((answer.result, None)),
    }
}

/// Builds the request that searches for the web scenarios whose name
/// matches `name`.
pub fn web_scenario_search_request(auth_token: &str, name: &str) -> (request: ZabbixRequest<
    GetSearchRequestParams,
>)
    ensures
        request.method@ == WEB_SCENARIO_GET_METHOD@,
        request.params.search@ == Map::<Seq<char>, Seq<char>>::empty().insert(
            WEB_SCENARIO_NAME_FIELD@,
            name@,
        ),
        request.auth@ == auth_token@,
{
    let mut search = StringMap::new();
    search.insert(String::from_str(WEB_SCENARIO_NAME_FIELD), String::from_str(name));
    ZabbixRequest::new(WEB_SCENARIO_GET_METHOD, GetSearchRequestParams { search }, auth_token)
}

/// What a search for web scenarios comes to: the web scenarios that the
/// answer holds; a failure of the server's own where the answer holds none;
/// the failure of the delivery where no answer could be read.
pub fn web_scenarios_found(delivery: Delivery<WebScenariosResponse>, target: &str) -> (out: Result<
    Vec<ZabbixWebScenario>,
    ApiError,
>)
    ensures
        found_of(scenario_delivery(delivery), WEB_SCENARIO_GET_METHOD@, target@, out),
{
    let parts = match delivery {
        Delivery::Unreachable => Delivery::Unreachable,
        Delivery::Undecodable => Delivery::Undecodable,
        Delivery::Decoded(answer) => Delivery::Decoded((answer.result, None)),
    };
    found(parts, WEB_SCENARIO_GET_METHOD, target)
}

} // verus!
