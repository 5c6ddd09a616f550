//! The server's answer to a search for triggers.

use crate::errors::ApiError;
use crate::string_map::StringMap;
use crate::zabbix::triggers::ZabbixTrigger;
use crate::zabbix::webscenarios::GetSearchRequestParams;
use crate::zabbix::{decoded, Delivery, ZabbixRequest};
use vstd::prelude::*;
use vstd::string::StringExecFns;

verus! {

/// The triggers that a search found.
#[derive(Debug)]
pub struct TriggerSearchResponse {
    pub result: Vec<ZabbixTrigger>,
}

/// The method that searches for triggers.
pub const TRIGGER_GET_METHOD: &'static str = "trigger.get";

/// The field in which a trigger's description is searched.
pub const TRIGGER_DESCRIPTION_FIELD: &'static str = "description";

/// Builds the request that searches for the triggers whose description
/// matches `name`.
pub fn trigger_search_request(auth_token: &str, name: &str) -> (request: ZabbixRequest<
    GetSearchRequestParams,
>)
    ensures
        request.method@ == TRIGGER_GET_METHOD@,
        request.params.search@ == Map::<Seq<char>, Seq<char>>::empty().insert(
            TRIGGER_DESCRIPTION_FIELD@,
            name@,
        ),
        request.auth@ == auth_token@,
{
    let mut search = StringMap::new();
    search.insert(String::from_str(TRIGGER_DESCRIPTION_FIELD), String::from_str(name));
    ZabbixRequest::new(TRIGGER_GET_METHOD, GetSearchRequestParams { search }, auth_token)
}

/// What a search for triggers comes to: the triggers that the answer holds,
/// or the failure of the delivery where no answer could be read.
pub fn triggers_found(delivery: Delivery<TriggerSearchResponse>, target: &str) -> (out: Result<
    Vec<ZabbixTrigger>,
    ApiError,
>)
    ensures
        match delivery {
            Delivery::Decoded(answer) => out == Ok::<Vec<ZabbixTrigger>, ApiError>(answer.result),
            Delivery::Unreachable => out matches Err(error) && crate::zabbix::plain_failure(
                error,
                crate::errors::FailureClass::Transport,
                TRIGGER_GET_METHOD@,
                target@,
            ),
            Delivery::Undecodable => out matches Err(error) && crate::zabbix::plain_failure(
                error,
                crate::errors::FailureClass::MalformedResponse,
                TRIGGER_GET_METHOD@,
                target@,
            ),
        },
{
    match decoded(delivery, TRIGGER_GET_METHOD, target) {
        Ok(answer) => Ok(answer.result),
        Err(error) => Err(error),
    }
}

/// The first trigger of the list, if there is one.
pub fn first_trigger(mut triggers: Vec<ZabbixTrigger>) -> (first: Option<ZabbixTrigger>)
    ensures
        match first {
            Some(trigger) => triggers@.len() > 0 && trigger == triggers@[0],
            None => triggers@.len() == 0,
        },
{
    if triggers.len() > 0 {
        Some(triggers.swap_remove(0))
    } else {
        None
    }
}

} // verus!
