//! The calls that the library makes to the server, as a capability that its
//! user supplies.

use crate::errors::ApiError;
use crate::zabbix::hosts::ZabbixHost;
use crate::zabbix::items::{CreateItemRequest, ZabbixItem};
use crate::zabbix::triggers::create::TriggerCreateRequestParams;
use crate::zabbix::triggers::ZabbixTrigger;
use crate::zabbix::webscenarios::{CreateRequestParams, ZabbixWebScenario};
use vstd::prelude::*;

verus! {

/// The server, as far as the library needs it. Each method is one request
/// and its answer. Nothing is promised of what an implementation returns:
/// the library states what it does with whatever comes back.
pub trait ZabbixService {
    /// Logs in and returns the session token.
    fn get_session(&self, username: &str, password: &str) -> Result<String, ApiError>;

    /// The items whose key matches `key`.
    fn find_items(&self, auth_token: &str, key: &str) -> Result<Vec<ZabbixItem>, ApiError>;

    /// The hosts called `host_name`.
    fn find_hosts(&self, auth_token: &str, host_name: &str) -> Result<Vec<ZabbixHost>, ApiError>;

    /// The hosts with one of the given ids.
    fn find_hosts_by_ids(&self, auth_token: &str, ids: &Vec<String>) -> Result<
        Vec<ZabbixHost>,
        ApiError,
    >;

    /// The triggers whose description matches `description`.
    fn find_triggers(&self, auth_token: &str, description: &str) -> Result<
        Vec<ZabbixTrigger>,
        ApiError,
    >;

    /// The web scenarios whose name matches `name`.
    fn find_web_scenarios(&self, auth_token: &str, name: &str) -> Result<
        Vec<ZabbixWebScenario>,
        ApiError,
    >;

    /// Creates an item.
    fn create_item(&self, auth_token: &str, request: &CreateItemRequest) -> Result<(), ApiError>;

    /// Creates a web scenario.
    fn create_web_scenario(&self, auth_token: &str, request: &CreateRequestParams) -> Result<
        (),
        ApiError,
    >;

    /// Creates a trigger.
    fn create_trigger(&self, auth_token: &str, request: &TriggerCreateRequestParams) -> Result<
        (),
        ApiError,
    >;
}

} // verus!
