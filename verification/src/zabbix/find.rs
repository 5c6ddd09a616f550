//! Fetching in one go what is on the server for a search mask.

use crate::errors::ApiError;
use crate::source::zabbix::collect_host_ids;
use crate::zabbix::hosts::ZabbixHost;
use crate::zabbix::items::ZabbixItem;
use crate::zabbix::service::ZabbixService;
use crate::zabbix::webscenarios::ZabbixWebScenario;
use vstd::prelude::*;

verus! {

/// What is on the server for a search mask: the items, the web scenarios,
/// and the hosts of the items.
#[derive(Debug)]
pub struct ZabbixEntities {
    pub items: Vec<ZabbixItem>,
    pub web_scenarios: Vec<ZabbixWebScenario>,
    pub hosts: Vec<ZabbixHost>,
}

/// Asks the server for the items that match the mask, the web scenarios
/// whose name matches `scenario_name`, and the hosts that the items belong
/// to. Stops at the first search that fails and hands the failure on.
pub fn find_zabbix_objects<C: ZabbixService>(
    zabbix_service: &C,
    auth_token: &str,
    item_key_search_mask: &str,
    scenario_name: &str,
) -> (out: Result<ZabbixEntities, ApiError>) {
    let items = match zabbix_service.find_items(auth_token, item_key_search_mask) {
        Ok(items) => items,
        Err(cause) => {
            return Err(cause);
        },
    };
    let web_scenarios = match zabbix_service.find_web_scenarios(auth_token, scenario_name) {
        Ok(web_scenarios) => web_scenarios,
        Err(cause) => {
            return Err(cause);
        },
    };
    let host_ids = collect_host_ids(&items);
    entities_found(items, web_scenarios, zabbix_service.find_hosts_by_ids(auth_token, &host_ids))
}

/// Puts together what the searches came to, given the items and the web
/// scenarios that were found and what the search for the items' hosts
/// returned: the three lists as they came, or the failure of that search.
pub fn entities_found(
    items: Vec<ZabbixItem>,
    web_scenarios: Vec<ZabbixWebScenario>,
    hosts: Result<Vec<ZabbixHost>, ApiError>,
) -> (out: Result<ZabbixEntities, ApiError>)
    ensures
        match hosts {
            Ok(found) => out == Ok::<ZabbixEntities, ApiError>(
                ZabbixEntities { items, web_scenarios, hosts: found },
            ),
            Err(cause) => out == Err::<ZabbixEntities, ApiError>(cause),
        },
{
    match hosts {
        Ok(found) => Ok(ZabbixEntities { items, web_scenarios, hosts: found }),
        Err(cause) => Err(cause),
    }
}

} // verus!
