//! Finding the id of a host by its name.

use crate::errors::ApiError;
use crate::zabbix::hosts::{ZabbixHost, ZabbixHostView};
use crate::zabbix::service::ZabbixService;
use vstd::prelude::*;

verus! {

/// The id of the first host of the list, if there is one.
pub open spec fn first_host_id_view(hosts: Seq<ZabbixHostView>) -> Option<Seq<char>> {
    if hosts.len() > 0 {
        Some(hosts[0].host_id)
    } else {
        None
    }
}

/// The characters of an id that may be missing.
pub open spec fn id_view(id: Option<String>) -> Option<Seq<char>> {
    match id {
        Some(text) => Some(text@),
        None => None,
    }
}

/// Picks the id of the first host that a search by name found.
pub fn first_host_id(hosts: &Vec<ZabbixHost>) -> (id: Option<String>)
    ensures
        id_view(id) == first_host_id_view(hosts.deep_view()),
{
    if hosts.len() > 0 {
        Some(hosts[0].host_id.clone())
    } else {
        None
    }
}

/// What a search for a host by name comes to: the id of the first host
/// found, none where the search found nothing, or the failure of the search.
pub fn host_id_found(found: Result<Vec<ZabbixHost>, ApiError>) -> (out: Result<
    Option<String>,
    ApiError,
>)
    ensures
        match (found, out) {
            (Ok(hosts), Ok(id)) => id_view(id) == first_host_id_view(hosts.deep_view()),
            (Err(cause), Err(handed)) => handed == cause,
            _ => false,
        },
{
    match found {
        Ok(hosts) => Ok(first_host_id(&hosts)),
        Err(cause) => Err(cause),
    }
}

/// Asks the server for the host called `hostname` and returns its id.
pub fn find_zabbix_host_id<C: ZabbixService>(zabbix_client: &C, session: &str, hostname: &str) -> (out:
    Result<Option<String>, ApiError>) {
    host_id_found(zabbix_client.find_hosts(session, hostname))
}

} // verus!
