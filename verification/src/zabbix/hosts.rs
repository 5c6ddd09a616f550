//! Hosts as the server reports them, and the search for hosts by id.

use crate::errors::ApiError;
use crate::zabbix::{found, found_of, Delivery, ZabbixError, ZabbixRequest};
use vstd::prelude::*;
use vstd::string::StringExecFns;

verus! {

/// A host on the server. Hosts are only looked up, never created.
#[derive(Debug)]
pub struct ZabbixHost {
    pub host_id: String,
    pub host: String,
}

/// `ZabbixHost` as characters.
pub struct ZabbixHostView {
    pub host_id: Seq<char>,
    pub host: Seq<char>,
}

impl DeepView for ZabbixHost {
    type V = ZabbixHostView;

    open spec fn deep_view(&self) -> ZabbixHostView {
        ZabbixHostView { host_id: self.host_id@, host: self.host@ }
    }
}

/// The parameters of a search for the hosts with the given ids.
#[derive(Debug)]
pub struct SearchRequestParams {
    pub host_ids: Vec<String>,
}

/// The parameters of a search for the hosts with the given name.
#[derive(Debug)]
pub struct HostFilter {
    pub host: Vec<String>,
}

/// The server's answer to a search for hosts: the hosts, or an error.
#[derive(Debug)]
pub struct SearchResponse {
    pub result: Option<Vec<ZabbixHost>>,
    pub error: Option<ZabbixError>,
}

/// The method that searches for hosts.
pub const HOST_GET_METHOD: &'static str = "host.get";

/// The delivery of an answer, with the answer taken apart.
pub open spec fn host_delivery(delivery: Delivery<SearchResponse>) -> Delivery<
    (Option<Vec<ZabbixHost>>, Option<ZabbixError>),
> {
    match delivery {
        Delivery::Unreachable => Delivery::Unreachable,
        Delivery::Undecodable => Delivery::Undecodable,
        Delivery::Decoded(answer) => Delivery::Decoded((answer.result, answer.error)),
    }
}

/// Builds the request that searches for the hosts with the given ids.
pub fn host_search_request(auth_token: &str, ids: Vec<String>) -> (request: ZabbixRequest<
    SearchRequestParams,
>)
    ensures
        request.method@ == HOST_GET_METHOD@,
        request.params.host_ids == ids,
        request.auth@ == auth_token@,
{
    ZabbixRequest::new(HOST_GET_METHOD, SearchRequestParams { host_ids: ids }, auth_token)
}

/// Builds the request that searches for the host called `hostname`.
pub fn host_by_name_request(auth_token: &str, hostname: &str) -> (request: ZabbixRequest<HostFilter>)
    ensures
        request.method@ == HOST_GET_METHOD@,
        request.params.host.deep_view() == seq![hostname@],
        request.auth@ == auth_token@,
{
    let mut host: Vec<String> = Vec::new();
    host.push(String::from_str(hostname));
    assert(host.deep_view() =~= seq![hostname@]);
    ZabbixRequest::new(HOST_GET_METHOD, HostFilter { host }, auth_token)
}

/// What a search for hosts comes to: the hosts that the answer holds; a
/// failure of the server's own where the answer holds none; the failure of
/// the delivery where no answer could be read.
pub fn hosts_found(delivery: Delivery<SearchResponse>, target: &str) -> (out: Result<
    Vec<ZabbixHost>,
    ApiError,
>)
    ensures
        found_of(host_delivery(delivery), HOST_GET_METHOD@, target@, out),
{
    let parts = match delivery {
        Delivery::Unreachable => Delivery::Unreachable,
        Delivery::Undecodable => Delivery::Undecodable,
        Delivery::Decoded(answer) => Delivery::Decoded((answer.result, answer.error)),
    };
    found(parts, HOST_GET_METHOD, target)
}

} // verus!
