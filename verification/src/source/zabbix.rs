//! URL sources from the server itself: every item whose key is the search
//! mask followed by a URL in square brackets stands for one source, filed
//! under the host that the item belongs to.

use crate::config::{ZabbixApiConfig, ZabbixConfig};
use crate::errors::OperationError;
use crate::source::{UrlSource, UrlSourceProvider, UrlSourceView};
use crate::zabbix::host::id_view;
use crate::zabbix::hosts::{ZabbixHost, ZabbixHostView};
use crate::zabbix::items::{ZabbixItem, ZabbixItemView};
use crate::zabbix::service::ZabbixService;
use vstd::prelude::*;
use vstd::string::StringExecFns;

verus! {

/// What stands before the mask in the search pattern: the start of the key.
pub const PATTERN_HEAD: &'static str = "^";

/// What stands behind the mask in the search pattern: the URL in square
/// brackets, as the first group, and the end of the key.
pub const PATTERN_TAIL: &'static str = "\\[(.*)\\]$";

/// The search pattern for a mask: a key matches when it is the mask, read as
/// a regular expression, followed by a URL in square brackets.
pub open spec fn key_pattern(mask: Seq<char>) -> Seq<char> {
    PATTERN_HEAD@ + mask + PATTERN_TAIL@
}

/// Whether `regex::Regex::new` accepts the pattern.
pub uninterp spec fn regex_compiles(pattern: Seq<char>) -> bool;

/// The text of the first group in the first match that `Regex::captures`
/// finds for the pattern in the text; `None` where the pattern is not
/// accepted, nothing matches, or the group took no part in the match.
pub uninterp spec fn regex_first_group(pattern: Seq<char>, text: Seq<char>) -> Option<Seq<char>>;

/// Calls `regex::Regex::new` and tells whether the pattern was accepted.
/// The contract gives that answer a name; it claims nothing of which
/// patterns are accepted.
#[verifier::external_body]
fn pattern_compiles(pattern: &str) -> (accepted: bool)
    ensures
        accepted == regex_compiles(pattern@),
{
    regex::Regex::new(pattern).is_ok()
}

/// Compiles the pattern with `regex::Regex::new`, searches the text with
/// `Regex::captures` and takes the text of group 1 with `Captures::get`.
/// The contract gives the result a name; it claims nothing of what matches.
#[verifier::external_body]
fn first_group(pattern: &str, text: &str) -> (group: Option<String>)
    ensures
        id_view(group) == regex_first_group(pattern@, text@),
{
    match regex::Regex::new(pattern) {
        Ok(compiled) => match compiled.captures(text) {
            Some(groups) => groups.get(1).map(|found| found.as_str().to_string()),
            None => None,
        },
        Err(_) => None,
    }
}

/// The name of the first host of the list with the id `host_id`.
pub open spec fn host_name_of(hosts: Seq<ZabbixHostView>, host_id: Seq<char>) -> Option<Seq<char>>
    decreases hosts.len(),
{
    if hosts.len() == 0 {
        None
    } else if hosts[0].host_id == host_id {
        Some(hosts[0].host)
    } else {
        host_name_of(hosts.subrange(1, hosts.len() as int), host_id)
    }
}

/// The URL source that an item stands for, given the URL that was found in
/// its key: none where no URL was found or the item's host is not in the
/// list.
pub open spec fn item_source(
    captured: Option<Seq<char>>,
    item: ZabbixItemView,
    hosts: Seq<ZabbixHostView>,
) -> Option<UrlSourceView> {
    match (captured, host_name_of(hosts, item.host_id)) {
        (Some(url), Some(zabbix_host)) => Some(UrlSourceView { zabbix_host, url }),
        _ => None,
    }
}

/// The URL sources that the items stand for, in the order of the items.
pub open spec fn discovered_sources(
    mask: Seq<char>,
    items: Seq<ZabbixItemView>,
    hosts: Seq<ZabbixHostView>,
) -> Seq<UrlSourceView> {
    items.filter_map(
        |item: ZabbixItemView|
            item_source(regex_first_group(key_pattern(mask), item.key_), item, hosts),
    )
}

/// The host ids of the items, in the order of the items.
pub open spec fn host_ids_of(items: Seq<ZabbixItemView>) -> Seq<Seq<char>> {
    items.map_values(|item: ZabbixItemView| item.host_id)
}

/// Builds the search pattern for a mask.
pub fn key_pattern_of(mask: &str) -> (pattern: String)
    ensures
        pattern@ == key_pattern(mask@),
{
    let mut pattern = String::from_str(PATTERN_HEAD);
    pattern.append(mask);
    pattern.append(PATTERN_TAIL);
    pattern
}

/// Finds the name of the first host of the list with the id `host_id`.
pub fn find_host_name(hosts: &Vec<ZabbixHost>, host_id: &String) -> (name: Option<String>)
    ensures
        id_view(name) == host_name_of(hosts.deep_view(), host_id@),
{
    let ghost all = hosts.deep_view();
    let mut i: usize = 0;
    assert(all.subrange(0, all.len() as int) =~= all);
    while i < hosts.len()
        invariant
            i <= hosts.len(),
            all == hosts.deep_view(),
            host_name_of(all.subrange(i as int, all.len() as int), host_id@) == host_name_of(
                all,
                host_id@,
            ),
        decreases hosts.len() - i,
    {
        let ghost rest = all.subrange(i as int, all.len() as int);
        assert(rest[0] == all[i as int]);
        if hosts[i].host_id == *host_id {
            return Some(hosts[i].host.clone());
        }
        assert(rest.subrange(1, rest.len() as int) =~= all.subrange(i + 1, all.len() as int));
        i = i + 1;
    }
    assert(all.subrange(i as int, all.len() as int).len() == 0);
    None
}

/// Makes the URL source of an item from the URL that was found in its key.
pub fn url_source_for(captured: Option<String>, item: &ZabbixItem, hosts: &Vec<ZabbixHost>) -> (source:
    Option<UrlSource>)
    ensures
        source.deep_view() == item_source(id_view(captured), item.deep_view(), hosts.deep_view()),
{
    match captured {
        Some(url) => match find_host_name(hosts, &item.host_id) {
            Some(zabbix_host) => Some(UrlSource { zabbix_host, url }),
            None => None,
        },
        None => None,
    }
}

/// Collects the host ids of the items.
pub fn collect_host_ids(items: &Vec<ZabbixItem>) -> (ids: Vec<String>)
    ensures
        ids.deep_view() == host_ids_of(items.deep_view()),
{
    let mut ids: Vec<String> = Vec::new();
    let mut i: usize = 0;
    while i < items.len()
        invariant
            i <= items.len(),
            ids.deep_view() == host_ids_of(items.deep_view()).take(i as int),
        decreases items.len() - i,
    {
        let ghost before = ids.deep_view();
        ids.push(items[i].host_id.clone());
        assert(ids.deep_view() =~= before.push(items[i as int].host_id@));
        assert(host_ids_of(items.deep_view()).take(i + 1) =~= before.push(items[i as int].host_id@));
        i = i + 1;
    }
    assert(host_ids_of(items.deep_view()).take(items.len() as int) =~= host_ids_of(
        items.deep_view(),
    ));
    ids
}

/// Derives the URL sources from the items that a search by `mask` found and
/// the hosts that they belong to. Fails exactly when the mask does not make
/// a pattern that the regular expression engine accepts.
pub fn url_sources_from_items(mask: &str, items: &Vec<ZabbixItem>, hosts: &Vec<ZabbixHost>) -> (out:
    Result<Vec<UrlSource>, OperationError>)
    ensures
        match out {
            Ok(sources) => regex_compiles(key_pattern(mask@)) && sources.deep_view()
                == discovered_sources(mask@, items.deep_view(), hosts.deep_view()),
            Err(cause) => !regex_compiles(key_pattern(mask@)) && cause is InvalidPattern,
        },
{
    let pattern = key_pattern_of(mask);
    if !pattern_compiles(pattern.as_str()) {
        return Err(OperationError::InvalidPattern);
    }
    let ghost f = |item: ZabbixItemView|
        item_source(
            regex_first_group(key_pattern(mask@), item.key_),
            item,
            hosts.deep_view(),
        );
    let mut sources: Vec<UrlSource> = Vec::new();
    let mut i: usize = 0;
    while i < items.len()
        invariant
            i <= items.len(),
            pattern@ == key_pattern(mask@),
            f == |item: ZabbixItemView|
                item_source(
                    regex_first_group(key_pattern(mask@), item.key_),
                    item,
                    hosts.deep_view(),
                ),
            sources.deep_view() == items.deep_view().take(i as int).filter_map(f),
        decreases items.len() - i,
    {
        let ghost before = sources.deep_view();
        proof {
            items.deep_view().lemma_filter_map_take_succ(f, i as int);
        }
        let captured = first_group(pattern.as_str(), items[i].key_.as_str());
        match url_source_for(captured, &items[i], hosts) {
            Some(source) => {
                sources.push(source);
                assert(sources.deep_view() =~= before + seq![source.deep_view()]);
            },
            None => {},
        }
        i = i + 1;
    }
    assert(items.deep_view().take(items.len() as int) =~= items.deep_view());
    Ok(sources)
}

/// Lists URL sources from the items on the server whose key matches the
/// search mask.
pub struct ZabbixUrlSourceProvider<T: ZabbixService> {
    pub api: ZabbixApiConfig,
    pub zabbix_client: T,
    pub item_key_search_mask: String,
}

impl<T: ZabbixService> ZabbixUrlSourceProvider<T> {
    /// A provider that logs in as `zabbix_config` says and searches by
    /// `item_key_search_mask`.
    pub fn new(zabbix_config: &ZabbixConfig, zabbix_service: T, item_key_search_mask: &str) -> (provider:
        ZabbixUrlSourceProvider<T>)
        ensures
            provider.api.deep_view() == zabbix_config.api.deep_view(),
            provider.zabbix_client == zabbix_service,
            provider.item_key_search_mask@ == item_key_search_mask@,
    {
        ZabbixUrlSourceProvider {
            api: zabbix_config.api.duplicate(),
            zabbix_client: zabbix_service,
            item_key_search_mask: String::from_str(item_key_search_mask),
        }
    }
}

impl<T: ZabbixService> UrlSourceProvider for ZabbixUrlSourceProvider<T> {
    /// Logs in, searches the items by the mask, looks up their hosts and
    /// derives the sources. A failed call is handed on as it came.
    fn get_url_sources(&self) -> (out: Result<Vec<UrlSource>, OperationError>)
        ensures
            out is Ok ==> regex_compiles(key_pattern(self.item_key_search_mask@)),
            out matches Err(cause) ==> cause is Api || (cause is InvalidPattern && !regex_compiles(
                key_pattern(self.item_key_search_mask@),
            )),
    {
        let token = match self.zabbix_client.get_session(
            self.api.username.as_str(),
            self.api.password.as_str(),
        ) {
            Ok(token) => token,
            Err(cause) => {
                return Err(OperationError::Api(cause));
            },
        };
        let items = match self.zabbix_client.find_items(
            token.as_str(),
            self.item_key_search_mask.as_str(),
        ) {
            Ok(items) => items,
            Err(cause) => {
                return Err(OperationError::Api(cause));
            },
        };
        let host_ids = collect_host_ids(&items);
        let hosts = match self.zabbix_client.find_hosts_by_ids(token.as_str(), &host_ids) {
            Ok(hosts) => hosts,
            Err(cause) => {
                return Err(OperationError::Api(cause));
            },
        };
        url_sources_from_items(self.item_key_search_mask.as_str(), &items, &hosts)
    }
}

} // verus!
