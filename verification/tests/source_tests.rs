use std::cell::RefCell;

use wszl::config::item::ZabbixItemConfig;
use wszl::config::trigger::ZabbixTriggerConfig;
use wszl::config::ws::WebScenarioConfig;
use wszl::config::{ZabbixApiConfig, ZabbixConfig};
use wszl::errors::{ApiError, FailureClass, OperationError};
use wszl::source::file::{parse_row, parse_url_sources, split_rows, FileUrlSourceProvider};
use wszl::source::zabbix::{
    collect_host_ids, find_host_name, key_pattern_of, url_source_for, url_sources_from_items,
    ZabbixUrlSourceProvider,
};
use wszl::source::{UrlSource, UrlSourceProvider};
use wszl::zabbix::hosts::ZabbixHost;
use wszl::zabbix::items::{CreateItemRequest, ZabbixItem};
use wszl::zabbix::service::ZabbixService;
use wszl::zabbix::triggers::create::TriggerCreateRequestParams;
use wszl::zabbix::triggers::ZabbixTrigger;
use wszl::zabbix::webscenarios::{CreateRequestParams, ZabbixWebScenario};

fn pairs(sources: &[UrlSource]) -> Vec<(String, String)> {
    sources.iter().map(|source| (source.zabbix_host.clone(), source.url.clone())).collect()
}

fn expect(list: &[(&str, &str)]) -> Vec<(String, String)> {
    list.iter().map(|(host, url)| (host.to_string(), url.to_string())).collect()
}

#[test]
fn url_sources_should_be_returned() {
    let content = "# zabbix-host|url\nwebsrv10-182|https://demo.company.com\n\nWebsrv121|https://app12.stage.company.com\n";
    let provider = FileUrlSourceProvider::new("tests/urls.txt");
    match provider.url_sources_from(Ok(content.to_string())) {
        Ok(results) => {
            assert_eq!(2, results.len());

            assert!(results
                .iter()
                .find(|us| us.zabbix_host == "websrv10-182" && us.url == "https://demo.company.com")
                .is_some());

            assert!(results
                .iter()
                .find(|us| us.zabbix_host == "Websrv121"
                    && us.url == "https://app12.stage.company.com")
                .is_some());
        }
        Err(e) => panic!("unexpected error '{:?}'", e),
    }
}

#[test]
fn comment_and_malformed_rows_are_passed_over() {
    let content = ["host1|https://a.com", "# comment", "badline", "host2|https://b.com"].join("\n");
    let sources = parse_url_sources(&content);
    assert_eq!(pairs(&sources), expect(&[("host1", "https://a.com"), ("host2", "https://b.com")]));
}

#[test]
fn rows_come_out_in_file_order() {
    let sources = parse_url_sources("b|2\na|1\nb|2");
    assert_eq!(pairs(&sources), expect(&[("b", "2"), ("a", "1"), ("b", "2")]));
}

#[test]
fn row_needs_exactly_one_separator() {
    assert!(parse_row("").is_none());
    assert!(parse_row("host").is_none());
    assert!(parse_row("a|b|c").is_none());
    assert!(parse_row("a||b").is_none());
    assert!(parse_row("#host|url").is_none());
    assert!(parse_row("#").is_none());
    let source = parse_row("host|url").unwrap();
    assert_eq!((source.zabbix_host.as_str(), source.url.as_str()), ("host", "url"));
}

#[test]
fn row_is_taken_as_it_stands() {
    let source = parse_row(" host | https://a.com ").unwrap();
    assert_eq!(source.zabbix_host, " host ");
    assert_eq!(source.url, " https://a.com ");
    let empty = parse_row("|").unwrap();
    assert_eq!((empty.zabbix_host.as_str(), empty.url.as_str()), ("", ""));
    let marked = parse_row("host|#url").unwrap();
    assert_eq!(marked.url, "#url");
    let wide = parse_row("хост|https://пример.рф").unwrap();
    assert_eq!((wide.zabbix_host.as_str(), wide.url.as_str()), ("хост", "https://пример.рф"));
}

#[test]
fn rows_are_split_at_line_feeds_only() {
    assert_eq!(split_rows(""), vec![""]);
    assert_eq!(split_rows("a"), vec!["a"]);
    assert_eq!(split_rows("a\n"), vec!["a", ""]);
    assert_eq!(split_rows("\na\n\nb"), vec!["", "a", "", "b"]);
    assert_eq!(split_rows("a\r\nb"), vec!["a\r", "b"]);
}

#[test]
fn empty_file_has_no_sources() {
    assert!(parse_url_sources("").is_empty());
    assert!(parse_url_sources("\n\n").is_empty());
}

#[test]
fn unreadable_file_is_handed_on_as_io_error() {
    let provider = FileUrlSourceProvider::new("missing.txt");
    assert_eq!(provider.filename(), "missing.txt");
    let cause = std::io::Error::new(std::io::ErrorKind::NotFound, "no such file");
    match provider.url_sources_from(Err(cause)) {
        Err(OperationError::IOError(handed)) => {
            assert_eq!(handed.kind(), std::io::ErrorKind::NotFound)
        }
        other => panic!("unexpected result {:?}", other),
    }
}

fn item(key: &str, host_id: &str) -> ZabbixItem {
    ZabbixItem { name: format!("item {}", key), key_: key.to_string(), host_id: host_id.to_string() }
}

fn host(id: &str, name: &str) -> ZabbixHost {
    ZabbixHost { host_id: id.to_string(), host: name.to_string() }
}

#[test]
fn key_pattern_wraps_the_mask() {
    assert_eq!(key_pattern_of("nginx.vhost.item"), "^nginx.vhost.item\\[(.*)\\]$");
    assert_eq!(key_pattern_of(""), "^\\[(.*)\\]$");
}

#[test]
fn sources_are_derived_from_matching_items() {
    let items = vec![
        item("nginx.vhost.item[https://a.com]", "10"),
        item("other.item[https://x.com]", "10"),
        item("nginx.vhost.item[https://b.com]", "20"),
        item("nginx.vhost.item[https://c.com]", "30"),
        item("prefix.nginx.vhost.item[https://d.com]", "10"),
        item("nginx.vhost.item[https://e.com] tail", "10"),
        item("nginxXvhostXitem[u]", "20"),
    ];
    let hosts = vec![host("10", "web1"), host("20", "web2"), host("20", "shadow")];
    let sources = url_sources_from_items("nginx.vhost.item", &items, &hosts).unwrap();
    assert_eq!(
        pairs(&sources),
        expect(&[("web1", "https://a.com"), ("web2", "https://b.com"), ("web2", "u")])
    );
}

#[test]
fn url_is_the_bracketed_part_not_the_key() {
    let items = vec![item("m[[nested]]", "1"), item("m[]", "1")];
    let hosts = vec![host("1", "h")];
    let sources = url_sources_from_items("m", &items, &hosts).unwrap();
    assert_eq!(pairs(&sources), expect(&[("h", "[nested]"), ("h", "")]));
}

#[test]
fn mask_that_is_no_pattern_is_an_error_even_without_items() {
    let result = url_sources_from_items("(", &vec![], &vec![]);
    assert!(matches!(result, Err(OperationError::InvalidPattern)));
    let result = url_sources_from_items("(", &vec![item("([u]", "1")], &vec![host("1", "h")]);
    assert!(matches!(result, Err(OperationError::InvalidPattern)));
}

#[test]
fn item_without_first_group_or_host_has_no_source() {
    assert!(url_source_for(None, &item("k", "1"), &vec![host("1", "h")]).is_none());
    assert!(url_source_for(Some("u".to_string()), &item("k", "2"), &vec![host("1", "h")]).is_none());
    let source = url_source_for(Some("u".to_string()), &item("k", "1"), &vec![host("1", "h")]);
    assert_eq!(pairs(&[source.unwrap()]), expect(&[("h", "u")]));
    // a group in the mask itself is the first group
    let items = vec![item("ab[u]", "1")];
    let sources = url_sources_from_items("(a)b", &items, &vec![host("1", "h")]).unwrap();
    assert_eq!(pairs(&sources), expect(&[("h", "a")]));
    // and a source is left out where that group takes no part in the match
    let items = vec![item("b[u]", "1")];
    let sources = url_sources_from_items("(?:(a)|b)", &items, &vec![host("1", "h")]).unwrap();
    assert!(sources.is_empty());
}

#[test]
fn first_host_with_the_id_gives_the_name() {
    let hosts = vec![host("1", "a"), host("2", "b"), host("1", "c")];
    assert_eq!(find_host_name(&hosts, &"1".to_string()).unwrap(), "a");
    assert_eq!(find_host_name(&hosts, &"2".to_string()).unwrap(), "b");
    assert!(find_host_name(&hosts, &"3".to_string()).is_none());
    assert!(find_host_name(&vec![], &"1".to_string()).is_none());
}

#[test]
fn host_ids_are_collected_in_item_order() {
    let items = vec![item("a", "2"), item("b", "1"), item("c", "2")];
    assert_eq!(collect_host_ids(&items), vec!["2", "1", "2"]);
    assert!(collect_host_ids(&vec![]).is_empty());
}

struct DiscoveryServer {
    items: Vec<(String, String)>,
    hosts: Vec<(String, String)>,
    calls: RefCell<Vec<String>>,
    fail_login: bool,
}

impl ZabbixService for DiscoveryServer {
    fn get_session(&self, username: &str, password: &str) -> Result<String, ApiError> {
        self.calls.borrow_mut().push(format!("login {} {}", username, password));
        if self.fail_login {
            return Err(ApiError {
                class: FailureClass::Application,
                operation: "user.login".to_string(),
                target: username.to_string(),
                zabbix: None,
            });
        }
        Ok("token".to_string())
    }

    fn find_items(&self, auth_token: &str, key: &str) -> Result<Vec<ZabbixItem>, ApiError> {
        self.calls.borrow_mut().push(format!("items {} {}", auth_token, key));
        Ok(self.items.iter().map(|(key, host_id)| item(key, host_id)).collect())
    }

    fn find_hosts(&self, _auth_token: &str, _host_name: &str) -> Result<Vec<ZabbixHost>, ApiError> {
        Ok(vec![])
    }

    fn find_hosts_by_ids(
        &self,
        auth_token: &str,
        ids: &Vec<String>,
    ) -> Result<Vec<ZabbixHost>, ApiError> {
        self.calls.borrow_mut().push(format!("hosts {} {}", auth_token, ids.join(",")));
        Ok(self.hosts.iter().filter(|(id, _)| ids.contains(id)).map(|(id, name)| host(id, name)).collect())
    }

    fn find_triggers(&self, _: &str, _: &str) -> Result<Vec<ZabbixTrigger>, ApiError> {
        Ok(vec![])
    }

    fn find_web_scenarios(&self, _: &str, _: &str) -> Result<Vec<ZabbixWebScenario>, ApiError> {
        Ok(vec![])
    }

    fn create_item(&self, _: &str, _: &CreateItemRequest) -> Result<(), ApiError> {
        Ok(())
    }

    fn create_web_scenario(&self, _: &str, _: &CreateRequestParams) -> Result<(), ApiError> {
        Ok(())
    }

    fn create_trigger(&self, _: &str, _: &TriggerCreateRequestParams) -> Result<(), ApiError> {
        Ok(())
    }
}

fn zabbix_config() -> ZabbixConfig {
    ZabbixConfig {
        target_hostname: String::new(),
        api: ZabbixApiConfig {
            endpoint: "http://zabbix/api_jsonrpc.php".to_string(),
            username: "abcd".to_string(),
            password: "0329jg02934jg34g".to_string(),
        },
        item: ZabbixItemConfig {
            name_template: "Vhost '{}' item".to_string(),
            key_template: "vhost.item[{}]".to_string(),
            interface_id: "0".to_string(),
            delay: "5m".to_string(),
            item_type: 7,
            value_type: 0,
            tags: vec![],
        },
        trigger: ZabbixTriggerConfig {
            name: "Site '${URL}' is unavailable".to_string(),
            priority: 4,
            problem_expression: "avg(/${HOST}/web.test.fail[${URL}],#3)>=1".to_string(),
            recovery_mode: 0,
            recovery_expression: "last(/${HOST}/web.test.fail[${URL}])=0".to_string(),
            event_name: "${URL} is down".to_string(),
            url: "${URL}".to_string(),
        },
        scenario: WebScenarioConfig {
            key_starts_with: "blablabla".to_string(),
            name_template: "Check index page '${URL}'".to_string(),
            response_timeout: "15s".to_string(),
            expect_status_code: "200".to_string(),
            attempts: 3,
            update_interval: "5m".to_string(),
        },
    }
}

#[test]
fn server_provider_logs_in_searches_and_derives() {
    let server = DiscoveryServer {
        items: vec![
            ("vhost.item[https://a.com]".to_string(), "10".to_string()),
            ("vhost.item[https://b.com]".to_string(), "11".to_string()),
        ],
        hosts: vec![("10".to_string(), "web1".to_string())],
        calls: RefCell::new(vec![]),
        fail_login: false,
    };
    let provider = ZabbixUrlSourceProvider::new(&zabbix_config(), server, "vhost.item");
    assert_eq!(provider.item_key_search_mask, "vhost.item");
    assert_eq!(provider.api.username, "abcd");
    let sources = provider.get_url_sources().unwrap();
    assert_eq!(pairs(&sources), expect(&[("web1", "https://a.com")]));
    assert_eq!(
        *provider.zabbix_client.calls.borrow(),
        vec!["login abcd 0329jg02934jg34g", "items token vhost.item", "hosts token 10,11"]
    );
}

#[test]
fn server_provider_hands_a_failed_login_on() {
    let server = DiscoveryServer {
        items: vec![],
        hosts: vec![],
        calls: RefCell::new(vec![]),
        fail_login: true,
    };
    let provider = ZabbixUrlSourceProvider::new(&zabbix_config(), server, "vhost.item");
    match provider.get_url_sources() {
        Err(OperationError::Api(error)) => assert_eq!(error.operation, "user.login"),
        other => panic!("unexpected result {:?}", other),
    }
    assert_eq!(provider.zabbix_client.calls.borrow().len(), 1);
}
