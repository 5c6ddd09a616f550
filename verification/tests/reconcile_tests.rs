use std::cell::RefCell;

use wszl::command::generate::items::{
    exit_code, generate_web_scenarios_and_triggers, reconcile_listed_sources,
    reconcile_url_sources, RunError,
};
use wszl::config::item::{ZabbixHostTag, ZabbixItemConfig};
use wszl::config::trigger::ZabbixTriggerConfig;
use wszl::config::ws::WebScenarioConfig;
use wszl::errors::{ApiError, FailureClass, OperationError};
use wszl::reconcile::driver::RunReport;
use wszl::reconcile::machine::Fatal;
use wszl::reconcile::outcome::{EntityKind, EntityOutcome, RunStatus, SourceOutcome};
use wszl::source::{UrlSource, UrlSourceProvider};
use wszl::zabbix::find::{entities_found, find_zabbix_objects};
use wszl::zabbix::host::find_zabbix_host_id;
use wszl::zabbix::hosts::ZabbixHost;
use wszl::zabbix::items::{CreateItemRequest, ZabbixItem};
use wszl::zabbix::service::ZabbixService;
use wszl::zabbix::triggers::create::TriggerCreateRequestParams;
use wszl::zabbix::triggers::ZabbixTrigger;
use wszl::zabbix::webscenarios::{CreateRequestParams, ZabbixWebScenario};

/// A server kept in memory: it knows hosts by name, holds what was created,
/// and records every call.
struct FakeServer {
    hosts: Vec<(String, String)>,
    items: RefCell<Vec<String>>,
    scenarios: RefCell<Vec<String>>,
    triggers: RefCell<Vec<String>>,
    calls: RefCell<Vec<String>>,
    created_items: RefCell<Vec<CreateItemRequest>>,
    created_scenarios: RefCell<Vec<CreateRequestParams>>,
    created_triggers: RefCell<Vec<TriggerCreateRequestParams>>,
    reject_login: bool,
    failing_calls: Vec<(String, FailureClass)>,
}

impl FakeServer {
    fn new(hosts: &[(&str, &str)]) -> FakeServer {
        FakeServer {
            hosts: hosts.iter().map(|(name, id)| (name.to_string(), id.to_string())).collect(),
            items: RefCell::new(vec![]),
            scenarios: RefCell::new(vec![]),
            triggers: RefCell::new(vec![]),
            calls: RefCell::new(vec![]),
            created_items: RefCell::new(vec![]),
            created_scenarios: RefCell::new(vec![]),
            created_triggers: RefCell::new(vec![]),
            reject_login: false,
            failing_calls: vec![],
        }
    }

    fn failing(mut self, call: &str, class: FailureClass) -> FakeServer {
        self.failing_calls.push((call.to_string(), class));
        self
    }

    fn record(&self, operation: &str, target: &str) -> Result<(), ApiError> {
        let call = format!("{} {}", operation, target);
        self.calls.borrow_mut().push(call.clone());
        for (failing, class) in &self.failing_calls {
            if *failing == call {
                return Err(ApiError {
                    class: *class,
                    operation: operation.to_string(),
                    target: target.to_string(),
                    zabbix: None,
                });
            }
        }
        Ok(())
    }

    fn calls(&self) -> Vec<String> {
        self.calls.borrow().clone()
    }

    fn creations(&self) -> Vec<String> {
        self.calls().into_iter().filter(|call| call.contains(".create ")).collect()
    }

    fn forget_calls(&self) {
        self.calls.borrow_mut().clear();
    }
}

impl ZabbixService for FakeServer {
    fn get_session(&self, username: &str, _password: &str) -> Result<String, ApiError> {
        self.record("user.login", username)?;
        if self.reject_login {
            return Err(ApiError {
                class: FailureClass::Application,
                operation: "user.login".to_string(),
                target: username.to_string(),
                zabbix: None,
            });
        }
        Ok("token".to_string())
    }

    fn find_items(&self, _auth_token: &str, key: &str) -> Result<Vec<ZabbixItem>, ApiError> {
        self.record("item.get", key)?;
        Ok(self
            .items
            .borrow()
            .iter()
            .filter(|held| held.as_str() == key)
            .map(|held| ZabbixItem {
                name: held.clone(),
                key_: held.clone(),
                host_id: "1".to_string(),
            })
            .collect())
    }

    fn find_hosts(&self, _auth_token: &str, host_name: &str) -> Result<Vec<ZabbixHost>, ApiError> {
        self.record("host.get", host_name)?;
        Ok(self
            .hosts
            .iter()
            .filter(|(name, _)| name == host_name)
            .map(|(name, id)| ZabbixHost { host_id: id.clone(), host: name.clone() })
            .collect())
    }

    fn find_hosts_by_ids(
        &self,
        _auth_token: &str,
        ids: &Vec<String>,
    ) -> Result<Vec<ZabbixHost>, ApiError> {
        self.record("host.get", &ids.join(","))?;
        Ok(self
            .hosts
            .iter()
            .filter(|(_, id)| ids.contains(id))
            .map(|(name, id)| ZabbixHost { host_id: id.clone(), host: name.clone() })
            .collect())
    }

    fn find_triggers(
        &self,
        _auth_token: &str,
        description: &str,
    ) -> Result<Vec<ZabbixTrigger>, ApiError> {
        self.record("trigger.get", description)?;
        Ok(self
            .triggers
            .borrow()
            .iter()
            .filter(|held| held.as_str() == description)
            .map(|held| ZabbixTrigger {
                trigger_id: "1".to_string(),
                name: held.clone(),
                expression: String::new(),
            })
            .collect())
    }

    fn find_web_scenarios(
        &self,
        _auth_token: &str,
        name: &str,
    ) -> Result<Vec<ZabbixWebScenario>, ApiError> {
        self.record("httptest.get", name)?;
        Ok(self
            .scenarios
            .borrow()
            .iter()
            .filter(|held| held.as_str() == name)
            .map(|held| ZabbixWebScenario { name: held.clone() })
            .collect())
    }

    fn create_item(&self, _auth_token: &str, request: &CreateItemRequest) -> Result<(), ApiError> {
        self.record("item.create", &request.key_)?;
        self.items.borrow_mut().push(request.key_.clone());
        self.created_items.borrow_mut().push(CreateItemRequest {
            name: request.name.clone(),
            key_: request.key_.clone(),
            host_id: request.host_id.clone(),
            item_type: request.item_type,
            value_type: request.value_type,
            interface_id: request.interface_id.clone(),
            tags: request
                .tags
                .iter()
                .map(|tag| ZabbixHostTag { tag: tag.tag.clone(), value: tag.value.clone() })
                .collect(),
            delay: request.delay.clone(),
        });
        Ok(())
    }

    fn create_web_scenario(
        &self,
        _auth_token: &str,
        request: &CreateRequestParams,
    ) -> Result<(), ApiError> {
        self.record("httptest.create", &request.name)?;
        self.scenarios.borrow_mut().push(request.name.clone());
        self.created_scenarios.borrow_mut().push(CreateRequestParams {
            name: request.name.clone(),
            host_id: request.host_id.clone(),
            steps: request
                .steps
                .iter()
                .map(|step| wszl::zabbix::webscenarios::WebScenarioStep {
                    name: step.name.clone(),
                    url: step.url.clone(),
                    status_codes: step.status_codes.clone(),
                    no: step.no,
                })
                .collect(),
            delay: request.delay.clone(),
            retries: request.retries,
        });
        Ok(())
    }

    fn create_trigger(
        &self,
        _auth_token: &str,
        request: &TriggerCreateRequestParams,
    ) -> Result<(), ApiError> {
        self.record("trigger.create", &request.description)?;
        self.triggers.borrow_mut().push(request.description.clone());
        self.created_triggers.borrow_mut().push(TriggerCreateRequestParams {
            description: request.description.clone(),
            expression: request.expression.clone(),
            priority: request.priority,
            recovery_mode: request.recovery_mode,
            recovery_expression: request.recovery_expression.clone(),
            url: request.url.clone(),
            event_name: request.event_name.clone(),
        });
        Ok(())
    }
}

struct ListProvider {
    sources: Vec<(String, String)>,
    fail: bool,
}

impl UrlSourceProvider for ListProvider {
    fn get_url_sources(&self) -> Result<Vec<UrlSource>, OperationError> {
        if self.fail {
            return Err(OperationError::Error);
        }
        Ok(sources(&self
            .sources
            .iter()
            .map(|(host, url)| (host.as_str(), url.as_str()))
            .collect::<Vec<(&str, &str)>>()))
    }
}

fn sources(pairs: &[(&str, &str)]) -> Vec<UrlSource> {
    pairs
        .iter()
        .map(|(host, url)| UrlSource { zabbix_host: host.to_string(), url: url.to_string() })
        .collect()
}

fn item_config() -> ZabbixItemConfig {
    ZabbixItemConfig {
        name_template: "Vhost '{}' item".to_string(),
        key_template: "vhost.item[{}]".to_string(),
        interface_id: "0".to_string(),
        delay: "5m".to_string(),
        item_type: 7,
        value_type: 0,
        tags: vec![ZabbixHostTag { tag: "abc".to_string(), value: "something".to_string() }],
    }
}

fn trigger_config() -> ZabbixTriggerConfig {
    ZabbixTriggerConfig {
        name: "Site '${URL}' is unavailable".to_string(),
        priority: 4,
        problem_expression: "avg(/${HOST}/web.test.fail[${URL}],#3)>=1".to_string(),
        recovery_mode: 0,
        recovery_expression: "last(/${HOST}/web.test.fail[${URL}])=0".to_string(),
        event_name: "${URL} is down".to_string(),
        url: "${URL}".to_string(),
    }
}

fn scenario_config() -> WebScenarioConfig {
    WebScenarioConfig {
        key_starts_with: "blablabla".to_string(),
        name_template: "Check index page '${URL}'".to_string(),
        response_timeout: "15s".to_string(),
        expect_status_code: "200".to_string(),
        attempts: 3,
        update_interval: "5m".to_string(),
    }
}

fn run(server: &FakeServer, list: &[(&str, &str)], target: &str) -> Result<RunReport, RunError> {
    reconcile_url_sources(
        server,
        "abcd",
        "0329jg02934jg34g",
        &sources(list),
        target,
        &scenario_config(),
        &item_config(),
        &trigger_config(),
    )
}

fn created() -> SourceOutcome {
    SourceOutcome::Processed {
        item: EntityOutcome::Created,
        scenario: EntityOutcome::Created,
        trigger: EntityOutcome::Created,
    }
}

fn present() -> SourceOutcome {
    SourceOutcome::Processed {
        item: EntityOutcome::Present,
        scenario: EntityOutcome::Present,
        trigger: EntityOutcome::Present,
    }
}

fn show(outcomes: &[SourceOutcome]) -> String {
    format!("{:?}", outcomes)
}

#[test]
fn everything_missing_is_created_in_order() {
    let server = FakeServer::new(&[("web1", "10")]);
    let report = run(&server, &[("web1", "https://a.com")], "").unwrap();

    assert_eq!(show(&report.outcomes), show(&[created()]));
    assert!(report.fatal.is_none());
    assert!(report.errors.is_empty());
    assert!(matches!(report.status(), RunStatus::Success));
    assert_eq!(report.exit_code(), 0);
    assert_eq!(
        server.calls(),
        vec![
            "user.login abcd",
            "host.get web1",
            "item.get vhost.item[https://a.com]",
            "item.create vhost.item[https://a.com]",
            "httptest.get Check index page 'https://a.com'",
            "httptest.create Check index page 'https://a.com'",
            "trigger.get Site 'https://a.com' is unavailable",
            "trigger.create Site 'https://a.com' is unavailable",
        ]
    );
}

#[test]
fn created_objects_carry_the_configured_values() {
    let server = FakeServer::new(&[("web1", "10")]);
    run(&server, &[("web1", "https://a.com")], "").unwrap();

    let items = server.created_items.borrow();
    assert_eq!(items.len(), 1);
    assert_eq!(items[0].name, "Vhost 'https://a.com' item");
    assert_eq!(items[0].key_, "vhost.item[https://a.com]");
    assert_eq!(items[0].host_id, "10");
    assert_eq!(items[0].item_type, 7);
    assert_eq!(items[0].value_type, 0);
    assert_eq!(items[0].interface_id, "0");
    assert_eq!(items[0].delay, "5m");
    assert_eq!(items[0].tags.len(), 1);
    assert_eq!(items[0].tags[0].tag, "abc");
    assert_eq!(items[0].tags[0].value, "something");

    let scenarios = server.created_scenarios.borrow();
    assert_eq!(scenarios.len(), 1);
    assert_eq!(scenarios[0].name, "Check index page 'https://a.com'");
    assert_eq!(scenarios[0].host_id, "10");
    assert_eq!(scenarios[0].delay, "5m");
    assert_eq!(scenarios[0].retries, 3);
    assert_eq!(scenarios[0].steps.len(), 1);
    assert_eq!(scenarios[0].steps[0].name, "Check index page 'https://a.com'");
    assert_eq!(scenarios[0].steps[0].url, "https://a.com");
    assert_eq!(scenarios[0].steps[0].status_codes, "200");
    assert_eq!(scenarios[0].steps[0].no, 1);

    let triggers = server.created_triggers.borrow();
    assert_eq!(triggers.len(), 1);
    assert_eq!(triggers[0].description, "Site 'https://a.com' is unavailable");
    assert_eq!(triggers[0].expression, "avg(/web1/web.test.fail[https://a.com],#3)>=1");
    assert_eq!(triggers[0].priority, 4);
    assert_eq!(triggers[0].recovery_mode, 0);
    assert_eq!(
        triggers[0].recovery_expression.as_deref(),
        Some("last(/web1/web.test.fail[https://a.com])=0")
    );
    assert_eq!(triggers[0].url, "https://a.com");
    assert_eq!(triggers[0].event_name, "https://a.com is down");
}

#[test]
fn trigger_without_recovery_template_has_one_expression() {
    let server = FakeServer::new(&[("web1", "10")]);
    let mut config = trigger_config();
    config.recovery_expression = String::new();
    reconcile_url_sources(
        &server,
        "abcd",
        "secret",
        &sources(&[("web1", "https://a.com")]),
        "",
        &scenario_config(),
        &item_config(),
        &config,
    )
    .unwrap();
    let triggers = server.created_triggers.borrow();
    assert_eq!(triggers.len(), 1);
    assert!(triggers[0].recovery_expression.is_none());
    assert_eq!(triggers[0].expression, "avg(/web1/web.test.fail[https://a.com],#3)>=1");
}

#[test]
fn second_run_creates_nothing() {
    let server = FakeServer::new(&[("web1", "10"), ("web2", "20")]);
    let list = [("web1", "https://a.com"), ("missing", "https://m.com"), ("web2", "https://b.com")];

    let first = run(&server, &list, "").unwrap();
    assert_eq!(show(&first.outcomes), show(&[created(), SourceOutcome::Skipped, created()]));
    assert_eq!(server.creations().len(), 6);

    server.forget_calls();
    let second = run(&server, &list, "").unwrap();
    assert_eq!(show(&second.outcomes), show(&[present(), SourceOutcome::Skipped, present()]));
    assert!(server.creations().is_empty());
    assert_eq!(server.items.borrow().len(), 2);
    assert_eq!(server.scenarios.borrow().len(), 2);
    assert_eq!(server.triggers.borrow().len(), 2);
}

#[test]
fn duplicate_sources_are_created_once() {
    let server = FakeServer::new(&[("web1", "10")]);
    let list = [("web1", "https://a.com"), ("web1", "https://a.com")];
    let report = run(&server, &list, "").unwrap();
    assert_eq!(show(&report.outcomes), show(&[created(), present()]));
    assert_eq!(server.creations().len(), 3);
}

#[test]
fn source_with_unknown_host_is_skipped_and_the_next_is_processed() {
    let server = FakeServer::new(&[("ok-host", "7")]);
    let report = run(&server, &[("missing-host", "u1"), ("ok-host", "u2")], "").unwrap();

    assert_eq!(show(&report.outcomes), show(&[SourceOutcome::Skipped, created()]));
    assert!(matches!(report.status(), RunStatus::Partial));
    assert!(report.fatal.is_none());
    assert!(report.errors.is_empty());
    let summary = report.summary();
    assert_eq!((summary.sources, summary.skipped, summary.failed, summary.reconciled), (2, 1, 0, 1));
    assert_eq!(
        server.calls(),
        vec![
            "user.login abcd",
            "host.get missing-host",
            "host.get ok-host",
            "item.get vhost.item[u2]",
            "item.create vhost.item[u2]",
            "httptest.get Check index page 'u2'",
            "httptest.create Check index page 'u2'",
            "trigger.get Site 'u2' is unavailable",
            "trigger.create Site 'u2' is unavailable",
        ]
    );
    assert_eq!(*server.items.borrow(), vec!["vhost.item[u2]"]);
    assert_eq!(*server.scenarios.borrow(), vec!["Check index page 'u2'"]);
    assert_eq!(*server.triggers.borrow(), vec!["Site 'u2' is unavailable"]);
    assert_eq!(server.created_items.borrow()[0].host_id, "7");
}

#[test]
fn host_with_empty_id_counts_as_unknown() {
    let server = FakeServer::new(&[("web1", "")]);
    let report = run(&server, &[("web1", "u1")], "").unwrap();
    assert_eq!(show(&report.outcomes), show(&[SourceOutcome::Skipped]));
    assert!(server.creations().is_empty());
}

#[test]
fn existing_item_is_never_created() {
    let server = FakeServer::new(&[("web1", "10")]);
    server.items.borrow_mut().push("vhost.item[https://a.com]".to_string());
    let report = run(&server, &[("web1", "https://a.com")], "").unwrap();

    assert_eq!(
        show(&report.outcomes),
        show(&[SourceOutcome::Processed {
            item: EntityOutcome::Present,
            scenario: EntityOutcome::Created,
            trigger: EntityOutcome::Created,
        }])
    );
    assert!(server.calls().iter().all(|call| !call.starts_with("item.create")));
    assert!(server.created_items.borrow().is_empty());
    assert_eq!(server.creations().len(), 2);
}

#[test]
fn existing_scenario_and_trigger_are_never_created() {
    let server = FakeServer::new(&[("web1", "10")]);
    server.scenarios.borrow_mut().push("Check index page 'https://a.com'".to_string());
    server.triggers.borrow_mut().push("Site 'https://a.com' is unavailable".to_string());
    let report = run(&server, &[("web1", "https://a.com")], "").unwrap();
    assert_eq!(
        show(&report.outcomes),
        show(&[SourceOutcome::Processed {
            item: EntityOutcome::Created,
            scenario: EntityOutcome::Present,
            trigger: EntityOutcome::Present,
        }])
    );
    assert_eq!(server.creations(), vec!["item.create vhost.item[https://a.com]"]);
}

#[test]
fn failed_scenario_creation_fails_the_run_but_not_the_other_sources() {
    let server = FakeServer::new(&[("web1", "10"), ("web2", "20"), ("web3", "30")])
        .failing("httptest.create Check index page 'https://b.com'", FailureClass::Application);
    let list = [("web1", "https://a.com"), ("web2", "https://b.com"), ("web3", "https://c.com")];
    let result = run(&server, &list, "");
    assert_eq!(exit_code(&result), 1);
    let report = result.unwrap();

    assert_eq!(
        show(&report.outcomes),
        show(&[
            created(),
            SourceOutcome::Processed {
                item: EntityOutcome::Created,
                scenario: EntityOutcome::Failed(FailureClass::Application),
                trigger: EntityOutcome::Created,
            },
            created(),
        ])
    );
    assert!(matches!(report.status(), RunStatus::Failed));
    assert!(report.status().is_failure());
    assert_eq!(report.exit_code(), 1);
    assert!(report.fatal.is_none());
    assert_eq!(report.errors.len(), 1);
    assert_eq!(report.errors[0].operation, "httptest.create");
    assert_eq!(report.errors[0].target, "Check index page 'https://b.com'");
    assert!(matches!(report.errors[0].class, FailureClass::Application));
    assert_eq!(server.items.borrow().len(), 3);
    assert_eq!(server.scenarios.borrow().len(), 2);
    assert_eq!(server.triggers.borrow().len(), 3);
}

#[test]
fn failed_item_and_trigger_creation_mark_the_source_failed() {
    let server = FakeServer::new(&[("web1", "10")])
        .failing("item.create vhost.item[u]", FailureClass::Transport)
        .failing("trigger.create Site 'u' is unavailable", FailureClass::MalformedResponse);
    let report = run(&server, &[("web1", "u")], "").unwrap();
    assert_eq!(
        show(&report.outcomes),
        show(&[SourceOutcome::Processed {
            item: EntityOutcome::Failed(FailureClass::Transport),
            scenario: EntityOutcome::Created,
            trigger: EntityOutcome::Failed(FailureClass::MalformedResponse),
        }])
    );
    assert!(matches!(report.status(), RunStatus::Failed));
    assert_eq!(report.errors.len(), 2);
}

#[test]
fn failed_lookup_ends_the_run() {
    let server = FakeServer::new(&[("web1", "10"), ("web2", "20")])
        .failing("httptest.get Check index page 'https://a.com'", FailureClass::Transport);
    let list = [("web1", "https://a.com"), ("web2", "https://b.com")];
    let result = run(&server, &list, "");
    assert_eq!(exit_code(&result), 1);
    let report = result.unwrap();

    assert!(report.outcomes.is_empty());
    assert!(matches!(report.fatal, Some(Fatal::LookupFailed(FailureClass::Transport))));
    assert!(matches!(report.status(), RunStatus::Failed));
    assert_eq!(report.errors.len(), 1);
    assert_eq!(server.calls().last().unwrap(), "httptest.get Check index page 'https://a.com'");
}

#[test]
fn failed_host_lookup_ends_the_run() {
    let server = FakeServer::new(&[("web1", "10")]).failing("host.get web1", FailureClass::Transport);
    let report = run(&server, &[("web1", "https://a.com")], "").unwrap();
    assert!(report.outcomes.is_empty());
    assert!(matches!(report.fatal, Some(Fatal::LookupFailed(FailureClass::Transport))));
    assert!(server.creations().is_empty());
}

#[test]
fn configured_host_is_looked_up_once_and_used_for_all_sources() {
    let server = FakeServer::new(&[("target", "99"), ("web1", "10")]);
    let list = [("web1", "https://a.com"), ("nowhere", "https://b.com")];
    let report = run(&server, &list, "target").unwrap();

    assert_eq!(show(&report.outcomes), show(&[created(), created()]));
    let host_lookups: Vec<String> =
        server.calls().into_iter().filter(|call| call.starts_with("host.get")).collect();
    assert_eq!(host_lookups, vec!["host.get target"]);
    assert!(server.created_items.borrow().iter().all(|item| item.host_id == "99"));
    assert!(server.created_scenarios.borrow().iter().all(|scenario| scenario.host_id == "99"));
    assert_eq!(
        server.created_triggers.borrow()[0].expression,
        "avg(/target/web.test.fail[https://a.com],#3)>=1"
    );
}

#[test]
fn unknown_configured_host_skips_every_source() {
    let server = FakeServer::new(&[("web1", "10")]);
    let list = [("web1", "https://a.com"), ("web1", "https://b.com")];
    let report = run(&server, &list, "target").unwrap();
    assert_eq!(show(&report.outcomes), show(&[SourceOutcome::Skipped, SourceOutcome::Skipped]));
    assert!(matches!(report.status(), RunStatus::Partial));
    assert_eq!(report.exit_code(), 0);
    assert_eq!(server.calls(), vec!["user.login abcd", "host.get target"]);
}

#[test]
fn no_sources_is_a_success_without_host_lookup() {
    let server = FakeServer::new(&[]);
    let report = run(&server, &[], "").unwrap();
    assert!(report.outcomes.is_empty());
    assert!(matches!(report.status(), RunStatus::Success));
    assert_eq!(server.calls(), vec!["user.login abcd"]);
}

#[test]
fn failed_login_is_fatal_and_nothing_is_looked_up() {
    let mut server = FakeServer::new(&[("web1", "10")]);
    server.reject_login = true;
    let result = run(&server, &[("web1", "https://a.com")], "");
    assert_eq!(exit_code(&result), 1);
    assert!(matches!(result, Err(RunError::AuthenticationFailed(_))));
    assert_eq!(server.calls(), vec!["user.login abcd"]);
}

#[test]
fn failed_provider_is_fatal_and_the_server_is_not_called() {
    let server = FakeServer::new(&[("web1", "10")]);
    let provider = ListProvider { sources: vec![], fail: true };
    let result = generate_web_scenarios_and_triggers(
        &server,
        "abcd",
        "secret",
        provider,
        "",
        &scenario_config(),
        &item_config(),
        &trigger_config(),
    );
    assert_eq!(exit_code(&result), 1);
    assert!(matches!(result, Err(RunError::SourcesUnavailable(OperationError::Error))));
    assert!(server.calls().is_empty());
}

#[test]
fn whole_run_lists_sources_and_reconciles_them() {
    let server = FakeServer::new(&[("web1", "10")]);
    let provider = ListProvider {
        sources: vec![("web1".to_string(), "https://a.com".to_string())],
        fail: false,
    };
    let result = generate_web_scenarios_and_triggers(
        &server,
        "abcd",
        "secret",
        provider,
        "",
        &scenario_config(),
        &item_config(),
        &trigger_config(),
    );
    assert_eq!(exit_code(&result), 0);
    assert_eq!(show(&result.unwrap().outcomes), show(&[created()]));
}

#[test]
fn template_that_gives_an_empty_identifier_is_fatal_before_login() {
    let server = FakeServer::new(&[("web1", "10")]);
    let mut scenario = scenario_config();
    scenario.name_template = "${URL}".to_string();
    let result = reconcile_url_sources(
        &server,
        "abcd",
        "secret",
        &sources(&[("web1", "https://a.com"), ("web1", "")]),
        "",
        &scenario,
        &item_config(),
        &trigger_config(),
    );
    assert_eq!(exit_code(&result), 1);
    assert!(matches!(
        result,
        Err(RunError::InvalidIdentifier { index: 1, kind: EntityKind::Scenario })
    ));
    assert!(server.calls().is_empty());
}

#[test]
fn listing_failure_is_the_result_and_a_list_is_worked_through() {
    let server = FakeServer::new(&[("web1", "10")]);
    let result = reconcile_listed_sources(
        &server,
        "abcd",
        "secret",
        Err(OperationError::InvalidPattern),
        "",
        &scenario_config(),
        &item_config(),
        &trigger_config(),
    );
    assert!(matches!(result, Err(RunError::SourcesUnavailable(OperationError::InvalidPattern))));
    assert!(server.calls().is_empty());

    let result = reconcile_listed_sources(
        &server,
        "abcd",
        "secret",
        Ok(sources(&[("web1", "https://a.com"), ("nowhere", "https://b.com")])),
        "",
        &scenario_config(),
        &item_config(),
        &trigger_config(),
    );
    assert_eq!(show(&result.unwrap().outcomes), show(&[created(), SourceOutcome::Skipped]));
    assert_eq!(server.creations().len(), 3);
}

#[test]
fn host_id_is_that_of_the_first_host_the_server_returns() {
    let server = FakeServer::new(&[("web1", "10"), ("web1", "11"), ("web2", "20")]);
    assert_eq!(find_zabbix_host_id(&server, "token", "web1").unwrap().unwrap(), "10");
    assert_eq!(find_zabbix_host_id(&server, "token", "web2").unwrap().unwrap(), "20");
    assert!(find_zabbix_host_id(&server, "token", "web3").unwrap().is_none());
    assert_eq!(server.calls(), vec!["host.get web1", "host.get web2", "host.get web3"]);

    let broken = FakeServer::new(&[("web1", "10")]).failing("host.get web1", FailureClass::Transport);
    let error = find_zabbix_host_id(&broken, "token", "web1").unwrap_err();
    assert!(matches!(error.class, FailureClass::Transport));
    assert_eq!(error.target, "web1");
}

#[test]
fn objects_are_fetched_in_order_and_hosts_by_the_ids_of_the_items() {
    let server = FakeServer::new(&[("web1", "1"), ("web2", "2")]);
    server.items.borrow_mut().push("vhost.item".to_string());
    server.scenarios.borrow_mut().push("Check".to_string());
    let entities = find_zabbix_objects(&server, "token", "vhost.item", "Check").unwrap();
    assert_eq!(entities.items.len(), 1);
    assert_eq!(entities.items[0].key_, "vhost.item");
    assert_eq!(entities.web_scenarios.len(), 1);
    assert_eq!(entities.web_scenarios[0].name, "Check");
    assert_eq!(entities.hosts.len(), 1);
    assert_eq!(entities.hosts[0].host, "web1");
    assert_eq!(server.calls(), vec!["item.get vhost.item", "httptest.get Check", "host.get 1"]);
}

#[test]
fn objects_are_not_fetched_past_the_first_failure() {
    let server = FakeServer::new(&[("web1", "1")])
        .failing("httptest.get Check", FailureClass::MalformedResponse);
    let error = find_zabbix_objects(&server, "token", "vhost.item", "Check").unwrap_err();
    assert!(matches!(error.class, FailureClass::MalformedResponse));
    assert_eq!(error.operation, "httptest.get");
    assert_eq!(server.calls(), vec!["item.get vhost.item", "httptest.get Check"]);

    let server = FakeServer::new(&[]).failing("item.get k", FailureClass::Transport);
    assert!(find_zabbix_objects(&server, "token", "k", "Check").is_err());
    assert_eq!(server.calls(), vec!["item.get k"]);
}

#[test]
fn found_lists_are_put_together_or_the_host_failure_is_handed_on() {
    let items = vec![ZabbixItem {
        name: "n".to_string(),
        key_: "k".to_string(),
        host_id: "1".to_string(),
    }];
    let scenarios = vec![ZabbixWebScenario { name: "s".to_string() }];
    let hosts = vec![ZabbixHost { host_id: "1".to_string(), host: "h".to_string() }];
    let entities = entities_found(items, scenarios, Ok(hosts)).unwrap();
    assert_eq!(entities.items[0].key_, "k");
    assert_eq!(entities.web_scenarios[0].name, "s");
    assert_eq!(entities.hosts[0].host, "h");

    let cause = ApiError {
        class: FailureClass::Application,
        operation: "host.get".to_string(),
        target: "1".to_string(),
        zabbix: None,
    };
    let error = entities_found(vec![], vec![], Err(cause)).unwrap_err();
    assert!(matches!(error.class, FailureClass::Application));
    assert_eq!(error.operation, "host.get");
}
