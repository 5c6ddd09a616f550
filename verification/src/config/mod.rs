//! The configuration that a run is given: where the server is, and how the
//! item, the web scenario and the trigger of a URL source are to look.

use crate::config::item::{ZabbixItemConfig, ZabbixItemConfigView};
use crate::config::trigger::{ZabbixTriggerConfig, ZabbixTriggerConfigView};
use crate::config::ws::{WebScenarioConfig, WebScenarioConfigView};
use vstd::prelude::*;

pub mod item;
pub mod trigger;
pub mod ws;

verus! {

/// The whole configuration.
#[derive(PartialEq, Clone, Debug)]
pub struct AppConfig {
    pub zabbix: ZabbixConfig,
}

/// The monitoring server and the objects to keep on it.
#[derive(PartialEq, Clone, Debug)]
pub struct ZabbixConfig {
    /// Host under which every web scenario and trigger is created. Empty:
    /// each URL source's own host.
    pub target_hostname: String,
    pub api: ZabbixApiConfig,
    pub item: ZabbixItemConfig,
    pub trigger: ZabbixTriggerConfig,
    pub scenario: WebScenarioConfig,
}

/// Where the server's API is, and who logs in.
#[derive(PartialEq, Clone, Debug)]
pub struct ZabbixApiConfig {
    pub endpoint: String,
    pub username: String,
    pub password: String,
}

/// `ZabbixApiConfig` as characters.
pub struct ZabbixApiConfigView {
    pub endpoint: Seq<char>,
    pub username: Seq<char>,
    pub password: Seq<char>,
}

impl DeepView for ZabbixApiConfig {
    type V = ZabbixApiConfigView;

    open spec fn deep_view(&self) -> ZabbixApiConfigView {
        ZabbixApiConfigView {
            endpoint: self.endpoint@,
            username: self.username@,
            password: self.password@,
        }
    }
}

impl ZabbixApiConfig {
    /// A copy of these settings.
    pub fn duplicate(&self) -> (copy: ZabbixApiConfig)
        ensures
            copy.deep_view() == self.deep_view(),
    {
        ZabbixApiConfig {
            endpoint: self.endpoint.clone(),
            username: self.username.clone(),
            password: self.password.clone(),
        }
    }
}

/// `ZabbixConfig` as characters.
pub struct ZabbixConfigView {
    pub target_hostname: Seq<char>,
    pub api: ZabbixApiConfigView,
    pub item: ZabbixItemConfigView,
    pub trigger: ZabbixTriggerConfigView,
    pub scenario: WebScenarioConfigView,
}

impl DeepView for ZabbixConfig {
    type V = ZabbixConfigView;

    open spec fn deep_view(&self) -> ZabbixConfigView {
        ZabbixConfigView {
            target_hostname: self.target_hostname@,
            api: self.api.deep_view(),
            item: self.item.deep_view(),
            trigger: self.trigger.deep_view(),
            scenario: self.scenario.deep_view(),
        }
    }
}

/// `AppConfig` as characters.
pub struct AppConfigView {
    pub zabbix: ZabbixConfigView,
}

impl DeepView for AppConfig {
    type V = AppConfigView;

    open spec fn deep_view(&self) -> AppConfigView {
        AppConfigView { zabbix: self.zabbix.deep_view() }
    }
}

/// The value of a text setting that the configuration leaves out.
pub fn get_empty_string_value() -> (value: String)
    ensures
        value@ == Seq::<char>::empty(),
{
    String::new()
}

} // verus!
