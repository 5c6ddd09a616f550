//! What a run is to achieve: the URL sources and the settings, and the
//! lookups and creations that follow from them for each source.

use crate::config::item::{ZabbixItemConfig, ZabbixItemConfigView};
use crate::config::trigger::{ZabbixTriggerConfig, ZabbixTriggerConfigView};
use crate::config::ws::{WebScenarioConfig, WebScenarioConfigView};
use crate::reconcile::outcome::EntityKind;
use crate::source::{UrlSource, UrlSourceView};
use crate::template::{get_template_vars, template_vars_of, TemplateVars};
use crate::zabbix::items::{
    item_key, item_key_view, item_request, item_request_view, CreateItemRequest,
    CreateItemRequestView,
};
use crate::zabbix::triggers::create::{
    trigger_description, trigger_description_view, trigger_request, trigger_request_view,
    TriggerCreateRequestParams, TriggerCreateRequestParamsView,
};
use crate::zabbix::webscenarios::create::{
    scenario_name, scenario_name_view, web_scenario_request, web_scenario_request_view,
};
use crate::zabbix::webscenarios::{CreateRequestParams, CreateRequestParamsView};
use vstd::prelude::*;

verus! {

/// What the engine asks its driver to do next.
#[derive(Debug)]
pub enum Action {
    /// Look up the id of the host with this name.
    ResolveHost { host_name: String },
    /// Look up the items with this key.
    FindItem { key: String },
    /// Create this item.
    CreateItem(CreateItemRequest),
    /// Look up the web scenarios with this name.
    FindWebScenario { name: String },
    /// Create this web scenario.
    CreateWebScenario(CreateRequestParams),
    /// Look up the triggers with this description.
    FindTrigger { description: String },
    /// Create this trigger.
    CreateTrigger(TriggerCreateRequestParams),
    /// Nothing more: the run is over.
    Finish,
}

/// `Action` as characters.
pub enum ActionView {
    ResolveHost { host_name: Seq<char> },
    FindItem { key: Seq<char> },
    CreateItem(CreateItemRequestView),
    FindWebScenario { name: Seq<char> },
    CreateWebScenario(CreateRequestParamsView),
    FindTrigger { description: Seq<char> },
    CreateTrigger(TriggerCreateRequestParamsView),
    Finish,
}

impl DeepView for Action {
    type V = ActionView;

    open spec fn deep_view(&self) -> ActionView {
        match self {
            Action::ResolveHost { host_name } => ActionView::ResolveHost { host_name: host_name@ },
            Action::FindItem { key } => ActionView::FindItem { key: key@ },
            Action::CreateItem(request) => ActionView::CreateItem(request.deep_view()),
            Action::FindWebScenario { name } => ActionView::FindWebScenario { name: name@ },
            Action::CreateWebScenario(request) => ActionView::CreateWebScenario(
                request.deep_view(),
            ),
            Action::FindTrigger { description } => ActionView::FindTrigger {
                description: description@,
            },
            Action::CreateTrigger(request) => ActionView::CreateTrigger(request.deep_view()),
            Action::Finish => ActionView::Finish,
        }
    }
}

impl ActionView {
    /// The action creates something on the server.
    pub open spec fn is_creation(self) -> bool {
        self is CreateItem || self is CreateWebScenario || self is CreateTrigger
    }
}

/// The inputs of a run: the settings and the URL sources in the order in
/// which they are worked through.
pub struct Plan<'a> {
    /// Host under which everything is created; empty: each source's own.
    pub target_hostname: &'a str,
    pub item: &'a ZabbixItemConfig,
    pub scenario: &'a WebScenarioConfig,
    pub trigger: &'a ZabbixTriggerConfig,
    pub sources: &'a Vec<UrlSource>,
}

/// `Plan` as characters.
pub struct PlanView {
    pub target_hostname: Seq<char>,
    pub item: ZabbixItemConfigView,
    pub scenario: WebScenarioConfigView,
    pub trigger: ZabbixTriggerConfigView,
    pub sources: Seq<UrlSourceView>,
}

impl<'a> DeepView for Plan<'a> {
    type V = PlanView;

    open spec fn deep_view(&self) -> PlanView {
        PlanView {
            target_hostname: self.target_hostname@,
            item: self.item.deep_view(),
            scenario: self.scenario.deep_view(),
            trigger: self.trigger.deep_view(),
            sources: self.sources.deep_view(),
        }
    }
}

impl PlanView {
    /// One host is configured for all sources.
    pub open spec fn has_override(self) -> bool {
        self.target_hostname.len() > 0
    }

    /// The name of the host under which source `i` is kept: the configured
    /// one, or else the source's own.
    pub open spec fn host_name(self, i: int) -> Seq<char> {
        if self.has_override() {
            self.target_hostname
        } else {
            self.sources[i].zabbix_host
        }
    }

    /// The template variables of source `i`.
    pub open spec fn vars(self, i: int) -> Map<Seq<char>, Seq<char>> {
        template_vars_of(self.host_name(i), self.sources[i].url)
    }

    /// What an object of source `i` is looked up by: the item's key, the
    /// scenario's name, the trigger's description.
    pub open spec fn identifier(self, i: int, kind: EntityKind) -> Seq<char> {
        match kind {
            EntityKind::Item => item_key_view(self.item, self.sources[i].url),
            EntityKind::Scenario => scenario_name_view(self.scenario, self.vars(i)),
            EntityKind::Trigger => trigger_description_view(self.trigger, self.vars(i)),
        }
    }

    /// The action that looks an object of source `i` up.
    pub open spec fn lookup(self, i: int, kind: EntityKind) -> ActionView {
        match kind {
            EntityKind::Item => ActionView::FindItem { key: self.identifier(i, kind) },
            EntityKind::Scenario => ActionView::FindWebScenario { name: self.identifier(i, kind) },
            EntityKind::Trigger => ActionView::FindTrigger {
                description: self.identifier(i, kind),
            },
        }
    }

    /// The action that creates an object of source `i` on the host
    /// `host_id`.
    pub open spec fn creation(self, i: int, kind: EntityKind, host_id: Seq<char>) -> ActionView {
        match kind {
            EntityKind::Item => ActionView::CreateItem(
                item_request_view(self.item, self.sources[i].url, host_id),
            ),
            EntityKind::Scenario => ActionView::CreateWebScenario(
                web_scenario_request_view(
                    self.scenario,
                    self.vars(i),
                    self.sources[i].url,
                    host_id,
                ),
            ),
            EntityKind::Trigger => ActionView::CreateTrigger(
                trigger_request_view(self.trigger, self.vars(i)),
            ),
        }
    }

    /// The first object, in the order in which a run meets them, whose
    /// identifier comes out empty.
    pub open spec fn invalid_from(self, i: int) -> Option<(int, EntityKind)>
        decreases self.sources.len() - i,
    {
        if i < 0 || i >= self.sources.len() {
            None
        } else if self.identifier(i, EntityKind::Item).len() == 0 {
            Some((i, EntityKind::Item))
        } else if self.identifier(i, EntityKind::Scenario).len() == 0 {
            Some((i, EntityKind::Scenario))
        } else if self.identifier(i, EntityKind::Trigger).len() == 0 {
            Some((i, EntityKind::Trigger))
        } else {
            self.invalid_from(i + 1)
        }
    }

    /// The first object of the whole plan whose identifier comes out empty.
    pub open spec fn first_invalid(self) -> Option<(int, EntityKind)> {
        self.invalid_from(0)
    }
}

impl<'a> Plan<'a> {
    /// Whether one host is configured for all sources.
    pub fn has_override(&self) -> (configured: bool)
        ensures
            configured == self.deep_view().has_override(),
    {
        !self.target_hostname.is_empty()
    }

    /// The number of sources.
    pub fn len(&self) -> (n: usize)
        ensures
            n == self.deep_view().sources.len(),
    {
        self.sources.len()
    }

    /// The template variables of source `i`.
    pub fn vars(&self, i: usize) -> (vars: TemplateVars)
        requires
            i < self.deep_view().sources.len(),
        ensures
            vars@ == self.deep_view().vars(i as int),
    {
        let source = &self.sources[i];
        if self.has_override() {
            get_template_vars(self.target_hostname, source.url.as_str())
        } else {
            get_template_vars(source.zabbix_host.as_str(), source.url.as_str())
        }
    }

    /// What an object of source `i` is looked up by.
    pub fn identifier(&self, i: usize, kind: EntityKind) -> (id: String)
        requires
            i < self.deep_view().sources.len(),
        ensures
            id@ == self.deep_view().identifier(i as int, kind),
    {
        match kind {
            EntityKind::Item => item_key(self.item, self.sources[i].url.as_str()),
            EntityKind::Scenario => {
                let vars = self.vars(i);
                scenario_name(self.scenario, &vars)
            },
            EntityKind::Trigger => {
                let vars = self.vars(i);
                trigger_description(self.trigger, &vars)
            },
        }
    }

    /// The action that looks an object of source `i` up.
    pub fn lookup(&self, i: usize, kind: EntityKind) -> (action: Action)
        requires
            i < self.deep_view().sources.len(),
        ensures
            action.deep_view() == self.deep_view().lookup(i as int, kind),
    {
        let id = self.identifier(i, kind);
        match kind {
            EntityKind::Item => Action::FindItem { key: id },
            EntityKind::Scenario => Action::FindWebScenario { name: id },
            EntityKind::Trigger => Action::FindTrigger { description: id },
        }
    }

    /// The action that creates an object of source `i` on the host
    /// `host_id`.
    pub fn creation(&self, i: usize, kind: EntityKind, host_id: &str) -> (action: Action)
        requires
            i < self.deep_view().sources.len(),
        ensures
            action.deep_view() == self.deep_view().creation(i as int, kind, host_id@),
    {
        let url = self.sources[i].url.as_str();
        match kind {
            EntityKind::Item => Action::CreateItem(item_request(self.item, url, host_id)),
            EntityKind::Scenario => {
                let vars = self.vars(i);
                Action::CreateWebScenario(web_scenario_request(self.scenario, &vars, url, host_id))
            },
            EntityKind::Trigger => {
                let vars = self.vars(i);
                Action::CreateTrigger(trigger_request(self.trigger, &vars))
            },
        }
    }

    /// Finds the first object whose identifier comes out empty: such a key,
    /// name or description cannot be filed on the server.
    pub fn first_invalid(&self) -> (found: Option<(usize, EntityKind)>)
        ensures
            match found {
                Some((i, kind)) => self.deep_view().first_invalid() == Some((i as int, kind)),
                None => self.deep_view().first_invalid() is None,
            },
    {
        let mut i: usize = 0;
        while i < self.sources.len()
            invariant
                i <= self.sources.len(),
                self.deep_view().invalid_from(i as int) == self.deep_view().first_invalid(),
            decreases self.sources.len() - i,
        {
            if self.identifier(i, EntityKind::Item).as_str().is_empty() {
                return Some((i, EntityKind::Item));
            }
            if self.identifier(i, EntityKind::Scenario).as_str().is_empty() {
                return Some((i, EntityKind::Scenario));
            }
            if self.identifier(i, EntityKind::Trigger).as_str().is_empty() {
                return Some((i, EntityKind::Trigger));
            }
            i = i + 1;
        }
        None
    }
}

} // verus!
