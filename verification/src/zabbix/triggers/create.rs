//! The request that creates a trigger, and the server's answer to it.

use crate::config::trigger::{ZabbixTriggerConfig, ZabbixTriggerConfigView};
use crate::template::{process_template_string, substitute, TemplateVars};
use crate::errors::ApiError;
use crate::zabbix::{created, created_of, Delivery, ZabbixError};
use vstd::prelude::*;

verus! {

/// What the server is asked to create as a trigger. Without a recovery
/// expression the trigger has the problem expression alone.
#[derive(Debug)]
pub struct TriggerCreateRequestParams {
    pub description: String,
    pub expression: String,
    pub priority: u8,
    pub recovery_mode: u8,
    pub recovery_expression: Option<String>,
    pub url: String,
    pub event_name: String,
}

/// `TriggerCreateRequestParams` as characters.
pub struct TriggerCreateRequestParamsView {
    pub description: Seq<char>,
    pub expression: Seq<char>,
    pub priority: u8,
    pub recovery_mode: u8,
    pub recovery_expression: Option<Seq<char>>,
    pub url: Seq<char>,
    pub event_name: Seq<char>,
}

impl DeepView for TriggerCreateRequestParams {
    type V = TriggerCreateRequestParamsView;

    open spec fn deep_view(&self) -> TriggerCreateRequestParamsView {
        TriggerCreateRequestParamsView {
            description: self.description@,
            expression: self.expression@,
            priority: self.priority,
            recovery_mode: self.recovery_mode,
            recovery_expression: match self.recovery_expression {
                Some(text) => Some(text@),
                None => None,
            },
            url: self.url@,
            event_name: self.event_name@,
        }
    }
}

/// The server's answer to a request that creates a trigger: an error, or
/// nothing.
#[derive(Debug)]
pub struct CreateTriggerResponse {
    pub error: Option<ZabbixError>,
}

/// The description of the trigger for the source whose variables are
/// `vars`.
pub open spec fn trigger_description_view(
    config: ZabbixTriggerConfigView,
    vars: Map<Seq<char>, Seq<char>>,
) -> Seq<char> {
    substitute(config.name, vars)
}

/// The request that creates the trigger for the source whose variables are
/// `vars`: every text comes from its template; priority and recovery mode
/// from the settings as they are. An empty recovery template gives a
/// trigger without a recovery expression.
pub open spec fn trigger_request_view(
    config: ZabbixTriggerConfigView,
    vars: Map<Seq<char>, Seq<char>>,
) -> TriggerCreateRequestParamsView {
    TriggerCreateRequestParamsView {
        description: trigger_description_view(config, vars),
        expression: substitute(config.problem_expression, vars),
        priority: config.priority,
        recovery_mode: config.recovery_mode,
        recovery_expression: if config.recovery_expression.len() == 0 {
            None
        } else {
            Some(substitute(config.recovery_expression, vars))
        },
        url: substitute(config.url, vars),
        event_name: substitute(config.event_name, vars),
    }
}

/// Computes the description of the trigger for the source whose variables
/// are `vars`.
pub fn trigger_description(config: &ZabbixTriggerConfig, vars: &TemplateVars) -> (description:
    String)
    ensures
        description@ == trigger_description_view(config.deep_view(), vars@),
{
    process_template_string(config.name.as_str(), vars)
}

/// Builds the request that creates the trigger for the source whose
/// variables are `vars`.
pub fn trigger_request(config: &ZabbixTriggerConfig, vars: &TemplateVars) -> (request:
    TriggerCreateRequestParams)
    ensures
        request.deep_view() == trigger_request_view(config.deep_view(), vars@),
{
    let recovery_expression = if config.recovery_expression.as_str().is_empty() {
        None
    } else {
        Some(process_template_string(config.recovery_expression.as_str(), vars))
    };
    TriggerCreateRequestParams {
        description: trigger_description(config, vars),
        expression: process_template_string(config.problem_expression.as_str(), vars),
        priority: config.priority,
        recovery_mode: config.recovery_mode,
        recovery_expression,
        url: process_template_string(config.url.as_str(), vars),
        event_name: process_template_string(config.event_name.as_str(), vars),
    }
}

/// The method that creates a trigger.
pub const TRIGGER_CREATE_METHOD: &'static str = "trigger.create";

/// The delivery of an answer, with the answer taken apart.
pub open spec fn creation_delivery(delivery: Delivery<CreateTriggerResponse>) -> Delivery<
    Option<ZabbixError>,
> {
    match delivery {
        Delivery::Unreachable => Delivery::Unreachable,
        Delivery::Undecodable => Delivery::Undecodable,
        Delivery::Decoded(answer) => Delivery::Decoded(answer.error),
    }
}

/// What a request that creates a trigger comes to: done where the answer
/// holds no error; a failure of the server's own, with its error, where it
/// holds one; the failure of the delivery where no answer could be read.
pub fn trigger_created(delivery: Delivery<CreateTriggerResponse>, target: &str) -> (out: Result<
    (),
    ApiError,
>)
    ensures
        created_of(creation_delivery(delivery), TRIGGER_CREATE_METHOD@, target@, out),
{
    let parts = match delivery {
        Delivery::Unreachable => Delivery::Unreachable,
        Delivery::Undecodable => Delivery::Undecodable,
        Delivery::Decoded(answer) => Delivery::Decoded(answer.error),
    };
    created(parts, TRIGGER_CREATE_METHOD, target)
}

} // verus!
