//! How the trigger of a URL source is to look.

use vstd::prelude::*;

verus! {

/// The trigger's settings. Every text setting is a template over `${HOST}`,
/// `${URL}` and `${URL_WITHOUT_PROTOCOL}`. With an empty recovery expression
/// the trigger has the problem expression alone.
#[derive(PartialEq, Clone, Debug)]
pub struct ZabbixTriggerConfig {
    pub name: String,
    pub priority: u8,
    pub problem_expression: String,
    pub recovery_mode: u8,
    pub recovery_expression: String,
    pub event_name: String,
    pub url: String,
}

/// `ZabbixTriggerConfig` as characters.
pub struct ZabbixTriggerConfigView {
    pub name: Seq<char>,
    pub priority: u8,
    pub problem_expression: Seq<char>,
    pub recovery_mode: u8,
    pub recovery_expression: Seq<char>,
    pub event_name: Seq<char>,
    pub url: Seq<char>,
}

impl DeepView for ZabbixTriggerConfig {
    type V = ZabbixTriggerConfigView;

    open spec fn deep_view(&self) -> ZabbixTriggerConfigView {
        ZabbixTriggerConfigView {
            name: self.name@,
            priority: self.priority,
            problem_expression: self.problem_expression@,
            recovery_mode: self.recovery_mode,
            recovery_expression: self.recovery_expression@,
            event_name: self.event_name@,
            url: self.url@,
        }
    }
}

} // verus!
