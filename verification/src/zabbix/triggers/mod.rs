//! Triggers: as the server reports them, and as they are created.

use vstd::prelude::*;

pub mod create;
pub mod find;

verus! {

/// A trigger on the server.
#[derive(Clone, Debug)]
pub struct ZabbixTrigger {
    pub trigger_id: String,
    pub name: String,
    pub expression: String,
}

/// `ZabbixTrigger` as characters.
pub struct ZabbixTriggerView {
    pub trigger_id: Seq<char>,
    pub name: Seq<char>,
    pub expression: Seq<char>,
}

impl DeepView for ZabbixTrigger {
    type V = ZabbixTriggerView;

    open spec fn deep_view(&self) -> ZabbixTriggerView {
        ZabbixTriggerView {
            trigger_id: self.trigger_id@,
            name: self.name@,
            expression: self.expression@,
        }
    }
}

} // verus!
