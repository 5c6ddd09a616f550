//! Polling items: as the server reports them, and as they are created.

use crate::config::item::{
    copy_tags, ZabbixHostTag, ZabbixHostTagView, ZabbixItemConfig, ZabbixItemConfigView,
};
use crate::template::{fill, fill_placeholders};
use vstd::prelude::*;
use vstd::string::StringExecFns;

verus! {

/// An item on the server.
#[derive(Debug)]
pub struct ZabbixItem {
    pub name: String,
    pub key_: String,
    pub host_id: String,
}

/// `ZabbixItem` as characters.
pub struct ZabbixItemView {
    pub name: Seq<char>,
    pub key_: Seq<char>,
    pub host_id: Seq<char>,
}

impl DeepView for ZabbixItem {
    type V = ZabbixItemView;

    open spec fn deep_view(&self) -> ZabbixItemView {
        ZabbixItemView { name: self.name@, key_: self.key_@, host_id: self.host_id@ }
    }
}

/// What the server is asked to create as an item.
#[derive(Debug)]
pub struct CreateItemRequest {
    pub name: String,
    pub key_: String,
    pub host_id: String,
    pub item_type: u8,
    pub value_type: u8,
    pub interface_id: String,
    pub tags: Vec<ZabbixHostTag>,
    pub delay: String,
}

/// `CreateItemRequest` as characters.
pub struct CreateItemRequestView {
    pub name: Seq<char>,
    pub key_: Seq<char>,
    pub host_id: Seq<char>,
    pub item_type: u8,
    pub value_type: u8,
    pub interface_id: Seq<char>,
    pub tags: Seq<ZabbixHostTagView>,
    pub delay: Seq<char>,
}

impl DeepView for CreateItemRequest {
    type V = CreateItemRequestView;

    open spec fn deep_view(&self) -> CreateItemRequestView {
        CreateItemRequestView {
            name: self.name@,
            key_: self.key_@,
            host_id: self.host_id@,
            item_type: self.item_type,
            value_type: self.value_type,
            interface_id: self.interface_id@,
            tags: self.tags.deep_view(),
            delay: self.delay@,
        }
    }
}

/// The key of the item for `url`: the key template with the URL in place of
/// `{}`.
pub open spec fn item_key_view(config: ZabbixItemConfigView, url: Seq<char>) -> Seq<char> {
    fill(config.key_template, url)
}

/// The request that creates the item for `url` on the host `host_id`: key
/// and name come from the templates, the rest from the settings as they are.
pub open spec fn item_request_view(
    config: ZabbixItemConfigView,
    url: Seq<char>,
    host_id: Seq<char>,
) -> CreateItemRequestView {
    CreateItemRequestView {
        name: fill(config.name_template, url),
        key_: item_key_view(config, url),
        host_id,
        item_type: config.item_type,
        value_type: config.value_type,
        interface_id: config.interface_id,
        tags: config.tags,
        delay: config.delay,
    }
}

/// Computes the key of the item for `url`.
pub fn item_key(config: &ZabbixItemConfig, url: &str) -> (key: String)
    ensures
        key@ == item_key_view(config.deep_view(), url@),
{
    fill_placeholders(config.key_template.as_str(), url)
}

/// Builds the request that creates the item for `url` on the host `host_id`.
pub fn item_request(config: &ZabbixItemConfig, url: &str, host_id: &str) -> (request:
    CreateItemRequest)
    ensures
        request.deep_view() == item_request_view(config.deep_view(), url@, host_id@),
{
    CreateItemRequest {
        name: fill_placeholders(config.name_template.as_str(), url),
        key_: item_key(config, url),
        host_id: String::from_str(host_id),
        item_type: config.item_type,
        value_type: config.value_type,
        interface_id: config.interface_id.clone(),
        tags: copy_tags(&config.tags),
        delay: config.delay.clone(),
    }
}

} // verus!
