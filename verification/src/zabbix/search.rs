//! The search for items by key.

use crate::errors::ApiError;
use crate::string_map::StringMap;
use crate::zabbix::items::ZabbixItem;
use crate::zabbix::{found, found_of, Delivery, ZabbixError, ZabbixRequest};
use vstd::prelude::*;
use vstd::string::StringExecFns;

verus! {

/// The parameters of a search for items: what to sort by and what to match.
pub struct ItemSearchParams {
    pub sortfield: String,
    pub search: StringMap,
}

/// The server's answer to a search for items.
#[derive(Debug)]
pub struct ItemSearchResponse {
    pub result: Option<Vec<ZabbixItem>>,
}

/// The method that searches for items.
pub const ITEM_GET_METHOD: &'static str = "item.get";

/// The method that creates an item.
pub const ITEM_CREATE_METHOD: &'static str = "item.create";

/// The field by which found items are sorted.
pub const ITEM_SORT_FIELD: &'static str = "name";

/// The field in which an item's key is searched.
pub const ITEM_KEY_FIELD: &'static str = "key_";

/// The delivery of an answer, with the answer taken apart.
pub open spec fn item_delivery(delivery: Delivery<ItemSearchResponse>) -> Delivery<
    (Option<Vec<ZabbixItem>>, Option<ZabbixError>),
> {
    match delivery {
        Delivery::Unreachable => Delivery::Unreachable,
        Delivery::Undecodable => Delivery::Undecodable,
        Delivery::Decoded(answer) => Delivery::Decoded((answer.result, None)),
    }
}

/// Builds the request that searches for the items whose key matches
/// `key_search_mask`, sorted by name.
pub fn item_search_request(auth_token: &str, key_search_mask: &str) -> (request: ZabbixRequest<
    ItemSearchParams,
>)
    ensures
        request.method@ == ITEM_GET_METHOD@,
        request.params.sortfield@ == ITEM_SORT_FIELD@,
        request.params.search@ == Map::<Seq<char>, Seq<char>>::empty().insert(
            ITEM_KEY_FIELD@,
            key_search_mask@,
        ),
        request.auth@ == auth_token@,
{
    let mut search = StringMap::new();
    search.insert(String::from_str(ITEM_KEY_FIELD), String::from_str(key_search_mask));
    ZabbixRequest::new(
        ITEM_GET_METHOD,
        ItemSearchParams { sortfield: String::from_str(ITEM_SORT_FIELD), search },
        auth_token,
    )
}

/// What a search for items comes to: the items that the answer holds; a
/// failure of the server's own where the answer holds none; the failure of
/// the delivery where no answer could be read.
pub fn items_found(delivery: Delivery<ItemSearchResponse>, target: &str) -> (out: Result<
    Vec<ZabbixItem>,
    ApiError,
>)
    ensures
        found_of(item_delivery(delivery), ITEM_GET_METHOD@, target@, out),
{
    let parts = match delivery {
        Delivery::Unreachable => Delivery::Unreachable,
        Delivery::Undecodable => Delivery::Undecodable,
        Delivery::Decoded(answer) => Delivery::Decoded((answer.result, None)),
    };
    found(parts, ITEM_GET_METHOD, target)
}

} // verus!
