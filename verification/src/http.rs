//! What the library asks of the transport: how a request is labelled, and
//! which answers count.

use vstd::prelude::*;

verus! {

/// The name of the header that says what the body holds.
pub const CONTENT_TYPE_HEADER: &'static str = "Content-Type";

/// The value of that header for every request.
pub const CONTENT_TYPE_JSON: &'static str = "application/json";

/// The one status with which the server answers a request that it took.
pub const STATUS_OK: u16 = 200;

/// The status is one of the success class.
pub open spec fn is_success_class(status: u16) -> bool {
    200 <= status < 300
}

/// The body of an answer counts: the server answered with `STATUS_OK`.
pub open spec fn status_accepted(status: u16) -> bool {
    status == STATUS_OK
}

/// Every status outside the success class is turned down, whatever the body
/// holds.
pub proof fn lemma_non_success_is_rejected(status: u16)
    requires
        !is_success_class(status),
    ensures
        !status_accepted(status),
{
}

/// The text of an answer, where its status says that the server took the
/// request; nothing for every other status, whatever the text holds.
pub fn accept_response(status: u16, response_text: String) -> (body: Option<String>)
    ensures
        body == if status_accepted(status) {
            Some(response_text)
        } else {
            None::<String>
        },
{
    if status == STATUS_OK {
        Some(response_text)
    } else {
        None
    }
}

} // verus!
