//! Logging in: the request, which differs between versions of the server,
//! and the answer.

use crate::errors::{ApiError, FailureClass};
use crate::string_map::StringMap;
use crate::zabbix::{decoded, plain_failure, Delivery, JSONRPC, REQUEST_ID};
use vstd::prelude::*;
use vstd::string::StringExecFns;

verus! {

/// The versions of the server's API that differ in how one logs in.
#[derive(Clone, Copy, Debug)]
pub enum ZabbixApiVersion {
    V5,
    V6,
}

/// The method that logs in.
pub const AUTH_REQUEST_METHOD: &'static str = "user.login";

/// The name of the field that carries the user's name, up to version 5.
pub const USER_FIELD_V5: &'static str = "user";

/// The name of the field that carries the user's name, from version 6 on.
pub const USER_FIELD_V6: &'static str = "username";

/// The name of the field that carries the password.
pub const PASSWORD_FIELD: &'static str = "password";

/// The request that logs in. It carries no session token.
pub struct AuthRequest {
    pub jsonrpc: String,
    pub method: String,
    pub params: StringMap,
    pub id: i8,
    pub auth: Option<String>,
}

/// The server's answer to a login: the session token.
#[derive(Debug)]
pub struct AuthResponse {
    pub result: String,
}

/// The name of the field that carries the user's name in this version.
pub open spec fn user_field(api_version: ZabbixApiVersion) -> Seq<char> {
    match api_version {
        ZabbixApiVersion::V6 => USER_FIELD_V6@,
        ZabbixApiVersion::V5 => USER_FIELD_V5@,
    }
}

/// The parameters of a login: the user's name under the version's field,
/// and the password.
pub open spec fn login_params(
    api_version: ZabbixApiVersion,
    username: Seq<char>,
    password: Seq<char>,
) -> Map<Seq<char>, Seq<char>> {
    Map::<Seq<char>, Seq<char>>::empty().insert(user_field(api_version), username).insert(
        PASSWORD_FIELD@,
        password,
    )
}

/// Builds the parameters of a login.
pub fn get_params(api_version: &ZabbixApiVersion, username: &str, password: &str) -> (params:
    StringMap)
    ensures
        params@ == login_params(*api_version, username@, password@),
{
    let username_field = match api_version {
        ZabbixApiVersion::V6 => USER_FIELD_V6,
        ZabbixApiVersion::V5 => USER_FIELD_V5,
    };
    let mut params = StringMap::new();
    params.insert(String::from_str(username_field), String::from_str(username));
    params.insert(String::from_str(PASSWORD_FIELD), String::from_str(password));
    params
}

/// Builds the request that logs in.
pub fn login_request(api_version: &ZabbixApiVersion, username: &str, password: &str) -> (request:
    AuthRequest)
    ensures
        request.jsonrpc@ == JSONRPC@,
        request.method@ == AUTH_REQUEST_METHOD@,
        request.params@ == login_params(*api_version, username@, password@),
        request.id == REQUEST_ID,
        request.auth is None,
{
    AuthRequest {
        jsonrpc: String::from_str(JSONRPC),
        method: String::from_str(AUTH_REQUEST_METHOD),
        params: get_params(api_version, username, password),
        id: REQUEST_ID,
        auth: None,
    }
}

/// What a login comes to: the session token that the answer holds, or the
/// failure of the delivery where no answer could be read.
pub fn session_found(delivery: Delivery<AuthResponse>, username: &str) -> (out: Result<
    String,
    ApiError,
>)
    ensures
        match delivery {
            Delivery::Decoded(answer) => out == Ok::<String, ApiError>(answer.result),
            Delivery::Unreachable => out matches Err(error) && plain_failure(
                error,
                FailureClass::Transport,
                AUTH_REQUEST_METHOD@,
                username@,
            ),
            Delivery::Undecodable => out matches Err(error) && plain_failure(
                error,
                FailureClass::MalformedResponse,
                AUTH_REQUEST_METHOD@,
                username@,
            ),
        },
{
    match decoded(delivery, AUTH_REQUEST_METHOD, username) {
        Ok(answer) => Ok(answer.result),
        Err(error) => Err(error),
    }
}

} // verus!
