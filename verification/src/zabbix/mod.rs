//! The monitoring server's API: its objects, its requests and answers, and
//! what an answer means.

use crate::errors::{ApiError, FailureClass};
use vstd::prelude::*;
use vstd::string::StringExecFns;

pub mod auth;
pub mod find;
pub mod host;
pub mod hosts;
pub mod items;
pub mod search;
pub mod service;
pub mod triggers;
pub mod webscenarios;

verus! {

/// The version of the request envelope.
pub const JSONRPC: &'static str = "2.0";

/// What is said of an answer that cannot be read.
pub const UNSUPPORTED_RESPONSE_MESSAGE: &'static str = "unsupported zabbix api response";

/// What is said of a request that did not get through.
pub const ZABBIX_API_COMMUNICATION_ERROR: &'static str = "zabbix api communication error";

/// The number that every request carries as its id.
pub const REQUEST_ID: i8 = 1;

/// A request to the server: the envelope around the parameters of a method.
pub struct ZabbixRequest<P> {
    pub jsonrpc: String,
    pub method: String,
    pub params: P,
    pub auth: String,
    pub id: i8,
}

impl<P> ZabbixRequest<P> {
    /// The request that calls `method` with `params` in the session
    /// `auth_token`.
    pub fn new(method: &str, params: P, auth_token: &str) -> (request: ZabbixRequest<P>)
        ensures
            request.jsonrpc@ == JSONRPC@,
            request.method@ == method@,
            request.params == params,
            request.auth@ == auth_token@,
            request.id == REQUEST_ID,
    {
        ZabbixRequest {
            jsonrpc: String::from_str(JSONRPC),
            method: String::from_str(method),
            params,
            auth: String::from_str(auth_token),
            id: REQUEST_ID,
        }
    }
}

/// The error that the server puts into an otherwise well-formed answer.
#[derive(Debug)]
pub struct ZabbixError {
    pub code: i32,
    pub message: String,
    pub data: String,
}

/// What came back for a request.
#[derive(Debug)]
pub enum Delivery<R> {
    /// Nothing that counts: the request did not get through, or the server
    /// did not take it.
    Unreachable,
    /// An answer that cannot be read.
    Undecodable,
    /// An answer.
    Decoded(R),
}

/// The failure is of this class, names this method and target, and carries
/// no error of the server's own.
pub open spec fn plain_failure(
    error: ApiError,
    class: FailureClass,
    operation: Seq<char>,
    target: Seq<char>,
) -> bool {
    &&& error.class == class
    &&& error.operation@ == operation
    &&& error.target@ == target
    &&& error.zabbix is None
}

/// The failure is the server's own: it names this method and target and
/// carries the server's error, where it sent one.
pub open spec fn server_failure(
    error: ApiError,
    operation: Seq<char>,
    target: Seq<char>,
    zabbix: Option<ZabbixError>,
) -> bool {
    &&& error.class is Application
    &&& error.operation@ == operation
    &&& error.target@ == target
    &&& error.zabbix == zabbix
}

/// Describes a failed call.
pub fn failure(class: FailureClass, operation: &str, target: &str, zabbix: Option<ZabbixError>) -> (error:
    ApiError)
    ensures
        error.class == class,
        error.operation@ == operation@,
        error.target@ == target@,
        error.zabbix == zabbix,
{
    ApiError {
        class,
        operation: String::from_str(operation),
        target: String::from_str(target),
        zabbix,
    }
}

/// The answer that was delivered, or the failure that stands for what came
/// instead: a transport failure where nothing came that counts, a malformed
/// response where the answer cannot be read.
pub fn decoded<R>(delivery: Delivery<R>, operation: &str, target: &str) -> (out: Result<R, ApiError>)
    ensures
        match delivery {
            Delivery::Unreachable => out matches Err(error) && plain_failure(
                error,
                FailureClass::Transport,
                operation@,
                target@,
            ),
            Delivery::Undecodable => out matches Err(error) && plain_failure(
                error,
                FailureClass::MalformedResponse,
                operation@,
                target@,
            ),
            Delivery::Decoded(answer) => out == Ok::<R, ApiError>(answer),
        },
{
    match delivery {
        Delivery::Unreachable => Err(failure(FailureClass::Transport, operation, target, None)),
        Delivery::Undecodable => Err(
            failure(FailureClass::MalformedResponse, operation, target, None),
        ),
        Delivery::Decoded(answer) => Ok(answer),
    }
}

/// What the delivery of an answer comes to, where the answer holds a result
/// that may be missing: a delivery that failed is that failure; an answer
/// without result is a failure of the server's own, with the error that
/// came along; an answer with result is the result.
pub open spec fn found_of<T>(
    delivery: Delivery<(Option<T>, Option<ZabbixError>)>,
    operation: Seq<char>,
    target: Seq<char>,
    out: Result<T, ApiError>,
) -> bool {
    match delivery {
        Delivery::Unreachable => out matches Err(error) && plain_failure(
            error,
            FailureClass::Transport,
            operation,
            target,
        ),
        Delivery::Undecodable => out matches Err(error) && plain_failure(
            error,
            FailureClass::MalformedResponse,
            operation,
            target,
        ),
        Delivery::Decoded((None, zabbix)) => out matches Err(error) && server_failure(
            error,
            operation,
            target,
            zabbix,
        ),
        Delivery::Decoded((Some(result), _)) => out == Ok::<T, ApiError>(result),
    }
}

/// Reads the delivery of an answer whose result may be missing.
pub fn found<T>(
    delivery: Delivery<(Option<T>, Option<ZabbixError>)>,
    operation: &str,
    target: &str,
) -> (out: Result<T, ApiError>)
    ensures
        found_of(delivery, operation@, target@, out),
{
    match decoded(delivery, operation, target) {
        Err(error) => Err(error),
        Ok((Some(result), _)) => Ok(result),
        Ok((None, zabbix)) => Err(failure(FailureClass::Application, operation, target, zabbix)),
    }
}

/// What the delivery of an answer to a creation comes to, where the answer
/// may hold an error: a delivery that failed is that failure; an answer with
/// an error is a failure of the server's own, with that error; an answer
/// without one means that the object was created.
pub open spec fn created_of(
    delivery: Delivery<Option<ZabbixError>>,
    operation: Seq<char>,
    target: Seq<char>,
    out: Result<(), ApiError>,
) -> bool {
    match delivery {
        Delivery::Unreachable => out matches Err(error) && plain_failure(
            error,
            FailureClass::Transport,
            operation,
            target,
        ),
        Delivery::Undecodable => out matches Err(error) && plain_failure(
            error,
            FailureClass::MalformedResponse,
            operation,
            target,
        ),
        Delivery::Decoded(Some(zabbix)) => out matches Err(error) && server_failure(
            error,
            operation,
            target,
            Some(zabbix),
        ),
        Delivery::Decoded(None) => out is Ok,
    }
}

/// Reads the delivery of an answer to a creation.
pub fn created(delivery: Delivery<Option<ZabbixError>>, operation: &str, target: &str) -> (out:
    Result<(), ApiError>)
    ensures
        created_of(delivery, operation@, target@, out),
{
    match decoded(delivery, operation, target) {
        Err(error) => Err(error),
        Ok(Some(zabbix)) => Err(
            failure(FailureClass::Application, operation, target, Some(zabbix)),
        ),
        Ok(None) => Ok(()),
    }
}

/// How the line that reports an error's code begins.
pub const ERROR_LINE_HEAD: &'static str = "error ";

/// How the line that reports an error's message begins.
pub const MESSAGE_LINE_HEAD: &'static str = "- message: '";

/// How the line that reports an error's data begins.
pub const DATA_LINE_HEAD: &'static str = "- data: '";

/// How the lines that report message and data end.
pub const LINE_TAIL: &'static str = "'";

/// The three lines that report an error of the server whose code is
/// written as `code`.
pub open spec fn error_lines(code: Seq<char>, message: Seq<char>, data: Seq<char>) -> Seq<Seq<char>> {
    seq![
        ERROR_LINE_HEAD@ + code,
        MESSAGE_LINE_HEAD@ + message + LINE_TAIL@,
        DATA_LINE_HEAD@ + data + LINE_TAIL@,
    ]
}

/// The lines that report an error of the server: its code, as `to_string`
/// writes it, its message and its data. No lines where there is no error.
pub fn log_zabbix_error(zabbix_error: &Option<ZabbixError>) -> (lines: Vec<String>)
    ensures
        match zabbix_error {
            Some(error) => exists|code: String|
                vstd::string::to_string_from_display_ensures::<i32>(&error.code, code)
                    && lines.deep_view() == #[trigger] error_lines(
                    code@,
                    error.message@,
                    error.data@,
                ),
            None => lines.deep_view() == Seq::<Seq<char>>::empty(),
        },
{
    let mut lines: Vec<String> = Vec::new();
    match zabbix_error {
        Some(error) => {
            let code = error.code.to_string();
            let mut first = String::from_str(ERROR_LINE_HEAD);
            first.append(code.as_str());
            lines.push(first);
            let mut second = String::from_str(MESSAGE_LINE_HEAD);
            second.append(error.message.as_str());
            second.append(LINE_TAIL);
            lines.push(second);
            let mut third = String::from_str(DATA_LINE_HEAD);
            third.append(error.data.as_str());
            third.append(LINE_TAIL);
            lines.push(third);
            assert(lines.deep_view() =~= error_lines(code@, error.message@, error.data@));
        },
        None => {
            assert(lines.deep_view() =~= Seq::<Seq<char>>::empty());
        },
    }
    lines
}

} // verus!
