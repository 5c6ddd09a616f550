//! The errors that the library reports.

use crate::zabbix::ZabbixError;
use vstd::prelude::*;

verus! {

/// The three ways in which a call to the server fails.
#[derive(Clone, Copy, Debug)]
pub enum FailureClass {
    /// The request did not get through, or the server answered with a
    /// status other than success.
    Transport,
    /// An answer came that cannot be read.
    MalformedResponse,
    /// The server answered with an error of its own.
    Application,
}

/// A failed call to the server: how it failed, which method was called, and
/// for which key, name or description.
#[derive(Debug)]
pub struct ApiError {
    pub class: FailureClass,
    pub operation: String,
    pub target: String,
    /// The server's own error, where it sent one.
    pub zabbix: Option<ZabbixError>,
}

#[verifier::external_type_specification]
#[verifier::external_body]
pub struct ExIoError(std::io::Error);

/// Why an operation of the library failed.
#[derive(Debug)]
pub enum OperationError {
    /// A failure of unknown cause.
    Error,
    /// Reading the input failed; the cause is carried as it came.
    IOError(std::io::Error),
    /// The item key mask does not make a valid search pattern.
    InvalidPattern,
    /// A call to the server failed.
    Api(ApiError),
}

} // verus!
