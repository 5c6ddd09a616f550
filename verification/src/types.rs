//! Shorthands for the results of the library's operations.

use crate::errors::OperationError;
use vstd::prelude::*;

verus! {

/// The result of an operation that returns something.
pub type OperationResult<R> = Result<R, OperationError>;

/// The result of an operation that may find nothing.
pub type OptionalResult<R> = Result<Option<R>, OperationError>;

/// The result of an operation that returns nothing.
pub type EmptyResult = Result<(), OperationError>;

} // verus!
