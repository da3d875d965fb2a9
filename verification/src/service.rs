//! The contract a request kind must satisfy to travel through the core.

use crate::error::{DecodeError, ErrorData};
use crate::value::GenericValue;
use vstd::prelude::*;

verus! {

/// A typed RPC request kind.
///
/// A request kind declares the type of a successful response, the type of
/// its domain errors, and three conversions: its own parameters into the
/// protocol's generic representation, a delivered generic value into the
/// typed response, and a delivered generic domain error into the typed one.
///
/// Each conversion is pinned to a specification function, so that the
/// outcome of a response future is fully determined by what the transport
/// layer delivered.
pub trait ServiceRequest: Sized {
    /// The type of a successful response.
    type Response;

    /// The type representing a request-specific failure.
    type Error;

    /// What `into_params` produces for this request.
    spec fn params_spec(self) -> GenericValue;

    /// How a delivered generic value decodes into the typed response.
    spec fn response_spec(value: GenericValue) -> Result<Self::Response, DecodeError>;

    /// How a delivered generic domain error converts into the typed one.
    spec fn error_spec(data: ErrorData) -> Self::Error;

    /// Convert the request's parameters into the generic representation.
    fn into_params(self) -> (params: GenericValue)
        ensures
            params == self.params_spec(),
    ;

    /// Decode a delivered generic value into the typed response, reporting
    /// the cause when the value's shape does not match.
    fn decode_response(value: GenericValue) -> (r: Result<Self::Response, DecodeError>)
        ensures
            r == Self::response_spec(value),
    ;

    /// Convert a delivered generic domain error into the typed one. The
    /// conversion is total: every request kind classifies every remote
    /// error, so a domain error always passes through.
    fn decode_error(data: ErrorData) -> (r: Self::Error)
        ensures
            r == Self::error_spec(data),
    ;
}

} // verus!
