//! Two ready-made request kinds.
//!
//! They ground the [`ServiceRequest`] contract in the crate itself: `Ping`
//! is the smallest possible request (no parameters, an empty response), and
//! `Echo` carries a payload both ways. Both report remote failures as a
//! [`RemoteError`] classified by the protocol error code.

use crate::error::{DecodeError, ErrorData};
use crate::service::ServiceRequest;
use crate::value::GenericValue;
use vstd::prelude::*;

verus! {

/// The protocol error code that signals a timed-out request.
pub const CODE_TIMEOUT: i32 = -32000;

/// A request-specific failure reported by the remote service.
#[derive(Debug, Clone, Copy, PartialEq, Eq)]
pub enum RemoteError {
    /// The remote service timed the request out.
    Timeout,
    /// Any other remote failure, by protocol error code.
    Other(i32),
}

/// How a generic domain error classifies into a [`RemoteError`].
pub open spec fn remote_error_spec(data: ErrorData) -> RemoteError {
    if data.code == CODE_TIMEOUT {
        RemoteError::Timeout
    } else {
        RemoteError::Other(data.code)
    }
}

/// Classify a generic domain error by its protocol error code.
pub fn classify_remote_error(data: ErrorData) -> (r: RemoteError)
    ensures
        r == remote_error_spec(data),
{
    if data.code == CODE_TIMEOUT {
        RemoteError::Timeout
    } else {
        RemoteError::Other(data.code)
    }
}

/// A keep-alive request with no parameters.
#[derive(Debug, Clone, Copy, PartialEq, Eq)]
pub struct Ping;

/// The empty response to a [`Ping`]: the remote answers with no payload,
/// carried as the unit value or an object with no fields.
#[derive(Debug, Clone, Copy, PartialEq, Eq)]
pub struct Pong;

impl ServiceRequest for Ping {
    type Response = Pong;

    type Error = RemoteError;

    open spec fn params_spec(self) -> GenericValue {
        GenericValue::Null
    }

    open spec fn response_spec(value: GenericValue) -> Result<Pong, DecodeError> {
        match value {
            GenericValue::Null => Ok(Pong),
            GenericValue::Object(fields) => if fields@.len() == 0 {
                Ok(Pong)
            } else {
                Err(DecodeError::UnexpectedShape)
            },
            _ => Err(DecodeError::UnexpectedShape),
        }
    }

    open spec fn error_spec(data: ErrorData) -> RemoteError {
        remote_error_spec(data)
    }

    fn into_params(self) -> (params: GenericValue) {
        GenericValue::Null
    }

    fn decode_response(value: GenericValue) -> (r: Result<Pong, DecodeError>) {
        match value {
            GenericValue::Null => Ok(Pong),
            GenericValue::Object(fields) => if fields.len() == 0 {
                Ok(Pong)
            } else {
                Err(DecodeError::UnexpectedShape)
            },
            _ => Err(DecodeError::UnexpectedShape),
        }
    }

    fn decode_error(data: ErrorData) -> (r: RemoteError) {
        classify_remote_error(data)
    }
}

/// A request that asks the remote service to send a text payload back.
#[derive(Debug, PartialEq, Eq)]
pub struct Echo {
    /// The text to send.
    pub text: String,
}

/// The text a remote service answered an [`Echo`] with.
#[derive(Debug, PartialEq, Eq)]
pub struct EchoResponse {
    /// The echoed text.
    pub text: String,
}

impl ServiceRequest for Echo {
    type Response = EchoResponse;

    type Error = RemoteError;

    open spec fn params_spec(self) -> GenericValue {
        GenericValue::Text(self.text)
    }

    open spec fn response_spec(value: GenericValue) -> Result<EchoResponse, DecodeError> {
        match value {
            GenericValue::Text(text) => Ok(EchoResponse { text }),
            _ => Err(DecodeError::UnexpectedShape),
        }
    }

    open spec fn error_spec(data: ErrorData) -> RemoteError {
        remote_error_spec(data)
    }

    fn into_params(self) -> (params: GenericValue) {
        GenericValue::Text(self.text)
    }

    fn decode_response(value: GenericValue) -> (r: Result<EchoResponse, DecodeError>) {
        match value {
            GenericValue::Text(text) => Ok(EchoResponse { text }),
            _ => Err(DecodeError::UnexpectedShape),
        }
    }

    fn decode_error(data: ErrorData) -> (r: RemoteError) {
        classify_remote_error(data)
    }
}

} // verus!
