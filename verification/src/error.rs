//! Error kinds surfaced by the correlation core.
//!
//! Exactly three kinds reach a caller: the completion channel was closed
//! before a value arrived, the delivered generic value did not decode into
//! the expected response type, or the remote service reported a
//! request-specific (domain) error. Nothing is retried or reinterpreted
//! inside the core.

use vstd::prelude::*;

verus! {

/// Why a generic value failed to decode into the expected typed form.
#[derive(Debug, Clone, Copy, PartialEq, Eq)]
pub enum DecodeError {
    /// The value's shape does not match the expected response type.
    UnexpectedShape,
}

/// A domain error as it arrives from the transport layer, still in the
/// protocol's generic representation: a numeric code with a message.
#[derive(Debug, PartialEq, Eq)]
pub struct ErrorData {
    /// Protocol error code.
    pub code: i32,
    /// Human-readable description sent by the remote service.
    pub message: String,
}

/// The completion value's error side: what a transport layer may deliver
/// through the completion channel, or what arises while completing it.
///
/// One concrete type serves every request kind, so that the transport layer
/// can keep all pending completion producers in a single registry.
#[derive(Debug, PartialEq, Eq)]
pub enum ClientError {
    /// The producer half was dropped before resolving.
    ChannelClosed,
    /// A payload failed to decode.
    Deserialization(DecodeError),
    /// The remote service answered the request with an error.
    Response(ErrorData),
}

/// The typed error a response future yields, generic over the request kind's
/// own domain error type `E`.
#[derive(Debug, PartialEq, Eq)]
pub enum Error<E> {
    /// The completion producer was dropped without resolving: the transport
    /// layer failed or abandoned the request before completion.
    ChannelClosed,
    /// The resolved generic value did not match the expected response type,
    /// with the underlying cause.
    Deserialization(DecodeError),
    /// A request-specific failure reported by the remote service, passed
    /// through in the request kind's own error type.
    Response(E),
}

} // verus!
