//! The guarantees of the correlation core, stated and proved once, for every
//! request kind.
//!
//! Each law is a public proof function over the outcome specifications of
//! [`crate::outbound`]; the executable paths are pinned to those same
//! specifications by their own contracts.

use crate::channel::ChannelEvent;
use crate::error::{ClientError, DecodeError, Error, ErrorData};
use crate::outbound::{empty_outcome, response_outcome};
use crate::service::ServiceRequest;
use crate::value::GenericValue;
use vstd::prelude::*;

verus! {

/// Every channel event determines exactly one terminal outcome: a typed
/// success, a channel-closed error, a decode failure, or a domain error.
/// The decision is total, so once the channel is resolved (or closed) the
/// future always yields something, and a `Result` holds exactly one of its
/// sides, so the outcomes exclude one another.
pub proof fn lemma_one_terminal_outcome<T: ServiceRequest>(event: ChannelEvent)
    ensures
        response_outcome::<T>(event) matches Ok(_) || response_outcome::<T>(event) matches Err(
            Error::ChannelClosed,
        ) || response_outcome::<T>(event) matches Err(Error::Deserialization(_))
            || response_outcome::<T>(event) matches Err(Error::Response(_)),
{
}

/// Round-trip: when the transport delivers a generic value that correctly
/// encodes a response — one the request kind's decoding maps back to that
/// response — the future yields exactly that response, losslessly.
pub proof fn lemma_round_trip<T: ServiceRequest>(value: GenericValue, response: T::Response)
    requires
        T::response_spec(value) == Ok::<T::Response, DecodeError>(response),
    ensures
        response_outcome::<T>(ChannelEvent::Delivered(Ok(value))) == Ok::<
            T::Response,
            Error<T::Error>,
        >(response),
{
}

/// A producer dropped without resolving yields the channel-closed error.
pub proof fn lemma_closed_yields_channel_closed<T: ServiceRequest>()
    ensures
        response_outcome::<T>(ChannelEvent::Closed) == Err::<T::Response, Error<T::Error>>(
            Error::ChannelClosed,
        ),
{
}

/// A delivered value that does not decode into the expected response type
/// yields a deserialization error carrying the underlying cause.
pub proof fn lemma_decode_failure<T: ServiceRequest>(value: GenericValue, cause: DecodeError)
    requires
        T::response_spec(value) == Err::<T::Response, DecodeError>(cause),
    ensures
        response_outcome::<T>(ChannelEvent::Delivered(Ok(value))) == Err::<
            T::Response,
            Error<T::Error>,
        >(Error::Deserialization(cause)),
{
}

/// A delivered domain error passes through unmodified: the future yields it
/// converted into the request kind's own error type and nothing else.
pub proof fn lemma_domain_error_passes_through<T: ServiceRequest>(data: ErrorData)
    ensures
        response_outcome::<T>(ChannelEvent::Delivered(Err(ClientError::Response(data)))) == Err::<
            T::Response,
            Error<T::Error>,
        >(Error::Response(T::error_spec(data))),
{
}

/// The empty adapter is a pure projection: where the wrapped future would
/// yield a success it yields unit, and every error it would yield passes
/// through unchanged.
pub proof fn lemma_empty_is_projection<T: ServiceRequest>(event: ChannelEvent)
    ensures
        response_outcome::<T>(event) matches Ok(_) ==> empty_outcome::<T>(event) == Ok::<
            (),
            Error<T::Error>,
        >(()),
        response_outcome::<T>(event) matches Err(e) ==> empty_outcome::<T>(event) == Err::<
            (),
            Error<T::Error>,
        >(e),
{
}

} // verus!
