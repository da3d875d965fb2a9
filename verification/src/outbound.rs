//! The outbound request envelope, the typed response futures, and the
//! factory that creates a correlated envelope/future pair.

use crate::channel::{completion_channel, probe_completion, send_completion, ChannelEvent};
use crate::error::{ClientError, Error};
use crate::service::ServiceRequest;
use crate::value::GenericValue;
use core::marker::PhantomData;
use tokio::sync::oneshot;
use vstd::prelude::*;

verus! {

/// The typed outcome a response future yields for a given channel event:
/// a closed channel reports `ChannelClosed`; a delivered client error passes
/// through; a delivered domain error converts into the request kind's error
/// type; a delivered value decodes into the typed response or fails with
/// `Deserialization` and the cause.
pub open spec fn response_outcome<T: ServiceRequest>(
    event: ChannelEvent,
) -> Result<T::Response, Error<T::Error>> {
    match event {
        ChannelEvent::Closed => Err(Error::ChannelClosed),
        ChannelEvent::Delivered(completion) => match completion {
            Ok(value) => match T::response_spec(value) {
                Ok(response) => Ok(response),
                Err(cause) => Err(Error::Deserialization(cause)),
            },
            Err(ClientError::ChannelClosed) => Err(Error::ChannelClosed),
            Err(ClientError::Deserialization(cause)) => Err(Error::Deserialization(cause)),
            Err(ClientError::Response(data)) => Err(Error::Response(T::error_spec(data))),
        },
    }
}

/// The outcome an empty response future yields: the same as
/// [`response_outcome`], with the payload of a success discarded.
pub open spec fn empty_outcome<T: ServiceRequest>(event: ChannelEvent) -> Result<
    (),
    Error<T::Error>,
> {
    match response_outcome::<T>(event) {
        Ok(_) => Ok(()),
        Err(e) => Err(e),
    }
}

/// The exclusively-owned producer half of a completion channel. Resolving
/// consumes it, so a request is completed at most once; dropping it without
/// resolving signals `Closed` to the paired future.
pub struct CompletionProducer {
    tx: oneshot::Sender<Result<GenericValue, ClientError>>,
}

impl CompletionProducer {
    /// Deliver the completion value to the paired response future. If that
    /// future was already dropped (the caller cancelled the request), the
    /// value is silently discarded.
    pub fn resolve(self, result: Result<GenericValue, ClientError>) {
        send_completion(self.tx, result);
    }
}

/// An outbound request envelope created by [`create_request`]: the request's
/// parameters in the protocol's generic representation, paired with the
/// producer half of the completion channel its response future waits on.
pub struct OutboundRequest {
    params: GenericValue,
    tx: CompletionProducer,
}

impl OutboundRequest {
    /// The parameters this envelope carries.
    pub closed spec fn spec_params(&self) -> GenericValue {
        self.params
    }

    /// The completion producer this envelope carries: the one it was created
    /// with, until the envelope is split or resolved.
    pub closed spec fn spec_producer(&self) -> CompletionProducer {
        self.tx
    }

    pub(crate) fn new(params: GenericValue, tx: CompletionProducer) -> (r: Self)
        ensures
            r.spec_params() == params,
            r.spec_producer() == tx,
    {
        OutboundRequest { params, tx }
    }

    /// Borrow the parameters, for the transport layer to serialize and send.
    pub fn params(&self) -> (p: &GenericValue)
        ensures
            *p == self.spec_params(),
    {
        &self.params
    }

    /// Split the envelope into its parameters and its completion producer,
    /// for a transport layer that sends the former and keeps the latter in a
    /// registry until the matching inbound message arrives.
    pub fn into_parts(self) -> (r: (GenericValue, CompletionProducer))
        ensures
            r.0 == self.spec_params(),
            r.1 == self.spec_producer(),
    {
        let OutboundRequest { params, tx } = self;
        (params, tx)
    }

    /// Resolve the envelope's completion channel in place, without splitting
    /// it first.
    pub fn resolve(self, result: Result<GenericValue, ClientError>) {
        self.tx.resolve(result);
    }
}

/// Future that resolves with the typed RPC response for the request it was
/// created with. It wraps the consumer half of the completion channel; the
/// expected response type is recovered from the request kind `T` only at
/// the decoding step.
#[must_use]
pub struct ResponseFuture<T> {
    rx: oneshot::Receiver<Result<GenericValue, ClientError>>,
    completed: Ghost<bool>,
    _marker: PhantomData<T>,
}

impl<T: ServiceRequest> ResponseFuture<T> {
    /// Whether the future has already yielded its result. A completed
    /// future is terminal: it cannot be polled again.
    pub closed spec fn is_complete(&self) -> bool {
        self.completed@
    }

    /// The consumer half this future waits on: the one it was created with,
    /// until the future is polled or surrendered.
    pub closed spec fn spec_receiver(&self) -> oneshot::Receiver<
        Result<GenericValue, ClientError>,
    > {
        self.rx
    }

    pub(crate) fn new(rx: oneshot::Receiver<Result<GenericValue, ClientError>>) -> (r: Self)
        ensures
            !r.is_complete(),
            r.spec_receiver() == rx,
    {
        ResponseFuture { rx, completed: Ghost(false), _marker: PhantomData }
    }

    /// Decide the typed result for what the completion channel reported.
    /// This is the whole decoding step of a poll, split from the waiting so
    /// that an executor integration can perform the wait itself.
    pub fn complete(event: ChannelEvent) -> (r: Result<T::Response, Error<T::Error>>)
        ensures
            r == response_outcome::<T>(event),
    {
        match event {
            ChannelEvent::Closed => Err(Error::ChannelClosed),
            ChannelEvent::Delivered(completion) => match completion {
                Ok(value) => match T::decode_response(value) {
                    Ok(response) => Ok(response),
                    Err(cause) => Err(Error::Deserialization(cause)),
                },
                Err(ClientError::ChannelClosed) => Err(Error::ChannelClosed),
                Err(ClientError::Deserialization(cause)) => Err(Error::Deserialization(cause)),
                Err(ClientError::Response(data)) => Err(Error::Response(T::decode_error(data))),
            },
        }
    }

    /// One poll step. While the channel is unresolved this returns `None`
    /// and the future stays pending; once the producer has resolved or been
    /// dropped it returns the typed result, exactly once — after that the
    /// future is complete and must not be polled again.
    pub fn try_complete(&mut self) -> (r: Option<Result<T::Response, Error<T::Error>>>)
        requires
            !old(self).is_complete(),
        ensures
            final(self).is_complete() <==> r is Some,
            r matches Some(outcome) ==> exists|event: ChannelEvent|
                outcome == #[trigger] response_outcome::<T>(event),
    {
        match probe_completion(&mut self.rx) {
            None => None,
            Some(event) => {
                self.completed = Ghost(true);
                let outcome = Self::complete(event);
                Some(outcome)
            },
        }
    }

    /// Surrender the consumer half of the completion channel, for an
    /// executor integration that waits on the channel directly and then
    /// hands the observed event to [`ResponseFuture::complete`].
    pub fn into_receiver(self) -> (r: oneshot::Receiver<Result<GenericValue, ClientError>>)
        ensures
            r == self.spec_receiver(),
    {
        let ResponseFuture { rx, completed: _, _marker } = self;
        rx
    }
}

/// Future that resolves with the RPC response for the request it was created
/// with, discards the decoded payload, and yields unit. A pure projection of
/// [`ResponseFuture`], for request kinds whose response carries no meaning.
#[must_use]
pub struct EmptyResponseFuture<T> {
    rx: ResponseFuture<T>,
}

impl<T: ServiceRequest> EmptyResponseFuture<T> {
    /// Whether the wrapped future has already yielded its result.
    pub closed spec fn is_complete(&self) -> bool {
        self.rx.is_complete()
    }

    /// The response future this adapter wraps: the one it was created with,
    /// until the adapter is polled or unwrapped.
    pub closed spec fn spec_inner(&self) -> ResponseFuture<T> {
        self.rx
    }

    /// Wrap a response future, hiding its payload.
    pub fn new(rx: ResponseFuture<T>) -> (r: Self)
        ensures
            r.is_complete() == rx.is_complete(),
            r.spec_inner() == rx,
    {
        EmptyResponseFuture { rx }
    }

    /// Decide the unit result for what the completion channel reported:
    /// a success is collapsed to unit, every error passes through unchanged.
    pub fn complete(event: ChannelEvent) -> (r: Result<(), Error<T::Error>>)
        ensures
            r == empty_outcome::<T>(event),
    {
        match ResponseFuture::<T>::complete(event) {
            Ok(_) => Ok(()),
            Err(e) => Err(e),
        }
    }

    /// One poll step, delegating entirely to the wrapped future.
    pub fn try_complete(&mut self) -> (r: Option<Result<(), Error<T::Error>>>)
        requires
            !old(self).is_complete(),
        ensures
            final(self).is_complete() <==> r is Some,
            r matches Some(outcome) ==> exists|event: ChannelEvent|
                outcome == #[trigger] empty_outcome::<T>(event),
    {
        match self.rx.try_complete() {
            None => None,
            Some(outcome) => {
                proof {
                    let event = choose|event: ChannelEvent|
                        outcome == #[trigger] response_outcome::<T>(event);
                    assert(empty_outcome::<T>(event) == match outcome {
                        Ok(_) => Ok::<(), Error<T::Error>>(()),
                        Err(e) => Err::<(), Error<T::Error>>(e),
                    });
                }
                match outcome {
                    Ok(_) => Some(Ok(())),
                    Err(e) => Some(Err(e)),
                }
            },
        }
    }

    /// Surrender the wrapped response future.
    pub fn into_inner(self) -> (r: ResponseFuture<T>)
        ensures
            r == self.spec_inner(),
            r.is_complete() == self.is_complete(),
    {
        self.rx
    }
}

/// Create an RPC request: convert `data` into the generic parameter
/// representation, allocate a fresh completion channel, and return the
/// outbound envelope paired with the typed response future that waits on
/// it. This is the only way to obtain either half, so every envelope has
/// exactly one matching future.
pub fn create_request<T: ServiceRequest>(data: T) -> (r: (OutboundRequest, ResponseFuture<T>))
    ensures
        r.0.spec_params() == data.params_spec(),
        !r.1.is_complete(),
{
    let (tx, rx) = completion_channel();
    (
        OutboundRequest::new(data.into_params(), CompletionProducer { tx }),
        ResponseFuture::new(rx),
    )
}

} // verus!
