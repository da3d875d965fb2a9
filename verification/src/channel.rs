//! The one-shot completion channel, a single-use, single-producer,
//! single-consumer handoff carrying one completion value.
//!
//! The primitive itself is tokio's oneshot channel; this module is the
//! trusted boundary around it. Everything the rest of the crate learns about
//! a channel it learns from the contracts here: at most one value is ever
//! delivered, and the consumer observes either that value or a closed signal
//! once the producer is gone.

use crate::error::ClientError;
use crate::value::GenericValue;
use tokio::sync::oneshot;
use vstd::prelude::*;

verus! {

/// What the consumer half of a completion channel observes once the wait is
/// over: the producer was dropped without resolving, or a completion value
/// was delivered.
#[derive(Debug, PartialEq, Eq)]
pub enum ChannelEvent {
    /// The producer half was dropped without sending.
    Closed,
    /// The producer resolved the channel with this completion value.
    Delivered(Result<GenericValue, ClientError>),
}

/// Relies on tokio::sync::oneshot::Sender, the producer half, held here as
/// an opaque value: everything known about it is said by the wrappers below.
#[verifier::external_type_specification]
#[verifier::external_body]
#[verifier::reject_recursive_types(T)]
pub struct ExSender<T>(oneshot::Sender<T>);

/// Relies on tokio::sync::oneshot::Receiver, the consumer half, held here as
/// an opaque value: everything known about it is said by the wrappers below.
#[verifier::external_type_specification]
#[verifier::external_body]
#[verifier::reject_recursive_types(T)]
pub struct ExReceiver<T>(oneshot::Receiver<T>);

/// Relies on tokio::sync::oneshot::error::RecvError, the error a receiver
/// reports when awaited after the producer was dropped. Nothing in the crate
/// holds one; the declaration only lets the receiver type be declared.
#[verifier::external_type_specification]
#[verifier::external_body]
pub struct ExRecvError(oneshot::error::RecvError);

/// Relies on tokio::sync::oneshot::channel: allocates a fresh channel and
/// returns its two linked halves. Allocation is infallible; the channel
/// delivers at most one value, with no buffering, broadcast or re-arming.
#[verifier::external_body]
pub(crate) fn completion_channel() -> (
    oneshot::Sender<Result<GenericValue, ClientError>>,
    oneshot::Receiver<Result<GenericValue, ClientError>>,
)
{
    oneshot::channel()
}

/// Relies on tokio::sync::oneshot::Sender::send: consumes the producer half
/// and delivers the value to the linked consumer, unless the consumer was
/// already dropped, in which case the value is discarded. Never blocks and
/// never panics.
#[verifier::external_body]
pub(crate) fn send_completion(
    tx: oneshot::Sender<Result<GenericValue, ClientError>>,
    value: Result<GenericValue, ClientError>,
)
{
    let _ = tx.send(value);
}

/// Relies on tokio::sync::oneshot::Receiver::try_recv: reports a delivered
/// value exactly once, nothing while the producer is alive and has not yet
/// sent, and a closed signal once the producer is gone. Never blocks and
/// never panics.
#[verifier::external_body]
pub(crate) fn probe_completion(
    rx: &mut oneshot::Receiver<Result<GenericValue, ClientError>>,
) -> (event: Option<ChannelEvent>)
{
    match rx.try_recv() {
        Ok(value) => Some(ChannelEvent::Delivered(value)),
        Err(oneshot::error::TryRecvError::Empty) => None,
        Err(oneshot::error::TryRecvError::Closed) => Some(ChannelEvent::Closed),
    }
}

} // verus!
