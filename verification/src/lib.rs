//! Request/response correlation core for an asynchronous RPC client that
//! talks over a single full-duplex message stream.
//!
//! A caller builds a typed request with `create_request`, hands the
//! resulting `OutboundRequest` envelope to the transport layer, and waits on
//! the paired `ResponseFuture`. The transport later resolves the envelope's
//! completion producer with a generic value or an error, from any task; the
//! future decodes that completion into the caller's typed result.

pub mod channel;
pub mod error;
pub mod laws;
pub mod outbound;
pub mod requests;
pub mod service;
pub mod value;

pub use channel::ChannelEvent;
pub use error::{ClientError, DecodeError, Error, ErrorData};
pub use outbound::{
    create_request, empty_outcome, response_outcome, CompletionProducer, EmptyResponseFuture,
    OutboundRequest, ResponseFuture,
};
pub use service::ServiceRequest;
pub use value::GenericValue;
