use relay_outbound::requests::{Echo, EchoResponse, Ping, Pong, RemoteError, CODE_TIMEOUT};
use relay_outbound::{
    create_request, ChannelEvent, ClientError, DecodeError, EmptyResponseFuture, Error, ErrorData,
    GenericValue, ResponseFuture,
};

#[test]
fn ping_resolved_with_empty_object_yields_pong() {
    let (request, mut future) = create_request(Ping);
    request.resolve(Ok(GenericValue::Object(vec![])));
    assert_eq!(future.try_complete(), Some(Ok(Pong)));
}

#[test]
fn ping_resolved_with_null_yields_pong() {
    let (request, mut future) = create_request(Ping);
    request.resolve(Ok(GenericValue::Null));
    assert_eq!(future.try_complete(), Some(Ok(Pong)));
}

#[test]
fn ping_dropped_producer_yields_channel_closed() {
    let (request, mut future) = create_request(Ping);
    drop(request);
    assert_eq!(future.try_complete(), Some(Err(Error::ChannelClosed)));
}

#[test]
fn ping_wrong_shape_yields_deserialization() {
    let (request, mut future) = create_request(Ping);
    request.resolve(Ok(GenericValue::Int(3)));
    assert_eq!(
        future.try_complete(),
        Some(Err(Error::Deserialization(DecodeError::UnexpectedShape)))
    );
}

#[test]
fn ping_nonempty_object_yields_deserialization() {
    let (request, mut future) = create_request(Ping);
    request.resolve(Ok(GenericValue::Object(vec![(
        "extra".to_string(),
        GenericValue::Bool(true),
    )])));
    assert_eq!(
        future.try_complete(),
        Some(Err(Error::Deserialization(DecodeError::UnexpectedShape)))
    );
}

#[test]
fn domain_error_timeout_passes_through_exactly() {
    let (request, mut future) = create_request(Ping);
    request.resolve(Err(ClientError::Response(ErrorData {
        code: CODE_TIMEOUT,
        message: "request timed out".to_string(),
    })));
    assert_eq!(
        future.try_complete(),
        Some(Err(Error::Response(RemoteError::Timeout)))
    );
}

#[test]
fn domain_error_other_code_passes_through() {
    let (request, mut future) = create_request(Ping);
    request.resolve(Err(ClientError::Response(ErrorData {
        code: 7,
        message: "rejected".to_string(),
    })));
    assert_eq!(
        future.try_complete(),
        Some(Err(Error::Response(RemoteError::Other(7))))
    );
}

#[test]
fn delivered_client_errors_pass_through() {
    let (request, mut future) = create_request(Ping);
    request.resolve(Err(ClientError::ChannelClosed));
    assert_eq!(future.try_complete(), Some(Err(Error::ChannelClosed)));

    let (request, mut future) = create_request(Ping);
    request.resolve(Err(ClientError::Deserialization(DecodeError::UnexpectedShape)));
    assert_eq!(
        future.try_complete(),
        Some(Err(Error::Deserialization(DecodeError::UnexpectedShape)))
    );
}

#[test]
fn future_is_pending_until_resolved() {
    let (request, mut future) = create_request(Ping);
    assert_eq!(future.try_complete(), None);
    assert_eq!(future.try_complete(), None);
    request.resolve(Ok(GenericValue::Null));
    assert_eq!(future.try_complete(), Some(Ok(Pong)));
}

#[test]
fn echo_round_trip_is_lossless() {
    let (request, mut future) = create_request(Echo { text: "ping me back".to_string() });
    assert_eq!(
        request.params(),
        &GenericValue::Text("ping me back".to_string())
    );
    request.resolve(Ok(GenericValue::Text("ping me back".to_string())));
    assert_eq!(
        future.try_complete(),
        Some(Ok(EchoResponse { text: "ping me back".to_string() }))
    );
}

#[test]
fn echo_params_reach_the_transport_through_into_parts() {
    let (request, mut future) = create_request(Echo { text: "hello".to_string() });
    let (params, producer) = request.into_parts();
    assert_eq!(params, GenericValue::Text("hello".to_string()));
    producer.resolve(Ok(GenericValue::Text("world".to_string())));
    assert_eq!(
        future.try_complete(),
        Some(Ok(EchoResponse { text: "world".to_string() }))
    );
}

#[test]
fn empty_future_collapses_success_to_unit() {
    let (request, future) = create_request(Ping);
    let mut empty = EmptyResponseFuture::new(future);
    request.resolve(Ok(GenericValue::Object(vec![])));
    assert_eq!(empty.try_complete(), Some(Ok(())));
}

#[test]
fn empty_future_passes_errors_through() {
    let (request, future) = create_request(Ping);
    let mut empty = EmptyResponseFuture::new(future);
    drop(request);
    assert_eq!(empty.try_complete(), Some(Err(Error::ChannelClosed)));

    let (request, future) = create_request(Ping);
    let mut empty = EmptyResponseFuture::new(future);
    request.resolve(Err(ClientError::Response(ErrorData {
        code: CODE_TIMEOUT,
        message: "request timed out".to_string(),
    })));
    assert_eq!(
        empty.try_complete(),
        Some(Err(Error::Response(RemoteError::Timeout)))
    );
}

#[test]
fn empty_future_is_pending_until_resolved() {
    let (request, future) = create_request(Ping);
    let mut empty = EmptyResponseFuture::new(future);
    assert_eq!(empty.try_complete(), None);
    request.resolve(Ok(GenericValue::Null));
    assert_eq!(empty.try_complete(), Some(Ok(())));
}

#[test]
fn resolving_after_the_future_was_dropped_is_a_noop() {
    let (request, future) = create_request(Ping);
    drop(future);
    request.resolve(Ok(GenericValue::Null));
}

#[test]
fn complete_decides_from_the_observed_event() {
    assert_eq!(
        ResponseFuture::<Ping>::complete(ChannelEvent::Closed),
        Err(Error::ChannelClosed)
    );
    assert_eq!(
        ResponseFuture::<Ping>::complete(ChannelEvent::Delivered(Ok(GenericValue::Null))),
        Ok(Pong)
    );
    assert_eq!(
        EmptyResponseFuture::<Ping>::complete(ChannelEvent::Delivered(Ok(GenericValue::Null))),
        Ok(())
    );
}
