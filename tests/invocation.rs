use up_transport_zenoh::message::{
    Attributes, CallOptions, Code, InvocationError, MessageType, Payload, PayloadFormat, Priority,
    Status, Uri, Uuid,
};
use up_transport_zenoh::rpc::{
    build_request_attributes, payload_format_of_reply, Action, Event, Invocation, Phase,
    QueryRequest, QueryTarget, Reply, ReplyAttachment, StaticUriProvider, ZenohRpcClient,
};

fn local_uri() -> Uri {
    Uri::new("local".to_string(), 0x1234, 1, 0)
}

fn method_uri() -> Uri {
    Uri::new("remote".to_string(), 0x4321, 2, 0x7)
}

fn client() -> ZenohRpcClient<StaticUriProvider> {
    ZenohRpcClient::new(StaticUriProvider { uri: local_uri() })
}

fn reply_attributes(format: PayloadFormat) -> Attributes {
    Attributes {
        message_type: MessageType::Response,
        id: None,
        priority: Priority::Unspecified,
        source: Some(method_uri()),
        sink: Some(local_uri()),
        ttl: None,
        token: None,
        payload_format: format,
    }
}

fn sample(bytes: &[u8], attachment: ReplyAttachment) -> Event {
    Event::ReplyReceived(Some(Reply::Sample { payload: bytes.to_vec(), attachment }))
}

fn rpc_internal(message: &str) -> Action {
    Action::Finish(Err(InvocationError::RpcError(Status {
        code: Code::Internal,
        message: Some(message.to_string()),
    })))
}

fn is_uprotocol_uuid(id: &Uuid) -> bool {
    id.msb & 0xf000 == 0x7000 && id.lsb >> 62 == 0b10
}

/// Drives an invocation that was sent and accepted up to the reply.
fn send_and_accept(inv: &mut Invocation) -> Action {
    let sent = inv.step(Event::AttachmentEncoded(Some(vec![9, 9])));
    assert_eq!(inv.step(Event::QueryIssued(true)), Action::ReceiveReply);
    assert_eq!(inv.phase, Phase::AwaitingReply);
    sent
}

#[test]
fn echo_of_text_payload_returns_it() {
    let options = CallOptions::for_rpc_request(1000, None, None, None);
    let payload = Payload::new(b"hello".to_vec(), PayloadFormat::Text);
    let mut inv = client().start_invocation(method_uri(), options, Some(payload));
    assert_eq!(inv.attributes.payload_format, PayloadFormat::Text);
    let sent = send_and_accept(&mut inv);
    match sent {
        Action::SendQuery(q) => assert_eq!(q.body, Some(b"hello".to_vec())),
        other => panic!("expected a query, got {:?}", other),
    }
    let done = inv.step(sample(b"hello", ReplyAttachment::Decoded(reply_attributes(PayloadFormat::Text))));
    assert_eq!(
        done,
        Action::Finish(Ok(Some(Payload::new(b"hello".to_vec(), PayloadFormat::Text))))
    );
    assert_eq!(inv.phase, Phase::Completed);
}

#[test]
fn reply_format_comes_from_reply_not_request() {
    let options = CallOptions::for_rpc_request(500, None, None, Some(Priority::Cs4));
    let payload = Payload::new(vec![1, 2, 3], PayloadFormat::Json);
    let mut inv = client().start_invocation(method_uri(), options, Some(payload));
    send_and_accept(&mut inv);
    let done = inv.step(sample(&[7, 8], ReplyAttachment::Decoded(reply_attributes(PayloadFormat::Protobuf))));
    assert_eq!(
        done,
        Action::Finish(Ok(Some(Payload::new(vec![7, 8], PayloadFormat::Protobuf))))
    );
}

#[test]
fn no_reply_within_ttl_is_internal_rpc_error() {
    let options = CallOptions::for_rpc_request(100, None, None, None);
    let mut inv = client().start_invocation(method_uri(), options, None);
    let sent = inv.step(Event::AttachmentEncoded(Some(vec![1])));
    assert_eq!(
        sent,
        Action::SendQuery(QueryRequest {
            body: None,
            attachment: vec![1],
            target: QueryTarget::BestMatching,
            timeout_ms: 100,
        })
    );
    assert_eq!(inv.step(Event::QueryIssued(true)), Action::ReceiveReply);
    let done = inv.step(Event::ReplyReceived(None));
    assert_eq!(done, rpc_internal("Error while receiving Zenoh reply"));
    assert_eq!(inv.phase, Phase::TimedOut);
}

#[test]
fn missing_payload_gives_no_body_and_unspecified_format() {
    let options = CallOptions::for_rpc_request(250, None, None, None);
    let mut inv = client().start_invocation(method_uri(), options, None);
    assert_eq!(inv.body, None);
    assert_eq!(inv.attributes.payload_format, PayloadFormat::Unspecified);
    match inv.step(Event::AttachmentEncoded(Some(vec![4, 5]))) {
        Action::SendQuery(q) => {
            assert_eq!(q.body, None);
            assert_eq!(q.timeout_ms, 250);
            assert_eq!(q.target, QueryTarget::BestMatching);
        }
        other => panic!("expected a query, got {:?}", other),
    }
}

#[test]
fn generated_identity_is_fresh_and_not_nil() {
    let c = client();
    let a = c.start_invocation(method_uri(), CallOptions::for_rpc_request(10, None, None, None), None);
    let b = c.start_invocation(method_uri(), CallOptions::for_rpc_request(10, None, None, None), None);
    let ida = a.attributes.id.expect("identity");
    let idb = b.attributes.id.expect("identity");
    assert!(is_uprotocol_uuid(&ida));
    assert!(is_uprotocol_uuid(&idb));
    assert_ne!(ida, Uuid { msb: 0, lsb: 0 });
    assert_ne!(ida, idb);
}

#[test]
fn caller_identity_priority_and_token_are_kept() {
    let id = Uuid { msb: 0x0000_0000_0001_7000, lsb: 0x8010_1010_1010_1a1a };
    let options = CallOptions::for_rpc_request(42, Some(id), Some("tok".to_string()), Some(Priority::Cs6));
    let inv = client().start_invocation(method_uri(), options, None);
    let expected = Attributes {
        message_type: MessageType::Request,
        id: Some(id),
        priority: Priority::Cs6,
        source: Some(local_uri()),
        sink: Some(method_uri()),
        ttl: Some(42),
        token: Some("tok".to_string()),
        payload_format: PayloadFormat::Unspecified,
    };
    assert_eq!(inv.attributes, expected);
    assert_eq!(inv.phase, Phase::Built);
}

#[test]
fn build_request_attributes_defaults() {
    let generated = Uuid { msb: 0x7000, lsb: 0x8000_0000_0000_0001 };
    let options = CallOptions::for_rpc_request(7, None, None, None);
    let attrs = build_request_attributes(local_uri(), method_uri(), options, PayloadFormat::Raw, generated);
    assert_eq!(attrs.message_type, MessageType::Request);
    assert_eq!(attrs.id, Some(generated));
    assert_eq!(attrs.priority, Priority::Unspecified);
    assert_eq!(attrs.source, Some(local_uri()));
    assert_eq!(attrs.sink, Some(method_uri()));
    assert_eq!(attrs.ttl, Some(7));
    assert_eq!(attrs.token, None);
    assert_eq!(attrs.payload_format, PayloadFormat::Raw);
}

#[test]
fn undecodable_reply_attachment_still_succeeds() {
    let mut inv = client().start_invocation(method_uri(), CallOptions::for_rpc_request(100, None, None, None), None);
    send_and_accept(&mut inv);
    let done = inv.step(sample(b"data", ReplyAttachment::Undecodable));
    assert_eq!(
        done,
        Action::Finish(Ok(Some(Payload::new(b"data".to_vec(), PayloadFormat::Unspecified))))
    );
    assert_eq!(inv.phase, Phase::Completed);
}

#[test]
fn absent_reply_attachment_gives_unspecified_format() {
    assert_eq!(payload_format_of_reply(ReplyAttachment::Absent), PayloadFormat::Unspecified);
    assert_eq!(payload_format_of_reply(ReplyAttachment::Undecodable), PayloadFormat::Unspecified);
    assert_eq!(
        payload_format_of_reply(ReplyAttachment::Decoded(reply_attributes(PayloadFormat::SomeIp))),
        PayloadFormat::SomeIp
    );
}

#[test]
fn encode_failure_is_internal_and_sends_nothing() {
    let payload = Payload::new(vec![1], PayloadFormat::Raw);
    let mut inv = client().start_invocation(method_uri(), CallOptions::for_rpc_request(100, None, None, None), Some(payload));
    let done = inv.step(Event::AttachmentEncoded(None));
    assert_eq!(
        done,
        Action::Finish(Err(InvocationError::Internal(
            "Unable to transform UAttributes to user attachment in Zenoh".to_string()
        )))
    );
    assert_eq!(inv.phase, Phase::Failed);
    // a confused driver cannot bring it to send afterwards
    let again = inv.step(Event::AttachmentEncoded(Some(vec![1])));
    assert!(matches!(again, Action::Finish(Err(InvocationError::Internal(_)))));
    assert!(!matches!(inv.step(Event::QueryIssued(true)), Action::SendQuery(_)));
}

#[test]
fn send_failure_is_internal_rpc_error() {
    let mut inv = client().start_invocation(method_uri(), CallOptions::for_rpc_request(100, None, None, None), None);
    inv.step(Event::AttachmentEncoded(Some(vec![1])));
    let done = inv.step(Event::QueryIssued(false));
    assert_eq!(done, rpc_internal("Error while sending Zenoh query"));
    assert_eq!(inv.phase, Phase::Failed);
}

#[test]
fn rejected_reply_embeds_cause() {
    let mut inv = client().start_invocation(method_uri(), CallOptions::for_rpc_request(100, None, None, None), None);
    send_and_accept(&mut inv);
    let done = inv.step(Event::ReplyReceived(Some(Reply::Rejected("bad sample".to_string()))));
    assert_eq!(done, rpc_internal("Error while parsing Zenoh reply: bad sample"));
    assert_eq!(inv.phase, Phase::Failed);
}

#[test]
fn event_out_of_order_is_internal() {
    let mut inv = client().start_invocation(method_uri(), CallOptions::for_rpc_request(100, None, None, None), None);
    let done = inv.step(Event::ReplyReceived(None));
    assert_eq!(
        done,
        Action::Finish(Err(InvocationError::Internal(
            "Invocation event does not fit its phase".to_string()
        )))
    );
    assert_eq!(inv.phase, Phase::Failed);
}

#[test]
fn largest_ttl_is_kept_as_timeout() {
    let mut inv = client().start_invocation(method_uri(), CallOptions::for_rpc_request(u32::MAX, None, None, None), None);
    match inv.step(Event::AttachmentEncoded(Some(vec![]))) {
        Action::SendQuery(q) => assert_eq!(q.timeout_ms, u32::MAX as u64),
        other => panic!("expected a query, got {:?}", other),
    }
}

#[test]
fn payload_accessors_and_uri_copy() {
    let p = Payload::new(vec![3, 4], PayloadFormat::Shm);
    assert_eq!(p.payload(), &vec![3, 4]);
    assert_eq!(p.payload_format(), PayloadFormat::Shm);
    let u = method_uri();
    assert_eq!(u.duplicate(), u);
}

#[test]
fn finished_invocation_never_queries_or_waits_again() {
    let mut inv = client().start_invocation(method_uri(), CallOptions::for_rpc_request(100, None, None, None), None);
    send_and_accept(&mut inv);
    inv.step(sample(b"x", ReplyAttachment::Absent));
    assert_eq!(inv.phase, Phase::Completed);
    for event in [
        Event::AttachmentEncoded(Some(vec![1])),
        Event::QueryIssued(true),
        Event::ReplyReceived(None),
    ] {
        let action = inv.step(event);
        assert!(matches!(action, Action::Finish(Err(InvocationError::Internal(_)))));
        assert_eq!(inv.phase, Phase::Failed);
    }
}
