//! One remote method invocation as a machine of decisions.
//!
//! The transport work (encoding the attachment, issuing the query, awaiting
//! the reply, decoding the reply's attachment) is done by a driver. The driver
//! reads what to do from the `Action` that `Invocation::step` returns and
//! hands the outcome back as an `Event`:
//!
//! `Built --encoded--> Encoded --issued--> AwaitingReply --reply--> Completed`
//!
//! with `Failed` or `TimedOut` reached from any of these on a failure. Every
//! failure ends the invocation with an error, except one: a reply attachment
//! that cannot be decoded only lowers the reply's payload format to
//! `Unspecified`. A request attachment that cannot be encoded is fatal. The
//! asymmetry is deliberate leniency towards responders, and it means that a
//! corrupted reply attachment goes unnoticed by the caller.

use crate::message::{
    is_internal_rpc_error, internal_rpc_error, Attributes, CallOptions, InvocationError,
    MessageType, Payload, PayloadFormat, Priority, Uri, Uuid,
};
use crate::message_id::generate_message_id;
use vstd::prelude::*;

verus! {

/// The capability that resolves the caller's own address.
pub trait LocalUriProvider {
    /// The address that `get_source_uri` resolves to.
    spec fn source_uri(&self) -> Uri;

    fn get_source_uri(&self) -> (r: Uri)
        ensures
            r == self.source_uri(),
    ;
}

/// A provider that always resolves to one fixed address.
#[derive(Clone, Debug)]
pub struct StaticUriProvider {
    pub uri: Uri,
}

impl LocalUriProvider for StaticUriProvider {
    open spec fn source_uri(&self) -> Uri {
        self.uri
    }

    fn get_source_uri(&self) -> (r: Uri) {
        self.uri.duplicate()
    }
}

/// Which responders a query is delivered to.
#[derive(Clone, Copy, Debug, PartialEq, Eq, Structural)]
pub enum QueryTarget {
    /// The single responder that matches best.
    BestMatching,
    /// Every matching responder.
    All,
    /// Every matching responder that covers the whole key.
    AllComplete,
}

/// The one query that an invocation issues.
#[derive(Debug, PartialEq, Eq)]
pub struct QueryRequest {
    /// The request payload's bytes; no body when the call carried no payload.
    pub body: Option<Vec<u8>>,
    /// The encoded request attributes.
    pub attachment: Vec<u8>,
    pub target: QueryTarget,
    /// How long the transport waits for a reply, from the moment of issue.
    pub timeout_ms: u64,
}

/// The attachment of a reply, as the driver found it.
#[derive(Debug, PartialEq, Eq)]
pub enum ReplyAttachment {
    Absent,
    Undecodable,
    Decoded(Attributes),
}

/// A reply that the transport delivered.
#[derive(Debug, PartialEq, Eq)]
pub enum Reply {
    /// A valid sample: its bytes and its attachment.
    Sample { payload: Vec<u8>, attachment: ReplyAttachment },
    /// A sample the transport marked as an error, with its diagnostic text.
    Rejected(String),
}

/// The outcome of the driver's last piece of work.
#[derive(Debug, PartialEq, Eq)]
pub enum Event {
    /// The request attributes were encoded (`Some`), or could not be (`None`).
    AttachmentEncoded(Option<Vec<u8>>),
    /// The query was accepted by the transport (`true`), or not.
    QueryIssued(bool),
    /// The reply; `None` when the wait timed out, failed, or the reply
    /// channel closed without an item.
    ReplyReceived(Option<Reply>),
}

/// What the driver does next.
#[derive(Debug, PartialEq, Eq)]
pub enum Action {
    /// Encode `attributes` of the invocation into an attachment.
    EncodeAttachment,
    /// Issue this query to the key derived from the attributes' source and
    /// sink.
    SendQuery(QueryRequest),
    /// Wait for the single reply of the query.
    ReceiveReply,
    /// The invocation is over; hand this result to the caller.
    Finish(Result<Option<Payload>, InvocationError>),
}

/// Where an invocation stands; the last three are final.
#[derive(Clone, Copy, Debug, PartialEq, Eq, Structural)]
pub enum Phase {
    Built,
    Encoded,
    AwaitingReply,
    Completed,
    TimedOut,
    Failed,
}

/// The state of one invocation.
#[derive(Debug, PartialEq, Eq)]
pub struct Invocation {
    pub attributes: Attributes,
    /// The request body, until it is handed to the query.
    pub body: Option<Vec<u8>>,
    pub phase: Phase,
}

pub open spec fn encode_failure_message() -> Seq<char> {
    "Unable to transform UAttributes to user attachment in Zenoh"@
}

pub open spec fn send_failure_message() -> Seq<char> {
    "Error while sending Zenoh query"@
}

pub open spec fn receive_failure_message() -> Seq<char> {
    "Error while receiving Zenoh reply"@
}

pub open spec fn rejected_reply_message(cause: Seq<char>) -> Seq<char> {
    "Error while parsing Zenoh reply: "@ + cause
}

pub open spec fn out_of_order_message() -> Seq<char> {
    "Invocation event does not fit its phase"@
}

/// The format of a payload, `Unspecified` for none.
pub open spec fn payload_format_of(payload: Option<Payload>) -> PayloadFormat {
    match payload {
        Some(p) => p.format,
        None => PayloadFormat::Unspecified,
    }
}

/// The bytes of a payload, if any.
pub open spec fn payload_body_of(payload: Option<Payload>) -> Option<Vec<u8>> {
    match payload {
        Some(p) => Some(p.data),
        None => None,
    }
}

/// The attributes of a request from `source` to `method`. The identity is
/// the caller's if given, else `generated_id`; the priority is the caller's,
/// else `Unspecified`.
pub open spec fn request_attributes(
    source: Uri,
    method: Uri,
    options: CallOptions,
    payload_format: PayloadFormat,
    generated_id: Uuid,
) -> Attributes {
    Attributes {
        message_type: MessageType::Request,
        id: Some(
            match options.message_id {
                Some(id) => id,
                None => generated_id,
            },
        ),
        priority: match options.priority {
            Some(p) => p,
            None => Priority::Unspecified,
        },
        source: Some(source),
        sink: Some(method),
        ttl: Some(options.ttl),
        token: options.token,
        payload_format,
    }
}

/// A freshly begun invocation.
pub open spec fn initial_invocation(
    source: Uri,
    method: Uri,
    options: CallOptions,
    payload: Option<Payload>,
    generated_id: Uuid,
) -> Invocation {
    Invocation {
        attributes: request_attributes(
            source,
            method,
            options,
            payload_format_of(payload),
            generated_id,
        ),
        body: payload_body_of(payload),
        phase: Phase::Built,
    }
}

/// The query timeout that the attributes ask for: their time-to-live.
pub open spec fn query_timeout(attributes: Attributes) -> u64 {
    match attributes.ttl {
        Some(t) => t as u64,
        None => 0,
    }
}

/// The payload format that a reply declares; `Unspecified` where its
/// attachment is missing or cannot be decoded.
pub open spec fn reply_format(attachment: ReplyAttachment) -> PayloadFormat {
    match attachment {
        ReplyAttachment::Decoded(a) => a.payload_format,
        _ => PayloadFormat::Unspecified,
    }
}

/// `action` ends the invocation with `InvocationError::Internal(msg)`.
pub open spec fn finishes_internal(action: Action, msg: Seq<char>) -> bool {
    &&& action is Finish
    &&& action->Finish_0 is Err
    &&& action->Finish_0->Err_0 is Internal
    &&& action->Finish_0->Err_0->Internal_0@ == msg
}

/// `action` ends the invocation with an internal `RpcError` carrying `msg`.
pub open spec fn finishes_rpc_error(action: Action, msg: Seq<char>) -> bool {
    &&& action is Finish
    &&& action->Finish_0 is Err
    &&& is_internal_rpc_error(action->Finish_0->Err_0, msg)
}

/// One step of an invocation: from `before`, on `event`, to `after`, doing
/// `action`. The attributes never change.
pub open spec fn step_spec(before: Invocation, event: Event, after: Invocation, action: Action) -> bool {
    &&& after.attributes == before.attributes
    &&& match (before.phase, event) {
        (Phase::Built, Event::AttachmentEncoded(Some(attachment))) => {
            &&& after.phase == Phase::Encoded
            &&& after.body is None
            &&& action == Action::SendQuery(
                QueryRequest {
                    body: before.body,
                    attachment,
                    target: QueryTarget::BestMatching,
                    timeout_ms: query_timeout(before.attributes),
                },
            )
        },
        (Phase::Built, Event::AttachmentEncoded(None)) => {
            &&& after.phase == Phase::Failed
            &&& after.body == before.body
            &&& finishes_internal(action, encode_failure_message())
        },
        (Phase::Encoded, Event::QueryIssued(true)) => {
            &&& after.phase == Phase::AwaitingReply
            &&& after.body == before.body
            &&& action is ReceiveReply
        },
        (Phase::Encoded, Event::QueryIssued(false)) => {
            &&& after.phase == Phase::Failed
            &&& after.body == before.body
            &&& finishes_rpc_error(action, send_failure_message())
        },
        (Phase::AwaitingReply, Event::ReplyReceived(None)) => {
            &&& after.phase == Phase::TimedOut
            &&& after.body == before.body
            &&& finishes_rpc_error(action, receive_failure_message())
        },
        (Phase::AwaitingReply, Event::ReplyReceived(Some(Reply::Sample { payload, attachment }))) => {
            &&& after.phase == Phase::Completed
            &&& after.body == before.body
            &&& action == Action::Finish(
                Ok(Some(Payload { data: payload, format: reply_format(attachment) })),
            )
        },
        (Phase::AwaitingReply, Event::ReplyReceived(Some(Reply::Rejected(cause)))) => {
            &&& after.phase == Phase::Failed
            &&& after.body == before.body
            &&& finishes_rpc_error(action, rejected_reply_message(cause@))
        },
        _ => {
            &&& after.phase == Phase::Failed
            &&& after.body == before.body
            &&& finishes_internal(action, out_of_order_message())
        },
    }
}

/// `invs[i]` steps on `events[i]` to `invs[i + 1]`, doing `actions[i]`.
pub open spec fn is_run(invs: Seq<Invocation>, events: Seq<Event>, actions: Seq<Action>) -> bool {
    &&& invs.len() == events.len() + 1
    &&& actions.len() == events.len()
    &&& forall|i: int|
        0 <= i < events.len() ==> step_spec(invs[i], events[i], invs[i + 1], #[trigger] actions[i])
}

/// The payload format that a reply declares, `Unspecified` where its
/// attachment is missing or could not be decoded.
pub fn payload_format_of_reply(attachment: ReplyAttachment) -> (r: PayloadFormat)
    ensures
        r == reply_format(attachment),
{
    match attachment {
        ReplyAttachment::Decoded(a) => a.payload_format,
        _ => PayloadFormat::Unspecified,
    }
}

/// Assembles the attributes of a request from `source` to `method`.
/// `generated_id` is used only when the options carry no identity.
pub fn build_request_attributes(
    source: Uri,
    method: Uri,
    call_options: CallOptions,
    payload_format: PayloadFormat,
    generated_id: Uuid,
) -> (r: Attributes)
    ensures
        r == request_attributes(source, method, call_options, payload_format, generated_id),
{
    let id = match call_options.message_id {
        Some(id) => id,
        None => generated_id,
    };
    let priority = match call_options.priority {
        Some(p) => p,
        None => Priority::Unspecified,
    };
    Attributes {
        message_type: MessageType::Request,
        id: Some(id),
        priority,
        source: Some(source),
        sink: Some(method),
        ttl: Some(call_options.ttl),
        token: call_options.token,
        payload_format,
    }
}

impl Invocation {
    /// Advances the invocation on the outcome of the driver's last work and
    /// says what to do next.
    pub fn step(&mut self, event: Event) -> (action: Action)
        ensures
            step_spec(*old(self), event, *final(self), action),
    {
        match event {
            Event::AttachmentEncoded(encoded) => {
                if self.phase == Phase::Built {
                    match encoded {
                        Some(attachment) => {
                            let timeout_ms: u64 = match self.attributes.ttl {
                                Some(t) => t as u64,
                                None => 0,
                            };
                            let body = self.body.take();
                            self.phase = Phase::Encoded;
                            Action::SendQuery(
                                QueryRequest {
                                    body,
                                    attachment,
                                    target: QueryTarget::BestMatching,
                                    timeout_ms,
                                },
                            )
                        },
                        None => {
                            self.phase = Phase::Failed;
                            Action::Finish(
                                Err(
                                    InvocationError::Internal(
                                        String::from_str(
                                            "Unable to transform UAttributes to user attachment in Zenoh",
                                        ),
                                    ),
                                ),
                            )
                        },
                    }
                } else {
                    self.out_of_order()
                }
            },
            Event::QueryIssued(accepted) => {
                if self.phase == Phase::Encoded {
                    if accepted {
                        self.phase = Phase::AwaitingReply;
                        Action::ReceiveReply
                    } else {
                        self.phase = Phase::Failed;
                        Action::Finish(
                            Err(
                                internal_rpc_error(
                                    String::from_str("Error while sending Zenoh query"),
                                ),
                            ),
                        )
                    }
                } else {
                    self.out_of_order()
                }
            },
            Event::ReplyReceived(reply) => {
                if self.phase == Phase::AwaitingReply {
                    match reply {
                        None => {
                            self.phase = Phase::TimedOut;
                            Action::Finish(
                                Err(
                                    internal_rpc_error(
                                        String::from_str("Error while receiving Zenoh reply"),
                                    ),
                                ),
                            )
                        },
                        Some(Reply::Sample { payload, attachment }) => {
                            self.phase = Phase::Completed;
                            let format = payload_format_of_reply(attachment);
                            Action::Finish(Ok(Some(Payload { data: payload, format })))
                        },
                        Some(Reply::Rejected(cause)) => {
                            self.phase = Phase::Failed;
                            let message = String::from_str(
                                "Error while parsing Zenoh reply: ",
                            ).concat(cause.as_str());
                            Action::Finish(Err(internal_rpc_error(message)))
                        },
                    }
                } else {
                    self.out_of_order()
                }
            },
        }
    }

    /// Ends the invocation on an event that its phase does not expect.
    fn out_of_order(&mut self) -> (action: Action)
        ensures
            final(self).attributes == old(self).attributes,
            final(self).body == old(self).body,
            final(self).phase == Phase::Failed,
            finishes_internal(action, out_of_order_message()),
    {
        self.phase = Phase::Failed;
        Action::Finish(
            Err(InvocationError::Internal(String::from_str("Invocation event does not fit its phase"))),
        )
    }
}

/// A client that invokes remote methods on behalf of the address that its
/// provider resolves.
pub struct ZenohRpcClient<P: LocalUriProvider> {
    pub uri_provider: P,
}

impl<P: LocalUriProvider> ZenohRpcClient<P> {
    /// Creates a client for the local address that `uri_provider` resolves.
    pub fn new(uri_provider: P) -> (r: Self)
        ensures
            r.uri_provider == uri_provider,
    {
        ZenohRpcClient { uri_provider }
    }

    /// Begins an invocation of `method`. Its attributes describe a request
    /// from the local address to `method`; without a payload there is no
    /// body and the payload format is `Unspecified`. Without an identity in
    /// the options a fresh one is generated.
    pub fn start_invocation(
        &self,
        method: Uri,
        call_options: CallOptions,
        payload: Option<Payload>,
    ) -> (r: Invocation)
        ensures
            r.attributes.id is Some,
            r == initial_invocation(
                self.uri_provider.source_uri(),
                method,
                call_options,
                payload,
                r.attributes.id->Some_0,
            ),
            call_options.message_id is None ==> r.attributes.id->Some_0.is_uprotocol_uuid(),
            call_options.message_id is None ==> !r.attributes.id->Some_0.is_nil(),
    {
        let (body, payload_format) = match payload {
            Some(p) => (Some(p.data), p.format),
            None => (None, PayloadFormat::Unspecified),
        };
        let source = self.uri_provider.get_source_uri();
        let generated_id = match call_options.message_id {
            Some(id) => id,
            None => generate_message_id(),
        };
        proof {
            if call_options.message_id is None {
                crate::message::lemma_uprotocol_uuid_not_nil(generated_id);
            }
        }
        let attributes = build_request_attributes(
            source,
            method,
            call_options,
            payload_format,
            generated_id,
        );
        Invocation { attributes, body, phase: Phase::Built }
    }
}

} // verus!
