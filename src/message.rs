//! The data that one method invocation carries: addresses, identities,
//! priorities, payloads, message attributes, call options and errors.

use vstd::prelude::*;

verus! {

/// The logical address of a resource or method.
#[derive(Clone, Debug, PartialEq, Eq)]
pub struct Uri {
    pub authority_name: String,
    pub ue_id: u32,
    pub ue_version_major: u32,
    pub resource_id: u32,
}

impl Uri {
    pub fn new(authority_name: String, ue_id: u32, ue_version_major: u32, resource_id: u32) -> (r:
        Uri)
        ensures
            r == (Uri { authority_name, ue_id, ue_version_major, resource_id }),
    {
        Uri { authority_name, ue_id, ue_version_major, resource_id }
    }

    /// A field-by-field copy.
    pub fn duplicate(&self) -> (r: Uri)
        ensures
            r == *self,
    {
        Uri {
            authority_name: self.authority_name.clone(),
            ue_id: self.ue_id,
            ue_version_major: self.ue_version_major,
            resource_id: self.resource_id,
        }
    }
}

/// A 128-bit message identity, as its high and low 64-bit halves.
#[derive(Clone, Copy, Debug, PartialEq, Eq, Structural)]
pub struct Uuid {
    pub msb: u64,
    pub lsb: u64,
}

impl Uuid {
    /// Version 7 in the version nibble, RFC 4122 in the variant bits.
    pub open spec fn is_uprotocol_uuid(self) -> bool {
        &&& self.msb & 0xf000u64 == 0x7000u64
        &&& self.lsb & 0xc000_0000_0000_0000u64 == 0x8000_0000_0000_0000u64
    }

    pub open spec fn is_nil(self) -> bool {
        self.msb == 0 && self.lsb == 0
    }
}

/// A uProtocol identity is never the nil identity.
pub proof fn lemma_uprotocol_uuid_not_nil(id: Uuid)
    requires
        id.is_uprotocol_uuid(),
    ensures
        !id.is_nil(),
{
    let m = id.msb;
    assert(m & 0xf000u64 == 0x7000u64 ==> m != 0) by (bit_vector);
}

/// Delivery priority classes; `Unspecified` implies no urgency.
#[derive(Clone, Copy, Debug, PartialEq, Eq, Structural)]
pub enum Priority {
    Unspecified,
    Cs0,
    Cs1,
    Cs2,
    Cs3,
    Cs4,
    Cs5,
    Cs6,
}

/// How the bytes of a payload are encoded.
#[derive(Clone, Copy, Debug, PartialEq, Eq, Structural)]
pub enum PayloadFormat {
    Unspecified,
    ProtobufWrappedInAny,
    Protobuf,
    Json,
    SomeIp,
    SomeIpTlv,
    Raw,
    Text,
    Shm,
}

/// The kind of a message.
#[derive(Clone, Copy, Debug, PartialEq, Eq, Structural)]
pub enum MessageType {
    Unspecified,
    Publish,
    Request,
    Response,
    Notification,
}

/// Normalized status codes.
#[derive(Clone, Copy, Debug, PartialEq, Eq, Structural)]
pub enum Code {
    Success,
    Cancelled,
    Unknown,
    InvalidArgument,
    DeadlineExceeded,
    NotFound,
    AlreadyExists,
    PermissionDenied,
    ResourceExhausted,
    FailedPrecondition,
    Aborted,
    OutOfRange,
    Unimplemented,
    Internal,
    Unavailable,
    DataLoss,
    Unauthenticated,
}

/// Payload bytes together with the tag that says how they are encoded.
#[derive(Clone, Debug, PartialEq, Eq)]
pub struct Payload {
    pub data: Vec<u8>,
    pub format: PayloadFormat,
}

impl Payload {
    pub fn new(data: Vec<u8>, format: PayloadFormat) -> (r: Payload)
        ensures
            r == (Payload { data, format }),
    {
        Payload { data, format }
    }

    pub fn payload(&self) -> (r: &Vec<u8>)
        ensures
            *r == self.data,
    {
        &self.data
    }

    pub fn payload_format(&self) -> (r: PayloadFormat)
        ensures
            r == self.format,
    {
        self.format
    }
}

/// The metadata record that travels beside a message.
#[derive(Clone, Debug, PartialEq, Eq)]
pub struct Attributes {
    pub message_type: MessageType,
    pub id: Option<Uuid>,
    pub priority: Priority,
    pub source: Option<Uri>,
    pub sink: Option<Uri>,
    pub ttl: Option<u32>,
    pub token: Option<String>,
    pub payload_format: PayloadFormat,
}

/// Per-call options of an invocation.
#[derive(Clone, Debug, PartialEq, Eq)]
pub struct CallOptions {
    /// How long to wait for the reply, in milliseconds.
    pub ttl: u32,
    pub message_id: Option<Uuid>,
    pub token: Option<String>,
    pub priority: Option<Priority>,
}

impl CallOptions {
    pub fn for_rpc_request(
        ttl: u32,
        message_id: Option<Uuid>,
        token: Option<String>,
        priority: Option<Priority>,
    ) -> (r: CallOptions)
        ensures
            r == (CallOptions { ttl, message_id, token, priority }),
    {
        CallOptions { ttl, message_id, token, priority }
    }
}

/// A status: a normalized code and an optional human-readable message.
#[derive(Clone, Debug, PartialEq, Eq)]
pub struct Status {
    pub code: Code,
    pub message: Option<String>,
}

/// Why an invocation failed.
#[derive(Clone, Debug, PartialEq, Eq)]
pub enum InvocationError {
    /// The request could not be prepared locally; nothing was sent.
    Internal(String),
    /// The transport failed to send, to deliver a reply, or delivered a
    /// rejected reply.
    RpcError(Status),
}

/// `e` is an `RpcError` with code `Internal` and message `msg`.
pub open spec fn is_internal_rpc_error(e: InvocationError, msg: Seq<char>) -> bool {
    &&& e is RpcError
    &&& e->RpcError_0.code == Code::Internal
    &&& e->RpcError_0.message is Some
    &&& e->RpcError_0.message->Some_0@ == msg
}

/// Builds an `RpcError` with code `Internal` and the given message.
pub fn internal_rpc_error(message: String) -> (r: InvocationError)
    ensures
        is_internal_rpc_error(r, message@),
{
    InvocationError::RpcError(Status { code: Code::Internal, message: Some(message) })
}

} // verus!
