//! What holds of every run of an invocation.

use crate::message::{
    Attributes, CallOptions, InvocationError, Payload, PayloadFormat, Uri, Uuid,
};
use crate::rpc::{
    encode_failure_message, finishes_internal, finishes_rpc_error, initial_invocation, is_run,
    receive_failure_message, step_spec, Action, Event, Invocation, Phase, QueryRequest,
    QueryTarget, Reply, ReplyAttachment,
};
use vstd::prelude::*;

verus! {

/// No step leads back to `Built`, and only a step out of `Built` on an
/// encoded attachment issues a query.
proof fn lemma_step_shape(before: Invocation, event: Event, after: Invocation, action: Action)
    requires
        step_spec(before, event, after, action),
    ensures
        after.phase != Phase::Built,
        action is SendQuery ==> before.phase == Phase::Built,
        action is SendQuery ==> after.body is None,
        !(action is SendQuery) ==> after.body == before.body,
        after.phase == Phase::Encoded ==> before.phase == Phase::Built,
        action is ReceiveReply ==> before.phase == Phase::Encoded,
{
}

/// Every invocation along a run keeps the attributes of the first.
proof fn lemma_run_keeps_attributes(
    invs: Seq<Invocation>,
    events: Seq<Event>,
    actions: Seq<Action>,
    n: int,
)
    requires
        is_run(invs, events, actions),
        0 <= n <= events.len(),
    ensures
        invs[n].attributes == invs[0].attributes,
    decreases n,
{
    if n > 0 {
        lemma_run_keeps_attributes(invs, events, actions, n - 1);
        assert(step_spec(invs[n - 1], events[n - 1], invs[n], actions[n - 1]));
    }
}

/// An invocation that starts without a body has none at any point of a run.
proof fn lemma_run_keeps_no_body(
    invs: Seq<Invocation>,
    events: Seq<Event>,
    actions: Seq<Action>,
    n: int,
)
    requires
        is_run(invs, events, actions),
        invs[0].body is None,
        0 <= n <= events.len(),
    ensures
        invs[n].body is None,
    decreases n,
{
    if n > 0 {
        lemma_run_keeps_no_body(invs, events, actions, n - 1);
        assert(step_spec(invs[n - 1], events[n - 1], invs[n], actions[n - 1]));
        lemma_step_shape(invs[n - 1], events[n - 1], invs[n], actions[n - 1]);
    }
}

/// An invocation issues at most one query and waits for at most one reply,
/// whatever the driver reports.
pub proof fn lemma_single_query_single_reply(
    invs: Seq<Invocation>,
    events: Seq<Event>,
    actions: Seq<Action>,
)
    requires
        is_run(invs, events, actions),
    ensures
        forall|i: int, j: int|
            0 <= i < actions.len() && 0 <= j < actions.len() && #[trigger] actions[i] is SendQuery
                && #[trigger] actions[j] is SendQuery ==> i == j,
        forall|i: int, j: int|
            0 <= i < actions.len() && 0 <= j < actions.len() && #[trigger] actions[i] is ReceiveReply
                && #[trigger] actions[j] is ReceiveReply ==> i == j,
{
    assert forall|i: int, j: int|
        0 <= i < actions.len() && 0 <= j < actions.len() && #[trigger] actions[i] is SendQuery
            && #[trigger] actions[j] is SendQuery implies i == j by {
        lemma_step_shape(invs[i], events[i], invs[i + 1], actions[i]);
        lemma_step_shape(invs[j], events[j], invs[j + 1], actions[j]);
        if i < j {
            lemma_step_shape(invs[j - 1], events[j - 1], invs[j], actions[j - 1]);
        } else if j < i {
            lemma_step_shape(invs[i - 1], events[i - 1], invs[i], actions[i - 1]);
        }
    }
    assert forall|i: int, j: int|
        0 <= i < actions.len() && 0 <= j < actions.len() && #[trigger] actions[i] is ReceiveReply
            && #[trigger] actions[j] is ReceiveReply implies i == j by {
        lemma_step_shape(invs[i], events[i], invs[i + 1], actions[i]);
        lemma_step_shape(invs[j], events[j], invs[j + 1], actions[j]);
        if i < j {
            // invs[j] is Encoded, so invs[j - 1] is Built, which no step reaches
            lemma_step_shape(invs[j - 1], events[j - 1], invs[j], actions[j - 1]);
            if j - 1 > 0 {
                lemma_step_shape(invs[j - 2], events[j - 2], invs[j - 1], actions[j - 2]);
            }
            // and invs[i + 1] is AwaitingReply, so j - 1 cannot be i
            assert(j - 1 != i);
        } else if j < i {
            lemma_step_shape(invs[i - 1], events[i - 1], invs[i], actions[i - 1]);
            if i - 1 > 0 {
                lemma_step_shape(invs[i - 2], events[i - 2], invs[i - 1], actions[i - 2]);
            }
            assert(i - 1 != j);
        }
    }
}

/// A successful round trip: the request with payload `payload` is sent with
/// that payload's bytes as its body, and the result holds exactly the bytes
/// of the reply and the format that the reply's own attributes declare,
/// whatever format the request had.
pub proof fn lemma_round_trip(
    source: Uri,
    method: Uri,
    options: CallOptions,
    payload: Payload,
    generated_id: Uuid,
    attachment: Vec<u8>,
    reply_bytes: Vec<u8>,
    reply_attributes: Attributes,
    invs: Seq<Invocation>,
    actions: Seq<Action>,
)
    requires
        is_run(
            invs,
            seq![
                Event::AttachmentEncoded(Some(attachment)),
                Event::QueryIssued(true),
                Event::ReplyReceived(
                    Some(
                        Reply::Sample {
                            payload: reply_bytes,
                            attachment: ReplyAttachment::Decoded(reply_attributes),
                        },
                    ),
                ),
            ],
            actions,
        ),
        invs[0] == initial_invocation(source, method, options, Some(payload), generated_id),
    ensures
        actions[0] == Action::SendQuery(
            QueryRequest {
                body: Some(payload.data),
                attachment,
                target: QueryTarget::BestMatching,
                timeout_ms: options.ttl as u64,
            },
        ),
        actions[2] == Action::Finish(
            Ok(Some(Payload { data: reply_bytes, format: reply_attributes.payload_format })),
        ),
{
    let events = seq![
        Event::AttachmentEncoded(Some(attachment)),
        Event::QueryIssued(true),
        Event::ReplyReceived(
            Some(
                Reply::Sample {
                    payload: reply_bytes,
                    attachment: ReplyAttachment::Decoded(reply_attributes),
                },
            ),
        ),
    ];
    assert(step_spec(invs[0], events[0], invs[1], actions[0]));
    assert(step_spec(invs[1], events[1], invs[2], actions[1]));
    assert(step_spec(invs[2], events[2], invs[3], actions[2]));
}

/// The only wait is the query's, and it is bounded by the time-to-live of the
/// call options: every query of a run is issued with that timeout, and a wait
/// that ends without a reply ends the invocation with an internal `RpcError`.
pub proof fn lemma_wait_bounded_by_ttl(
    source: Uri,
    method: Uri,
    options: CallOptions,
    payload: Option<Payload>,
    generated_id: Uuid,
    invs: Seq<Invocation>,
    events: Seq<Event>,
    actions: Seq<Action>,
)
    requires
        is_run(invs, events, actions),
        invs[0] == initial_invocation(source, method, options, payload, generated_id),
    ensures
        forall|i: int|
            0 <= i < actions.len() && #[trigger] actions[i] is SendQuery
                ==> actions[i]->SendQuery_0.timeout_ms == options.ttl as u64,
        forall|i: int|
            0 <= i < events.len() && invs[i].phase == Phase::AwaitingReply
                && #[trigger] events[i] == Event::ReplyReceived(None)
                ==> finishes_rpc_error(actions[i], receive_failure_message()),
{
    assert forall|i: int|
        0 <= i < actions.len() && #[trigger] actions[i] is SendQuery
            implies actions[i]->SendQuery_0.timeout_ms == options.ttl as u64 by {
        lemma_run_keeps_attributes(invs, events, actions, i);
        assert(step_spec(invs[i], events[i], invs[i + 1], actions[i]));
    }
    assert forall|i: int|
        0 <= i < events.len() && invs[i].phase == Phase::AwaitingReply
            && #[trigger] events[i] == Event::ReplyReceived(None)
            implies finishes_rpc_error(actions[i], receive_failure_message()) by {
        assert(step_spec(invs[i], events[i], invs[i + 1], actions[i]));
    }
}

/// An invocation without a payload declares the `Unspecified` payload format
/// and issues no query with a body.
pub proof fn lemma_no_payload_no_body(
    source: Uri,
    method: Uri,
    options: CallOptions,
    generated_id: Uuid,
    invs: Seq<Invocation>,
    events: Seq<Event>,
    actions: Seq<Action>,
)
    requires
        is_run(invs, events, actions),
        invs[0] == initial_invocation(source, method, options, None, generated_id),
    ensures
        invs[0].attributes.payload_format == PayloadFormat::Unspecified,
        forall|i: int|
            0 <= i < actions.len() && #[trigger] actions[i] is SendQuery
                ==> actions[i]->SendQuery_0.body is None,
{
    assert forall|i: int| 0 <= i < actions.len() && #[trigger] actions[i] is SendQuery implies
        actions[i]->SendQuery_0.body is None by {
        lemma_run_keeps_no_body(invs, events, actions, i);
        assert(step_spec(invs[i], events[i], invs[i + 1], actions[i]));
    }
}

/// A valid reply whose attachment cannot be decoded still completes the call,
/// with the reply's bytes and the `Unspecified` format.
pub proof fn lemma_undecodable_reply_attachment(
    before: Invocation,
    reply_bytes: Vec<u8>,
    after: Invocation,
    action: Action,
)
    requires
        before.phase == Phase::AwaitingReply,
        step_spec(
            before,
            Event::ReplyReceived(
                Some(
                    Reply::Sample {
                        payload: reply_bytes,
                        attachment: ReplyAttachment::Undecodable,
                    },
                ),
            ),
            after,
            action,
        ),
    ensures
        after.phase == Phase::Completed,
        action == Action::Finish(
            Ok(Some(Payload { data: reply_bytes, format: PayloadFormat::Unspecified })),
        ),
{
}

/// When the request attributes cannot be encoded, the invocation ends at once
/// with an `Internal` error and no query is issued afterwards, whatever else
/// the driver reports.
pub proof fn lemma_encode_failure_sends_nothing(
    invs: Seq<Invocation>,
    events: Seq<Event>,
    actions: Seq<Action>,
)
    requires
        is_run(invs, events, actions),
        events.len() > 0,
        invs[0].phase == Phase::Built,
        events[0] == Event::AttachmentEncoded(None),
    ensures
        finishes_internal(actions[0], encode_failure_message()),
        actions[0] matches Action::Finish(Err(InvocationError::Internal(_))),
        forall|i: int| 0 <= i < actions.len() ==> !(#[trigger] actions[i] is SendQuery),
{
    assert(step_spec(invs[0], events[0], invs[1], actions[0]));
    assert forall|i: int| 0 <= i < actions.len() implies !(#[trigger] actions[i] is SendQuery) by {
        assert(step_spec(invs[i], events[i], invs[i + 1], actions[i]));
        if i > 0 {
            assert(step_spec(invs[i - 1], events[i - 1], invs[i], actions[i - 1]));
            lemma_step_shape(invs[i - 1], events[i - 1], invs[i], actions[i - 1]);
        }
        lemma_step_shape(invs[i], events[i], invs[i + 1], actions[i]);
    }
}

} // verus!
