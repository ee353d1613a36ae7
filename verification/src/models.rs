//! Domain types: call records, webhook envelopes and payloads, and the
//! request bodies sent to Telnyx.
use vstd::prelude::*;

use crate::text::str_equal;

verus! {

/// Which side placed the call.
#[derive(Debug, Clone, Copy, PartialEq, Eq, Structural)]
pub enum CallDirection {
    Inbound,
    Outbound,
}

/// Where a call stands in its life: `Initiated` → `Ringing` → `Answered` →
/// `OnHold` / `Transferring` → `Completed` / `Failed`.
#[derive(Debug, Clone, Copy, PartialEq, Eq, Structural)]
pub enum CallStatus {
    Initiated,
    Ringing,
    Answered,
    OnHold,
    Transferring,
    Completed,
    Failed,
}

impl CallDirection {
    /// The direction that a `call.initiated` payload's `direction` field names:
    /// `"inbound"` is inbound, any other value outbound.
    pub open spec fn spec_from_payload(direction: Seq<char>) -> CallDirection {
        if direction == "inbound"@ {
            CallDirection::Inbound
        } else {
            CallDirection::Outbound
        }
    }

    /// Reads the `direction` field of a `call.initiated` payload.
    pub fn from_payload(direction: &str) -> (d: CallDirection)
        ensures
            d == Self::spec_from_payload(direction@),
    {
        if str_equal(direction, "inbound") {
            CallDirection::Inbound
        } else {
            CallDirection::Outbound
        }
    }
}

/// An active call record. `id` is the call's 128-bit identifier (a UUID);
/// `started_at` and `ended_at` count nanoseconds since the Unix epoch (UTC).
#[derive(Debug)]
pub struct Call {
    pub id: u128,
    pub call_control_id: String,
    pub direction: CallDirection,
    pub from: String,
    pub to: String,
    pub status: CallStatus,
    pub started_at: i64,
    pub ended_at: Option<i64>,
}

impl Clone for Call {
    fn clone(&self) -> (c: Self)
        ensures
            c == *self,
    {
        Call {
            id: self.id,
            call_control_id: self.call_control_id.clone(),
            direction: self.direction,
            from: self.from.clone(),
            to: self.to.clone(),
            status: self.status,
            started_at: self.started_at,
            ended_at: self.ended_at,
        }
    }
}

/// Payload of a `call.initiated` event.
#[derive(Debug)]
pub struct CallInitiatedPayload {
    pub call_control_id: String,
    pub call_session_id: String,
    pub call_leg_id: String,
    pub direction: String,
    pub from: String,
    pub to: String,
}

/// Payload of a `call.hangup` event.
#[derive(Debug)]
pub struct CallHangupPayload {
    pub call_control_id: String,
    pub hangup_cause: String,
    pub hangup_source: String,
}

/// The `meta` part of a webhook envelope.
#[derive(Debug)]
pub struct TelnyxWebhookMeta {
    pub attempt: u32,
    pub delivered_to: String,
}

/// The payload of a webhook event, read according to its event type.
#[derive(Debug)]
pub enum WebhookPayload {
    /// `call.initiated`.
    Initiated(CallInitiatedPayload),
    /// `call.answered`: the payload's `call_control_id`, when it is a string.
    Answered(Option<String>),
    /// `call.hangup`.
    Hangup(CallHangupPayload),
    /// Any other event type; its payload is not read.
    Unhandled,
}

/// The `data` part of a webhook envelope.
#[derive(Debug)]
pub struct TelnyxWebhookData {
    pub event_type: String,
    pub id: String,
    pub payload: WebhookPayload,
}

/// The outer envelope of every Telnyx webhook event.
#[derive(Debug)]
pub struct TelnyxWebhook {
    pub data: TelnyxWebhookData,
    pub meta: TelnyxWebhookMeta,
}

/// The event types that the call logic acts on.
#[derive(Debug, Clone, Copy, PartialEq, Eq, Structural)]
pub enum EventKind {
    Initiated,
    Answered,
    Hangup,
    Other,
}

/// The kind of an event type string.
pub open spec fn spec_event_kind(event_type: Seq<char>) -> EventKind {
    if event_type == "call.initiated"@ {
        EventKind::Initiated
    } else if event_type == "call.answered"@ {
        EventKind::Answered
    } else if event_type == "call.hangup"@ {
        EventKind::Hangup
    } else {
        EventKind::Other
    }
}

/// Classifies a webhook's `event_type`, which decides how its payload is read.
pub fn event_kind(event_type: &str) -> (k: EventKind)
    ensures
        k == spec_event_kind(event_type@),
{
    if str_equal(event_type, "call.initiated") {
        EventKind::Initiated
    } else if str_equal(event_type, "call.answered") {
        EventKind::Answered
    } else if str_equal(event_type, "call.hangup") {
        EventKind::Hangup
    } else {
        EventKind::Other
    }
}

/// Request body for `POST /v2/calls`.
#[derive(Debug)]
pub struct OutboundCallRequest {
    pub connection_id: String,
    pub from: String,
    pub to: String,
    pub webhook_url: Option<String>,
}

/// Request body for `POST /v2/calls/{id}/actions/transfer`.
#[derive(Debug)]
pub struct TransferRequest {
    pub to: String,
    pub from: Option<String>,
}

} // verus!
