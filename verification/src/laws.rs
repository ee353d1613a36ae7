//! Properties of the call store and of webhook handling that span several
//! operations, stated over the models that the operations' contracts use.
use vstd::prelude::*;

use crate::models::{
    Call, CallDirection, CallHangupPayload, CallInitiatedPayload, CallStatus, WebhookPayload,
};
use crate::signature::{
    base64_standard_decode, ed25519_key_decodes, ed25519_strict_accepts, signature_verdict,
    signed_message,
};
use vstd::utf8::encode_utf8;
use crate::server::{initiated_call, webhook_step, with_ended, WebhookAction};
use crate::error::{error_status, CoreError};
use crate::store::{has_control_id, keyed_by_id, not_found, with_status};

verus! {

/// A call filed by `insert_call` is what `get_call` then returns for its identifier.
pub proof fn law_get_after_insert(m: Map<u128, Call>, c: Call)
    ensures
        m.insert(c.id, c).contains_key(c.id),
        m.insert(c.id, c)[c.id] == c,
{
}

/// Inserting a call under its own identifier keeps every record filed under its own identifier.
pub proof fn law_insert_keeps_keying(m: Map<u128, Call>, c: Call)
    requires
        keyed_by_id(m),
    ensures
        keyed_by_id(m.insert(c.id, c)),
{
}

/// After `remove_call`, `get_call` for the same identifier finds nothing,
/// and every other record is untouched.
pub proof fn law_get_after_remove(m: Map<u128, Call>, id: u128, other: u128)
    requires
        other != id,
    ensures
        !m.remove(id).contains_key(id),
        m.remove(id).contains_key(other) == m.contains_key(other),
        m.contains_key(other) ==> m.remove(id)[other] == m[other],
{
}

/// `update_call_status` changes the status of one record and nothing else.
pub proof fn law_update_changes_only_status(
    m: Map<u128, Call>,
    id: u128,
    status: CallStatus,
    other: u128,
)
    requires
        m.contains_key(id),
    ensures
        with_status(m, id, status)[id].status == status,
        with_status(m, id, status)[id].call_control_id == m[id].call_control_id,
        with_status(m, id, status)[id].direction == m[id].direction,
        with_status(m, id, status)[id].from == m[id].from,
        with_status(m, id, status)[id].to == m[id].to,
        with_status(m, id, status)[id].started_at == m[id].started_at,
        with_status(m, id, status)[id].ended_at == m[id].ended_at,
        with_status(m, id, status).dom() == m.dom(),
        other != id && m.contains_key(other) ==> with_status(m, id, status)[other] == m[other],
{
}

/// A `call.initiated` event followed by `call.answered` for the same control
/// id leaves the new call answered, when no earlier call had that control id.
pub proof fn law_initiated_then_answered(
    s0: Map<u128, Call>,
    p: CallInitiatedPayload,
    id: u128,
    t0: i64,
    s1: Map<u128, Call>,
    a1: WebhookAction,
    cc: String,
    id2: u128,
    t1: i64,
    s2: Map<u128, Call>,
    a2: WebhookAction,
)
    requires
        keyed_by_id(s0),
        !has_control_id(s0, p.call_control_id@),
        cc@ == p.call_control_id@,
        webhook_step(s0, WebhookPayload::Initiated(p), id, t0, s1, a1),
        webhook_step(s1, WebhookPayload::Answered(Some(cc)), id2, t1, s2, a2),
    ensures
        s2.contains_key(id),
        s2[id] == (Call { status: CallStatus::Answered, ..initiated_call(p, id, t0) }),
        a2 is Nothing,
{
    assert(s1.contains_key(id) && s1[id].call_control_id@ == cc@);
    let k = choose|k: u128|
        #![trigger s1.contains_key(k)]
        s1.contains_key(k) && s1[k].call_control_id@ == cc@ && s2 == with_status(
            s1,
            k,
            CallStatus::Answered,
        );
    if k != id {
        assert(s0.contains_key(k));
    }
}

/// A `call.initiated` event followed by `call.hangup` for the same control id
/// leaves the new call completed and ended at the hang-up time, when no
/// earlier call had that control id.
pub proof fn law_initiated_then_hangup(
    s0: Map<u128, Call>,
    p: CallInitiatedPayload,
    id: u128,
    t0: i64,
    s1: Map<u128, Call>,
    a1: WebhookAction,
    h: crate::models::CallHangupPayload,
    id2: u128,
    t1: i64,
    s2: Map<u128, Call>,
    a2: WebhookAction,
)
    requires
        keyed_by_id(s0),
        !has_control_id(s0, p.call_control_id@),
        h.call_control_id@ == p.call_control_id@,
        webhook_step(s0, WebhookPayload::Initiated(p), id, t0, s1, a1),
        webhook_step(s1, WebhookPayload::Hangup(h), id2, t1, s2, a2),
    ensures
        s2.contains_key(id),
        s2[id] == (Call {
            status: CallStatus::Completed,
            ended_at: Some(t1),
            ..initiated_call(p, id, t0)
        }),
        a2 is Nothing,
{
    assert(s1.contains_key(id) && s1[id].call_control_id@ == h.call_control_id@);
    let k = choose|k: u128|
        #![trigger s1.contains_key(k)]
        s1.contains_key(k) && s1[k].call_control_id@ == h.call_control_id@ && s2 == with_ended(
            s1,
            k,
            t1,
        );
    if k != id {
        assert(s0.contains_key(k));
    }
}

/// Events that the call logic does not act on never change the store, and
/// `call.answered` or `call.hangup` for a control id that no call has change
/// nothing either.
pub proof fn law_ignored_events_change_nothing(
    pre: Map<u128, Call>,
    payload: WebhookPayload,
    id: u128,
    now: i64,
    post: Map<u128, Call>,
    action: WebhookAction,
)
    requires
        webhook_step(pre, payload, id, now, post, action),
        match payload {
            WebhookPayload::Initiated(_) => false,
            WebhookPayload::Answered(Some(cc)) => !has_control_id(pre, cc@),
            WebhookPayload::Hangup(h) => !has_control_id(pre, h.call_control_id@),
            _ => true,
        },
    ensures
        post == pre,
        action is Nothing,
{
}

/// A management command on a call that the store does not hold is answered
/// with `404`: the `CallNotFound` error of the store maps to that status.
pub proof fn law_unknown_call_is_404(e: CoreError, key: Seq<char>)
    requires
        not_found(e, key),
    ensures
        error_status(e) == 404,
{
}

/// `call.hangup` for a control id that a call holds completes that call,
/// whatever its status was, records the hang-up time as its end, leaves its
/// other fields as they were, and keeps the same set of calls.
pub proof fn law_hangup_completes_the_call(
    pre: Map<u128, Call>,
    h: CallHangupPayload,
    id: u128,
    now: i64,
    post: Map<u128, Call>,
    action: WebhookAction,
)
    requires
        webhook_step(pre, WebhookPayload::Hangup(h), id, now, post, action),
        has_control_id(pre, h.call_control_id@),
    ensures
        exists|k: u128|
            #![trigger pre.contains_key(k)]
            pre.contains_key(k) && pre[k].call_control_id@ == h.call_control_id@ && post.contains_key(k)
                && post[k].status == CallStatus::Completed && post[k].ended_at == Some(now)
                && post[k].id == pre[k].id && post[k].call_control_id == pre[k].call_control_id
                && post[k].direction == pre[k].direction && post[k].from == pre[k].from
                && post[k].to == pre[k].to && post[k].started_at == pre[k].started_at,
        post.dom() == pre.dom(),
        action is Nothing,
{
    let k = choose|k: u128|
        #![trigger pre.contains_key(k)]
        pre.contains_key(k) && pre[k].call_control_id@ == h.call_control_id@ && post == with_ended(
            pre,
            k,
            now,
        );
    assert(post.dom() =~= pre.dom());
}

/// `call.initiated` files under the new identifier a call whose parties are
/// the payload's `from` and `to`, as given, for every direction; its control
/// id is the payload's, its direction the one the payload names, its status
/// `Initiated`, started now and not ended.
pub proof fn law_initiated_records_the_payload(
    pre: Map<u128, Call>,
    p: CallInitiatedPayload,
    id: u128,
    now: i64,
    post: Map<u128, Call>,
    action: WebhookAction,
)
    requires
        webhook_step(pre, WebhookPayload::Initiated(p), id, now, post, action),
    ensures
        post.contains_key(id),
        post[id].id == id,
        post[id].from == p.from,
        post[id].to == p.to,
        post[id].call_control_id == p.call_control_id,
        post[id].direction == (if p.direction@ == "inbound"@ {
            CallDirection::Inbound
        } else {
            CallDirection::Outbound
        }),
        post[id].status == CallStatus::Initiated,
        post[id].started_at == now,
        post[id].ended_at is None,
        action is Answer,
{
}

/// The HTTP status of a failed request, by the kind of error: every failure
/// of Telnyx or of the network is `502`, whatever status Telnyx returned;
/// `404` is given to an unknown call and to nothing else; all else is `500`.
pub proof fn law_error_status_by_kind(e: CoreError)
    ensures
        e is TelnyxApi ==> error_status(e) == 502,
        e is Http ==> error_status(e) == 502,
        error_status(e) == 404 <==> e is CallNotFound,
        (e is Serialization || e is MissingEnvVar || e is VoiceTextApi) ==> error_status(e) == 500,
{
}

/// The signed message is the timestamp's UTF-8 bytes, the byte `|`, and the
/// whole body: its length is their sum, it starts with the timestamp and
/// ends with the entire body.
pub proof fn law_signed_message_is_timestamp_bar_body(timestamp: Seq<char>, body: Seq<u8>)
    ensures
        signed_message(timestamp, body).len() == encode_utf8(timestamp).len() + 1 + body.len(),
        signed_message(timestamp, body).subrange(0, encode_utf8(timestamp).len() as int)
            == encode_utf8(timestamp),
        signed_message(timestamp, body)[encode_utf8(timestamp).len() as int] == 124u8,
        signed_message(timestamp, body).subrange(
            encode_utf8(timestamp).len() as int + 1,
            signed_message(timestamp, body).len() as int,
        ) == body,
{
    let m = signed_message(timestamp, body);
    let t = encode_utf8(timestamp);
    assert(m.subrange(0, t.len() as int) =~= t);
    assert(m.subrange(t.len() as int + 1, m.len() as int) =~= body);
}

/// A well-formed key and signature are judged by the Ed25519 check over the
/// timestamp, `|` and the whole body, for bodies of any length: the webhook
/// is accepted exactly when that check accepts.
pub proof fn law_signature_covers_whole_body(
    public_key_b64: Seq<char>,
    timestamp: Seq<char>,
    body: Seq<u8>,
    signature_b64: Seq<char>,
    key: Seq<u8>,
    sig: Seq<u8>,
)
    requires
        base64_standard_decode(public_key_b64) == Some(key),
        key.len() == 32,
        ed25519_key_decodes(key),
        base64_standard_decode(signature_b64) == Some(sig),
        sig.len() == 64,
    ensures
        signature_verdict(public_key_b64, timestamp, body, signature_b64) is Ok
            <==> ed25519_strict_accepts(key, encode_utf8(timestamp) + seq![124u8] + body, sig),
{
}

} // verus!
