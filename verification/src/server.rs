//! The call logic of the internal server: what each Telnyx webhook event does
//! to the call store, how an outbound call is recorded, and how management
//! commands change a call's status.
use vstd::prelude::*;

use crate::error::CoreError;
use crate::models::{
    Call, CallDirection, CallHangupPayload, CallInitiatedPayload, CallStatus, TelnyxWebhook,
    WebhookPayload,
};
use crate::store::{
    get_call_by_control_id, has_control_id, insert_call, keyed_by_id, not_found,
    update_call_status, with_status, CallStore,
};
use crate::text::uuid_text;

verus! {

/// What the caller has to do once an event has been applied to the store.
#[derive(Debug)]
pub enum WebhookAction {
    /// Answer the call with this call control id through Telnyx.
    Answer(String),
    /// Nothing further.
    Nothing,
}

/// The record that a `call.initiated` event creates.
pub open spec fn initiated_call(p: CallInitiatedPayload, id: u128, now: i64) -> Call {
    Call {
        id,
        call_control_id: p.call_control_id,
        direction: CallDirection::spec_from_payload(p.direction@),
        from: p.from,
        to: p.to,
        status: CallStatus::Initiated,
        started_at: now,
        ended_at: None,
    }
}

/// `m` with the record under `id` marked completed, ended at `now`.
pub open spec fn with_ended(m: Map<u128, Call>, id: u128, now: i64) -> Map<u128, Call> {
    m.insert(id, Call { status: CallStatus::Completed, ended_at: Some(now), ..m[id] })
}

/// `action` asks to answer the call with control id `cc`.
pub open spec fn answers(action: WebhookAction, cc: Seq<char>) -> bool {
    match action {
        WebhookAction::Answer(c) => c@ == cc,
        WebhookAction::Nothing => false,
    }
}

/// The effect of one webhook payload: the store before (`pre`) and after
/// (`post`), and the action left to the caller. `new_id` and `now` are the
/// identifier and the time given to a call that the event creates.
pub open spec fn webhook_step(
    pre: Map<u128, Call>,
    payload: WebhookPayload,
    new_id: u128,
    now: i64,
    post: Map<u128, Call>,
    action: WebhookAction,
) -> bool {
    match payload {
        WebhookPayload::Initiated(p) => {
            &&& post == pre.insert(new_id, initiated_call(p, new_id, now))
            &&& answers(action, p.call_control_id@)
        },
        WebhookPayload::Answered(Some(cc)) => {
            &&& action is Nothing
            &&& if has_control_id(pre, cc@) {
                exists|k: u128|
                    #![trigger pre.contains_key(k)]
                    pre.contains_key(k) && pre[k].call_control_id@ == cc@ && post == with_status(
                        pre,
                        k,
                        CallStatus::Answered,
                    )
            } else {
                post == pre
            }
        },
        WebhookPayload::Hangup(p) => {
            &&& action is Nothing
            &&& if has_control_id(pre, p.call_control_id@) {
                exists|k: u128|
                    #![trigger pre.contains_key(k)]
                    pre.contains_key(k) && pre[k].call_control_id@ == p.call_control_id@ && post
                        == with_ended(pre, k, now)
            } else {
                post == pre
            }
        },
        _ => action is Nothing && post == pre,
    }
}

/// Applies a Telnyx webhook event to the store.
///
/// - `call.initiated` files a new inbound or outbound call under `new_id`,
///   status `Initiated`, started at `now`, and asks the caller to answer it.
/// - `call.answered` marks a call with the payload's control id `Answered`.
/// - `call.hangup` marks a call with the payload's control id `Completed`
///   and records `now` as its end.
/// - Events for unknown control ids and all other event types change nothing.
pub fn apply_webhook(store: &mut CallStore, webhook: TelnyxWebhook, new_id: u128, now: i64) -> (action:
    WebhookAction)
    requires
        old(store).wf(),
    ensures
        final(store).wf(),
        webhook_step(old(store)@, webhook.data.payload, new_id, now, final(store)@, action),
        webhook.data.payload matches WebhookPayload::Initiated(p) ==> {
            &&& final(store)@.contains_key(new_id)
            &&& final(store)@[new_id].from == p.from
            &&& final(store)@[new_id].to == p.to
            &&& final(store)@[new_id].call_control_id == p.call_control_id
            &&& final(store)@[new_id].status is Initiated
        },
        webhook.data.payload matches WebhookPayload::Hangup(h) ==> (has_control_id(
            old(store)@,
            h.call_control_id@,
        ) ==> exists|k: u128|
            #![trigger old(store)@.contains_key(k)]
            old(store)@.contains_key(k) && old(store)@[k].call_control_id@ == h.call_control_id@
                && final(store)@.contains_key(k) && final(store)@[k].status is Completed
                && final(store)@[k].ended_at == Some(now)),
{
    match webhook.data.payload {
        WebhookPayload::Initiated(p) => {
            let direction = CallDirection::from_payload(p.direction.as_str());
            let answer_id = p.call_control_id.clone();
            let call = Call {
                id: new_id,
                call_control_id: p.call_control_id,
                direction,
                from: p.from,
                to: p.to,
                status: CallStatus::Initiated,
                started_at: now,
                ended_at: None,
            };
            let _ = insert_call(store, call);
            WebhookAction::Answer(answer_id)
        },
        WebhookPayload::Answered(Some(cc)) => {
            match get_call_by_control_id(store, cc.as_str()) {
                Ok(call) => {
                    let r = update_call_status(store, call.id, CallStatus::Answered);
                    assert(r is Ok);
                },
                Err(_) => {},
            }
            WebhookAction::Nothing
        },
        WebhookPayload::Hangup(p) => {
            match get_call_by_control_id(store, p.call_control_id.as_str()) {
                Ok(call) => {
                    let mut ended = call;
                    ended.status = CallStatus::Completed;
                    ended.ended_at = Some(now);
                    let _ = insert_call(store, ended);
                },
                Err(_) => {},
            }
            WebhookAction::Nothing
        },
        _ => WebhookAction::Nothing,
    }
}

/// Files the call that a successful outbound request created: direction
/// `Outbound`, status `Initiated`, started at `now`, under `new_id`. Returns
/// the record.
pub fn record_outbound_call(
    store: &mut CallStore,
    new_id: u128,
    call_control_id: String,
    from: String,
    to: String,
    now: i64,
) -> (call: Call)
    requires
        old(store).wf(),
    ensures
        final(store).wf(),
        call == (Call {
            id: new_id,
            call_control_id,
            direction: CallDirection::Outbound,
            from,
            to,
            status: CallStatus::Initiated,
            started_at: now,
            ended_at: None,
        }),
        final(store)@ == old(store)@.insert(new_id, call),
{
    let call = Call {
        id: new_id,
        call_control_id,
        direction: CallDirection::Outbound,
        from,
        to,
        status: CallStatus::Initiated,
        started_at: now,
        ended_at: None,
    };
    let _ = insert_call(store, call.clone());
    call
}

/// A management command on an existing call.
#[derive(Debug)]
pub enum CallCommand {
    Hangup,
    Hold,
    Transfer { to: String },
}

impl CallCommand {
    /// The status a call takes once Telnyx has accepted the command.
    pub open spec fn spec_resulting_status(self) -> CallStatus {
        match self {
            CallCommand::Hangup => CallStatus::Completed,
            CallCommand::Hold => CallStatus::OnHold,
            CallCommand::Transfer { .. } => CallStatus::Transferring,
        }
    }

    /// The status a call takes once Telnyx has accepted the command.
    pub fn resulting_status(&self) -> (s: CallStatus)
        ensures
            s == self.spec_resulting_status(),
    {
        match self {
            CallCommand::Hangup => CallStatus::Completed,
            CallCommand::Hold => CallStatus::OnHold,
            CallCommand::Transfer { .. } => CallStatus::Transferring,
        }
    }
}

/// Records that Telnyx accepted `command` for the call under `id`.
pub fn finish_command(store: &mut CallStore, id: u128, command: &CallCommand) -> (r: Result<
    (),
    CoreError,
>)
    requires
        old(store).wf(),
    ensures
        final(store).wf(),
        match r {
            Ok(()) => old(store)@.contains_key(id) && final(store)@ == with_status(
                old(store)@,
                id,
                command.spec_resulting_status(),
            ),
            Err(e) => !old(store)@.contains_key(id) && final(store)@ == old(store)@ && not_found(
                e,
                uuid_text(id),
            ),
        },
{
    update_call_status(store, id, command.resulting_status())
}

} // verus!
