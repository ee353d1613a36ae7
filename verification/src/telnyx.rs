//! Clients of the outside services: the Telnyx Call Control API v2 and the
//! voice/text service. The library builds each request and judges each
//! response status; sending them is the caller's part.
use vstd::prelude::*;

use crate::error::CoreError;
use crate::models::{OutboundCallRequest, TransferRequest};

verus! {

/// Where the Telnyx API lives unless another base URL is given.
pub open spec fn default_telnyx_base_url() -> Seq<char> {
    "https://api.telnyx.com/v2"@
}

/// Credentials and location of the Telnyx API.
#[derive(Debug, Clone)]
pub struct TelnyxClient {
    api_key: String,
    base_url: String,
    pub connection_id: String,
}

/// A call control action on an existing call.
#[derive(Debug)]
pub enum TelnyxAction {
    Answer,
    Hangup,
    Hold,
    Unhold,
    Transfer { to: String },
}

/// The path segment that names an action.
pub open spec fn action_name(action: TelnyxAction) -> Seq<char> {
    match action {
        TelnyxAction::Answer => "answer"@,
        TelnyxAction::Hangup => "hangup"@,
        TelnyxAction::Hold => "hold"@,
        TelnyxAction::Unhold => "unhold"@,
        TelnyxAction::Transfer { .. } => "transfer"@,
    }
}

/// The JSON body of a Telnyx request.
#[derive(Debug)]
pub enum TelnyxBody {
    /// `{}`
    Empty,
    Transfer(TransferRequest),
    Outbound(OutboundCallRequest),
}

/// A `POST` to the Telnyx API, authorized with `Bearer {api_key}`.
#[derive(Debug)]
pub struct TelnyxRequest {
    pub url: String,
    pub api_key: String,
    pub body: TelnyxBody,
}

/// What Telnyx's reply to `POST /calls` says of the new call: the string at
/// `data.call_control_id`, if there is one.
#[derive(Debug)]
pub struct OutboundCallReply {
    pub call_control_id: Option<String>,
}

impl OutboundCallReply {
    /// The new call's control id; empty when the reply does not carry one.
    pub fn control_id(self) -> (id: String)
        ensures
            id@ == match self.call_control_id {
                Some(c) => c@,
                None => Seq::<char>::empty(),
            },
    {
        match self.call_control_id {
            Some(c) => c,
            None => String::new(),
        }
    }
}

/// Whether a response status counts as success (2xx); any other status is
/// reported as `CoreError::TelnyxApi` with the response body.
pub fn is_success(status: u16) -> (ok: bool)
    ensures
        ok == (200 <= status <= 299),
{
    200 <= status && status <= 299
}

/// Judges a Telnyx response: a 2xx status is success, and any other status
/// is `CoreError::TelnyxApi` with that status and the response body.
pub fn response_verdict(status: u16, body: String) -> (r: Result<(), CoreError>)
    ensures
        r is Ok <==> 200 <= status <= 299,
        r matches Err(e) ==> (e matches CoreError::TelnyxApi { status: s, body: b } && s == status
            && b@ == body@),
{
    if is_success(status) {
        Ok(())
    } else {
        Err(CoreError::TelnyxApi { status, body })
    }
}

fn concat(a: &str, b: &str) -> (s: String)
    ensures
        s@ == a@ + b@,
{
    let mut s = String::from_str(a);
    s.append(b);
    s
}

impl TelnyxClient {
    /// The API key sent as the Bearer token.
    pub closed spec fn api_key_view(&self) -> Seq<char> {
        self.api_key@
    }

    /// The Call Control connection that outbound calls are placed on.
    pub closed spec fn connection_id_view(&self) -> Seq<char> {
        self.connection_id@
    }

    /// The base URL of the API.
    pub closed spec fn base_url_view(&self) -> Seq<char> {
        self.base_url@
    }

    /// A client for the public Telnyx API.
    pub fn new(api_key: String, connection_id: String) -> (c: Self)
        ensures
            c.api_key_view() == api_key@,
            c.connection_id_view() == connection_id@,
            c.base_url_view() == default_telnyx_base_url(),
    {
        TelnyxClient { api_key, base_url: String::from_str("https://api.telnyx.com/v2"), connection_id }
    }

    /// The same client aimed at another base URL.
    pub fn with_base_url(self, url: String) -> (c: Self)
        ensures
            c.api_key_view() == self.api_key_view(),
            c.connection_id_view() == self.connection_id_view(),
            c.base_url_view() == url@,
    {
        TelnyxClient { base_url: url, ..self }
    }

    /// A client from the values of `TELNYX_API_KEY` and
    /// `TELNYX_CONNECTION_ID` (`None` when unset); the first one missing is
    /// reported as `MissingEnvVar`.
    pub fn from_env_values(api_key: Option<String>, connection_id: Option<String>) -> (r: Result<
        Self,
        CoreError,
    >)
        ensures
            match (api_key, connection_id) {
                (Some(k), Some(c)) => r matches Ok(client) && client.api_key_view() == k@
                    && client.connection_id_view() == c@ && client.base_url_view()
                    == default_telnyx_base_url(),
                (None, _) => r matches Err(CoreError::MissingEnvVar(v)) && v@ == "TELNYX_API_KEY"@,
                (Some(_), None) => r matches Err(CoreError::MissingEnvVar(v)) && v@
                    == "TELNYX_CONNECTION_ID"@,
            },
    {
        let k = match api_key {
            Some(k) => k,
            None => return Err(CoreError::MissingEnvVar(String::from_str("TELNYX_API_KEY"))),
        };
        let c = match connection_id {
            Some(c) => c,
            None => return Err(CoreError::MissingEnvVar(String::from_str("TELNYX_CONNECTION_ID"))),
        };
        Ok(Self::new(k, c))
    }

    /// `POST {base}/calls/{call_control_id}/actions/{action}`; the body is `{}`
    /// except for a transfer, whose body names the target and no caller id.
    pub fn action_request(&self, call_control_id: &str, action: TelnyxAction) -> (req:
        TelnyxRequest)
        ensures
            req.url@ == self.base_url_view() + "/calls/"@ + call_control_id@ + "/actions/"@
                + action_name(action),
            req.api_key@ == self.api_key_view(),
            match action {
                TelnyxAction::Transfer { to } => req.body matches TelnyxBody::Transfer(t) && t.to
                    == to && t.from is None,
                _ => req.body is Empty,
            },
    {
        let mut url = concat(self.base_url.as_str(), "/calls/");
        url.append(call_control_id);
        url.append("/actions/");
        let body = match action {
            TelnyxAction::Answer => {
                url.append("answer");
                TelnyxBody::Empty
            },
            TelnyxAction::Hangup => {
                url.append("hangup");
                TelnyxBody::Empty
            },
            TelnyxAction::Hold => {
                url.append("hold");
                TelnyxBody::Empty
            },
            TelnyxAction::Unhold => {
                url.append("unhold");
                TelnyxBody::Empty
            },
            TelnyxAction::Transfer { to } => {
                url.append("transfer");
                TelnyxBody::Transfer(TransferRequest { to, from: None })
            },
        };
        TelnyxRequest { url, api_key: self.api_key.clone(), body }
    }

    /// `POST {base}/calls` placing a call from `from` to `to` on this
    /// client's connection.
    pub fn outbound_request(&self, from: &str, to: &str, webhook_url: Option<String>) -> (req:
        TelnyxRequest)
        ensures
            req.url@ == self.base_url_view() + "/calls"@,
            req.api_key@ == self.api_key_view(),
            req.body matches TelnyxBody::Outbound(o) && o.connection_id@ == self.connection_id_view()
                && o.from@ == from@ && o.to@ == to@ && o.webhook_url == webhook_url,
    {
        TelnyxRequest {
            url: concat(self.base_url.as_str(), "/calls"),
            api_key: self.api_key.clone(),
            body: TelnyxBody::Outbound(
                OutboundCallRequest {
                    connection_id: self.connection_id.clone(),
                    from: String::from_str(from),
                    to: String::from_str(to),
                    webhook_url,
                },
            ),
        }
    }
}

/// Where the voice/text service lives unless another URL is configured.
pub open spec fn default_voice_text_url() -> Seq<char> {
    "http://localhost:3300"@
}

/// Location and key of the voice/text service.
#[derive(Debug, Clone)]
pub struct VoiceTextClient {
    api_url: String,
    api_key: String,
}

impl VoiceTextClient {
    /// The service URL.
    pub closed spec fn api_url_view(&self) -> Seq<char> {
        self.api_url@
    }

    /// The service key.
    pub closed spec fn api_key_view(&self) -> Seq<char> {
        self.api_key@
    }

    /// The service URL.
    pub fn api_url(&self) -> (u: &str)
        ensures
            u@ == self.api_url_view(),
    {
        self.api_url.as_str()
    }

    /// The service key.
    pub fn api_key(&self) -> (k: &str)
        ensures
            k@ == self.api_key_view(),
    {
        self.api_key.as_str()
    }

    /// A client for the service at `api_url`.
    pub fn new(api_url: String, api_key: String) -> (c: Self)
        ensures
            c.api_url_view() == api_url@,
            c.api_key_view() == api_key@,
    {
        VoiceTextClient { api_url, api_key }
    }

    /// A client from the values of `VOICE_TEXT_API_URL` and
    /// `VOICE_TEXT_API_KEY` (`None` when unset). Both are optional: the URL
    /// defaults to `http://localhost:3300` and the key to the empty string.
    pub fn from_env_values(api_url: Option<String>, api_key: Option<String>) -> (c: Self)
        ensures
            c.api_url_view() == match api_url {
                Some(u) => u@,
                None => default_voice_text_url(),
            },
            c.api_key_view() == match api_key {
                Some(k) => k@,
                None => Seq::<char>::empty(),
            },
    {
        let u = match api_url {
            Some(u) => u,
            None => String::from_str("http://localhost:3300"),
        };
        let k = match api_key {
            Some(k) => k,
            None => String::new(),
        };
        Self::new(u, k)
    }

    /// Transcribes audio. The service's schema is not wired up yet: the
    /// transcript is always empty.
    pub fn voice_to_text(&self, audio: &[u8]) -> (r: Result<String, CoreError>)
        ensures
            r matches Ok(t) && t@.len() == 0,
    {
        Ok(String::new())
    }

    /// Synthesizes speech. The service's schema is not wired up yet: the
    /// audio is always empty.
    pub fn text_to_voice(&self, text: &str) -> (r: Result<Vec<u8>, CoreError>)
        ensures
            r matches Ok(a) && a@.len() == 0,
    {
        Ok(Vec::new())
    }
}

} // verus!
