//! The public gateway's decisions: Bearer authentication of management
//! requests, the admission of Telnyx webhooks, and the internal server URLs
//! that admitted requests are forwarded to.
use vstd::prelude::*;

use crate::signature::{signature_verdict, verify_telnyx_signature, SignatureError};

verus! {

/// Proof that a management request carried the right Bearer token.
#[derive(Debug)]
pub struct BearerAuth;

/// A management request without the right Bearer token; answered with
/// `401` and the body `{"error":"unauthorized"}`.
#[derive(Debug)]
pub struct Unauthorized;

/// The `Authorization` header value that the gateway accepts.
pub open spec fn expected_authorization(api_secret_key: Seq<char>) -> Seq<char> {
    "Bearer "@ + api_secret_key
}

impl BearerAuth {
    /// Admits a request whose `Authorization` header, read as text, is
    /// `"Bearer "` followed by exactly the secret. `authorization` is `None`
    /// when the header is absent or not visible ASCII.
    pub fn authorize(authorization: Option<&str>, api_secret_key: &str) -> (r: Result<
        BearerAuth,
        Unauthorized,
    >)
        ensures
            r is Ok <==> (authorization matches Some(h) && h@ == expected_authorization(
                api_secret_key@,
            )),
    {
        match authorization {
            None => Err(Unauthorized),
            Some(h) => {
                let mut expected = String::from_str("Bearer ");
                expected.append(api_secret_key);
                let given = String::from_str(h);
                if given == expected {
                    Ok(BearerAuth)
                } else {
                    Err(Unauthorized)
                }
            },
        }
    }
}

/// What becomes of a webhook that reaches the gateway.
#[derive(Debug)]
pub enum WebhookAdmission {
    /// A signature header is missing: `400`.
    MissingHeader,
    /// The signature does not verify: `401`.
    Rejected(SignatureError),
    /// Forward the raw body to the internal server.
    Forward,
}

impl WebhookAdmission {
    /// The HTTP status that answers a refused webhook; `None` when it is forwarded.
    pub fn refusal_status(&self) -> (s: Option<u16>)
        ensures
            s == match self {
                WebhookAdmission::MissingHeader => Some(400u16),
                WebhookAdmission::Rejected(_) => Some(401u16),
                WebhookAdmission::Forward => None,
            },
    {
        match self {
            WebhookAdmission::MissingHeader => Some(400),
            WebhookAdmission::Rejected(_) => Some(401),
            WebhookAdmission::Forward => None,
        }
    }
}

/// Decides on a webhook from its `telnyx-timestamp` and
/// `telnyx-signature-ed25519` headers (`None` when absent or not text) and
/// its raw body: a missing header is a bad request, a signature that does not
/// verify under `public_key_b64` is rejected, anything else is forwarded.
pub fn admit_webhook(
    public_key_b64: &str,
    timestamp: Option<&str>,
    signature: Option<&str>,
    body: &[u8],
) -> (a: WebhookAdmission)
    ensures
        match (timestamp, signature) {
            (Some(t), Some(s)) => match signature_verdict(public_key_b64@, t@, body@, s@) {
                Ok(()) => a is Forward,
                Err(m) => a matches WebhookAdmission::Rejected(e) && e.0@ == m,
            },
            _ => a is MissingHeader,
        },
{
    let t = match timestamp {
        Some(t) => t,
        None => return WebhookAdmission::MissingHeader,
    };
    let s = match signature {
        Some(s) => s,
        None => return WebhookAdmission::MissingHeader,
    };
    match verify_telnyx_signature(public_key_b64, t, body, s) {
        Ok(()) => WebhookAdmission::Forward,
        Err(e) => WebhookAdmission::Rejected(e),
    }
}

/// An endpoint of the management API, as served by the internal server and
/// proxied by the gateway.
#[derive(Debug)]
pub enum ManagementRoute {
    /// `GET /calls`
    ListCalls,
    /// `POST /calls/outbound`
    Outbound,
    /// `POST /calls/{id}/hangup`
    Hangup(String),
    /// `POST /calls/{id}/hold`
    Hold(String),
    /// `POST /calls/{id}/transfer`
    Transfer(String),
}

/// The path of a management endpoint.
pub open spec fn route_path(route: ManagementRoute) -> Seq<char> {
    match route {
        ManagementRoute::ListCalls => "/calls"@,
        ManagementRoute::Outbound => "/calls/outbound"@,
        ManagementRoute::Hangup(id) => "/calls/"@ + id@ + "/hangup"@,
        ManagementRoute::Hold(id) => "/calls/"@ + id@ + "/hold"@,
        ManagementRoute::Transfer(id) => "/calls/"@ + id@ + "/transfer"@,
    }
}

impl ManagementRoute {
    /// Whether the endpoint is reached with `GET` (else `POST`).
    pub fn is_get(&self) -> (g: bool)
        ensures
            g == (*self is ListCalls),
    {
        match self {
            ManagementRoute::ListCalls => true,
            _ => false,
        }
    }

    /// The endpoint's URL under `base_url`: the base followed by the path.
    pub fn url(&self, base_url: &str) -> (u: String)
        ensures
            u@ == base_url@ + route_path(*self),
    {
        let mut u = String::from_str(base_url);
        match self {
            ManagementRoute::ListCalls => u.append("/calls"),
            ManagementRoute::Outbound => u.append("/calls/outbound"),
            ManagementRoute::Hangup(id) => {
                u.append("/calls/");
                u.append(id.as_str());
                u.append("/hangup");
            },
            ManagementRoute::Hold(id) => {
                u.append("/calls/");
                u.append(id.as_str());
                u.append("/hold");
            },
            ManagementRoute::Transfer(id) => {
                u.append("/calls/");
                u.append(id.as_str());
                u.append("/transfer");
            },
        }
        u
    }
}

/// The internal server's webhook endpoint under `base_url`.
pub fn webhook_forward_url(base_url: &str) -> (u: String)
    ensures
        u@ == base_url@ + "/webhooks/telnyx"@,
{
    let mut u = String::from_str(base_url);
    u.append("/webhooks/telnyx");
    u
}

} // verus!
