//! The library's error type and its rendering.
use vstd::prelude::*;

use crate::text::{decimal, decimal_string};

verus! {

/// What can go wrong in call handling. `Http` and `Serialization` carry the
/// rendered message of the underlying transport or JSON error.
#[derive(Debug)]
pub enum CoreError {
    Http(String),
    Serialization(String),
    CallNotFound(String),
    MissingEnvVar(String),
    TelnyxApi { status: u16, body: String },
    VoiceTextApi { status: u16, body: String },
}

/// The message of an error, as it is shown to users and in HTTP error bodies.
pub open spec fn error_message(e: CoreError) -> Seq<char> {
    match e {
        CoreError::Http(m) => "HTTP request failed: "@ + m@,
        CoreError::Serialization(m) => "Serialization error: "@ + m@,
        CoreError::CallNotFound(id) => "Call not found: "@ + id@,
        CoreError::MissingEnvVar(name) => "Missing environment variable: "@ + name@,
        CoreError::TelnyxApi { status, body } => "Telnyx API error "@ + decimal(status as nat)
            + ": "@ + body@,
        CoreError::VoiceTextApi { status, body } => "VoiceText API error "@ + decimal(
            status as nat,
        ) + ": "@ + body@,
    }
}

fn prefixed(prefix: &str, rest: &str) -> (s: String)
    ensures
        s@ == prefix@ + rest@,
{
    let mut s = String::from_str(prefix);
    s.append(rest);
    s
}

fn status_message(prefix: &str, status: u16, body: &str) -> (s: String)
    ensures
        s@ == prefix@ + decimal(status as nat) + ": "@ + body@,
{
    let mut s = String::from_str(prefix);
    let code = decimal_string(status as u64);
    s.append(code.as_str());
    s.append(": ");
    s.append(body);
    s
}

impl CoreError {
    /// Renders the error message.
    #[allow(clippy::inherent_to_string)]
    pub fn to_string(&self) -> (s: String)
        ensures
            s@ == error_message(*self),
    {
        match self {
            CoreError::Http(m) => prefixed("HTTP request failed: ", m.as_str()),
            CoreError::Serialization(m) => prefixed("Serialization error: ", m.as_str()),
            CoreError::CallNotFound(id) => prefixed("Call not found: ", id.as_str()),
            CoreError::MissingEnvVar(name) => prefixed(
                "Missing environment variable: ",
                name.as_str(),
            ),
            CoreError::TelnyxApi { status, body } => status_message(
                "Telnyx API error ",
                *status,
                body.as_str(),
            ),
            CoreError::VoiceTextApi { status, body } => status_message(
                "VoiceText API error ",
                *status,
                body.as_str(),
            ),
        }
    }
}

/// The HTTP status that answers a request failed with `e`: `404` for an
/// unknown call, `502` when Telnyx or the network failed, `500` otherwise.
pub open spec fn error_status(e: CoreError) -> u16 {
    match e {
        CoreError::CallNotFound(_) => 404,
        CoreError::Http(_) => 502,
        CoreError::TelnyxApi { .. } => 502,
        _ => 500,
    }
}

/// An error as the internal server reports it: the status of
/// `error_status` and the body `{"error": <message>}`.
#[derive(Debug)]
pub struct AppError(pub CoreError);

impl AppError {
    /// The HTTP status of the error response.
    pub fn status_code(&self) -> (s: u16)
        ensures
            s == error_status(self.0),
            (self.0 is TelnyxApi || self.0 is Http) ==> s == 502,
            s == 404 <==> self.0 is CallNotFound,
            (self.0 is Serialization || self.0 is MissingEnvVar || self.0 is VoiceTextApi) ==> s
                == 500,
    {
        match &self.0 {
            CoreError::CallNotFound(_) => 404,
            CoreError::Http(_) => 502,
            CoreError::TelnyxApi { .. } => 502,
            _ => 500,
        }
    }

    /// The `error` text of the error response.
    pub fn message(&self) -> (m: String)
        ensures
            m@ == error_message(self.0),
    {
        self.0.to_string()
    }
}

impl From<CoreError> for AppError {
    fn from(e: CoreError) -> (r: AppError) {
        AppError(e)
    }
}

impl vstd::std_specs::convert::FromSpecImpl<CoreError> for AppError {
    open spec fn obeys_from_spec() -> bool {
        true
    }

    open spec fn from_spec(e: CoreError) -> AppError {
        AppError(e)
    }
}

} // verus!
