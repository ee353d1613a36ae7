use sip_trunk::error::CoreError;
use sip_trunk::telnyx::{is_success, response_verdict, OutboundCallReply, TelnyxAction, TelnyxBody, TelnyxClient, VoiceTextClient};

fn mock_client(base_url: &str) -> TelnyxClient {
    TelnyxClient::new("test_key".to_string(), "conn_123".to_string()).with_base_url(base_url.to_string())
}

#[test]
fn call_actions_post_to_the_action_endpoint() {
    let c = mock_client("http://mock");
    for (action, name) in [
        (TelnyxAction::Answer, "answer"),
        (TelnyxAction::Hangup, "hangup"),
        (TelnyxAction::Hold, "hold"),
        (TelnyxAction::Unhold, "unhold"),
    ] {
        let req = c.action_request("ctrl_abc", action);
        assert_eq!(req.url, format!("http://mock/calls/ctrl_abc/actions/{name}"));
        assert_eq!(req.api_key, "test_key");
        assert!(matches!(req.body, TelnyxBody::Empty));
    }
}

#[test]
fn transfer_names_the_target_only() {
    let req = mock_client("http://mock").action_request("ctrl_xyz", TelnyxAction::Transfer { to: "+15553333333".to_string() });
    assert_eq!(req.url, "http://mock/calls/ctrl_xyz/actions/transfer");
    match req.body {
        TelnyxBody::Transfer(t) => {
            assert_eq!(t.to, "+15553333333");
            assert!(t.from.is_none());
        }
        other => panic!("unexpected body {:?}", other),
    }
}

#[test]
fn outbound_uses_the_client_connection() {
    let req = mock_client("http://mock").outbound_request("+15551111111", "+15552222222", None);
    assert_eq!(req.url, "http://mock/calls");
    match req.body {
        TelnyxBody::Outbound(o) => {
            assert_eq!(o.connection_id, "conn_123");
            assert_eq!(o.from, "+15551111111");
            assert_eq!(o.to, "+15552222222");
            assert!(o.webhook_url.is_none());
        }
        other => panic!("unexpected body {:?}", other),
    }
}

#[test]
fn default_base_url_is_telnyx_v2() {
    let req = TelnyxClient::new("k".to_string(), "c".to_string()).outbound_request("a", "b", Some("https://example.com/hook".to_string()));
    assert_eq!(req.url, "https://api.telnyx.com/v2/calls");
}

#[test]
fn only_2xx_is_success() {
    assert!(is_success(200));
    assert!(is_success(204));
    assert!(is_success(299));
    assert!(!is_success(199));
    assert!(!is_success(300));
    assert!(!is_success(402));
    assert!(!is_success(422));
}

#[test]
fn missing_configuration_is_named() {
    assert!(matches!(
        TelnyxClient::from_env_values(None, Some("c".to_string())),
        Err(CoreError::MissingEnvVar(v)) if v == "TELNYX_API_KEY"
    ));
    assert!(matches!(
        TelnyxClient::from_env_values(Some("k".to_string()), None),
        Err(CoreError::MissingEnvVar(v)) if v == "TELNYX_CONNECTION_ID"
    ));
    let c = TelnyxClient::from_env_values(Some("k".to_string()), Some("c".to_string())).unwrap();
    assert_eq!(c.connection_id, "c");
}

#[test]
fn voice_text_settings_are_optional() {
    // Both variables may be unset: the client still works with defaults.
    let c = VoiceTextClient::from_env_values(None, None);
    assert_eq!(c.api_url(), "http://localhost:3300");
    assert_eq!(c.api_key(), "");
    assert_eq!(c.voice_to_text(b"x").unwrap(), "");
    let c = VoiceTextClient::from_env_values(Some("http://vt:1".to_string()), Some("key".to_string()));
    assert_eq!(c.api_url(), "http://vt:1");
    assert_eq!(c.api_key(), "key");
    assert!(c.text_to_voice("hi").unwrap().is_empty());
}

#[test]
fn outbound_reply_gives_the_control_id() {
    let reply = OutboundCallReply { call_control_id: Some("ctrl_outbound_new".to_string()) };
    assert_eq!(reply.control_id(), "ctrl_outbound_new");
    assert_eq!(OutboundCallReply { call_control_id: None }.control_id(), "");
}

fn stub_client() -> VoiceTextClient {
    VoiceTextClient::new("http://localhost:9999".to_string(), "key".to_string())
}

#[test]
fn test_voice_to_text_returns_empty_placeholder() {
    let result = stub_client().voice_to_text(b"fake audio bytes").unwrap();
    assert_eq!(result, "");
}

#[test]
fn test_text_to_voice_returns_empty_placeholder() {
    let result = stub_client().text_to_voice("hello world").unwrap();
    assert!(result.is_empty());
}

#[test]
fn response_verdict_accepts_2xx() {
    assert!(response_verdict(200, String::from("{}")).is_ok());
    assert!(response_verdict(204, String::new()).is_ok());
    assert!(response_verdict(299, String::from("x")).is_ok());
}

#[test]
fn response_verdict_reports_status_and_body() {
    match response_verdict(422, String::from("{\"errors\":[]}")) {
        Err(CoreError::TelnyxApi { status, body }) => {
            assert_eq!(status, 422);
            assert_eq!(body, "{\"errors\":[]}");
        }
        other => panic!("unexpected {:?}", other),
    }
    assert!(matches!(response_verdict(199, String::new()), Err(CoreError::TelnyxApi { status: 199, .. })));
    assert!(matches!(response_verdict(300, String::new()), Err(CoreError::TelnyxApi { status: 300, .. })));
}
