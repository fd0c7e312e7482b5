use voice_vibe_local::runtime::{
    idle_ttl_for_profile, reply_error_message, request_profile, ASR_DICTATION_IDLE_TTL_SECS,
    ASR_IDLE_TTL_SECS,
};

fn profile_of(request: &serde_json::Value) -> Option<&str> {
    request.pointer("/payload/profile").and_then(|value| value.as_str())
}

#[test]
fn dictation_requests_use_longer_idle_ttl_than_meeting_requests() {
    let dictation: serde_json::Value =
        serde_json::from_str(r#"{"type":"transcribe","payload":{"profile":"dictation"}}"#).unwrap();
    let meeting: serde_json::Value =
        serde_json::from_str(r#"{"type":"transcribe","payload":{"profile":"meeting_full"}}"#)
            .unwrap();
    let legacy: serde_json::Value =
        serde_json::from_str(r#"{"type":"transcribe","payload":{}}"#).unwrap();

    assert_eq!(idle_ttl_for_profile(profile_of(&dictation)), ASR_DICTATION_IDLE_TTL_SECS);
    assert_eq!(idle_ttl_for_profile(profile_of(&meeting)), ASR_IDLE_TTL_SECS);
    assert_eq!(idle_ttl_for_profile(profile_of(&legacy)), ASR_IDLE_TTL_SECS);
    assert!(ASR_DICTATION_IDLE_TTL_SECS > ASR_IDLE_TTL_SECS);
}

#[test]
fn request_profiles() {
    assert_eq!(request_profile(Some("dictation")), "dictation");
    assert_eq!(request_profile(Some("other")), "meeting_full");
    assert_eq!(request_profile(None), "meeting_full");
}

#[test]
fn sidecar_replies_report_their_errors() {
    assert_eq!(reply_error_message(Some(true), Some("X"), Some("y"), "d"), None);
    assert_eq!(reply_error_message(None, Some("X"), Some("y"), "d"), None);
    assert_eq!(
        reply_error_message(Some(false), Some("MODEL_MISSING"), Some("no model"), "d"),
        Some("MODEL_MISSING: no model".to_string())
    );
    assert_eq!(
        reply_error_message(Some(false), None, None, "Python sidecar failed"),
        Some("SIDECAR_ERROR: Python sidecar failed".to_string())
    );
}
