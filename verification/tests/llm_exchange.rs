use voice_vibe_local::assistant_replies::{
    sidecar_answer, stream_event_effect, streaming_request, StreamEventEffect,
};
use voice_vibe_local::llm_exchange::{
    chat_completion_body, chat_completion_content, content_from_reply, request_timeout_secs,
    SYSTEM_PROMPT,
};
use voice_vibe_local::settings::get_settings;
use voice_vibe_local::sidecar_requests::{prepare_model_request, RequestValue};

#[test]
fn chat_reply_text_is_taken_from_the_message_content() {
    let raw = r#"{"choices":[{"message":{"role":"assistant","content":"  总结完成  "}}]}"#;
    assert_eq!(chat_completion_content(true, "200 OK", raw), Ok("总结完成".to_string()));
}

#[test]
fn chat_reply_falls_back_to_the_completion_text() {
    let raw = r#"{"choices":[{"text":"plain"}]}"#;
    assert_eq!(chat_completion_content(true, "200 OK", raw), Ok("plain".to_string()));
    let raw = r#"{"choices":[{"message":{"content":null},"text":"fallback"}]}"#;
    assert_eq!(chat_completion_content(true, "200 OK", raw), Ok("fallback".to_string()));
}

#[test]
fn chat_reply_errors_name_what_is_wrong() {
    assert_eq!(
        chat_completion_content(true, "200 OK", "{}"),
        Err("LLM response did not include message content: {}".to_string())
    );
    assert_eq!(
        chat_completion_content(true, "200 OK", r#"{"choices":[{"message":{"content":"   "}}]}"#),
        Err("LLM returned empty content".to_string())
    );
    assert_eq!(
        chat_completion_content(false, "401 Unauthorized", r#"{"error":"bad key"}"#),
        Err(r#"LLM returned HTTP 401 Unauthorized: {"error":"bad key"}"#.to_string())
    );
    assert_eq!(
        chat_completion_content(false, "500 Internal Server Error", r#"{ "error" : "x" }"#),
        Err(r#"LLM returned HTTP 500 Internal Server Error: {"error":"x"}"#.to_string())
    );
    let unparsed = chat_completion_content(false, "500 Internal Server Error", "not json");
    assert!(unparsed.unwrap_err().starts_with("Failed to parse LLM response: "));
    assert_eq!(
        content_from_reply(None, Some(" t ".to_string()), "x"),
        Ok("t".to_string())
    );
}

#[test]
fn chat_request_body_carries_model_messages_and_limits() {
    let settings = get_settings(
        &vec![
            ("llm_model".to_string(), "m-1".to_string()),
            ("llm_max_tokens".to_string(), "512".to_string()),
            ("llm_timeout_seconds".to_string(), "0".to_string()),
        ],
        true,
    );
    let body = chat_completion_body(&settings, "hello");
    assert_eq!(body.field("model").and_then(|v| v.as_text()), Some("m-1"));
    assert_eq!(body.field("max_tokens"), Some(&RequestValue::Integer(512)));
    match body.field("messages") {
        Some(RequestValue::List(items)) => {
            assert_eq!(items.len(), 2);
            assert_eq!(items[0].field("role").and_then(|v| v.as_text()), Some("system"));
            assert_eq!(items[0].field("content").and_then(|v| v.as_text()), Some(SYSTEM_PROMPT));
            assert_eq!(items[1].field("content").and_then(|v| v.as_text()), Some("hello"));
        }
        _ => panic!("messages is not a list"),
    }
    assert_eq!(request_timeout_secs(&settings), 1);
}

#[test]
fn stream_events_update_the_run_only_for_deltas_and_turns() {
    let (name, effect) = stream_event_effect(Some("delta"), Some("abc"), None, None);
    assert_eq!(name, "delta");
    assert!(matches!(effect, StreamEventEffect::AppendDelta(ref t) if t == "abc"));
    let (_, effect) = stream_event_effect(Some("turn"), None, Some(3), Some("8".to_string()));
    assert!(matches!(
        effect,
        StreamEventEffect::UpdateTurn { current_turn: 3, max_turns: Some(ref m) } if m == "8"
    ));
    let (name, effect) = stream_event_effect(None, Some("x"), Some(1), None);
    assert_eq!(name, "progress");
    assert!(matches!(effect, StreamEventEffect::Nothing));
    let (_, effect) = stream_event_effect(Some("delta"), None, Some(2), None);
    assert!(matches!(effect, StreamEventEffect::Nothing));
}

#[test]
fn an_assistant_answer_must_not_be_blank() {
    assert_eq!(sidecar_answer(true, Some("  答案 ")), Ok("答案".to_string()));
    assert_eq!(
        sidecar_answer(true, Some("   ")),
        Err("ASSISTANT_SIDECAR_FAILED: sidecar returned empty answer".to_string())
    );
    assert_eq!(
        sidecar_answer(false, Some("x")),
        Err("ASSISTANT_SIDECAR_FAILED: sidecar response missing result".to_string())
    );
    let request = streaming_request(prepare_model_request("a", "r", "t", "s"), "run-9");
    assert_eq!(request.id, "run-9");
    assert_eq!(request.request_type, "ask_local_notes_stream");
    assert_eq!(request.payload.len(), 3);
}
