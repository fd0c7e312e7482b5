use voice_vibe_local::sidecar_output::{
    final_json_line, reply_line_error, sidecar_outcome, stream_line, streaming_outcome, StreamLine,
};

#[test]
fn the_reply_is_the_last_json_line() {
    assert_eq!(
        final_json_line("loading\n{\"step\":1}\r\n  {\"ok\":true}\ndone\n"),
        Ok("  {\"ok\":true}".to_string())
    );
    assert_eq!(
        final_json_line("  hello \n"),
        Err("Sidecar returned no JSON response. stdout=hello".to_string())
    );
    assert_eq!(final_json_line("{\"a\":1}\r\n"), Ok("{\"a\":1}".to_string()));
}

#[test]
fn reply_errors_carry_their_code_and_message() {
    assert_eq!(
        reply_line_error(r#"{"ok":false,"error":{"code":"E1","message":"boom"}}"#),
        Some("E1: boom".to_string())
    );
    assert_eq!(
        reply_line_error(r#"{"ok":false}"#),
        Some("SIDECAR_ERROR: Python sidecar failed".to_string())
    );
    assert_eq!(reply_line_error(r#"{"ok":true,"error":{"code":"E"}}"#), None);
}

#[test]
fn run_outcomes_prefer_the_replys_own_error() {
    let ok = "log\n{\"ok\":true,\"result\":{}}\n";
    assert_eq!(sidecar_outcome(true, "exit status: 0", ok, ""), Ok("{\"ok\":true,\"result\":{}}".to_string()));
    let failed = "{\"ok\":false,\"error\":{\"code\":\"E\",\"message\":\"bad input\"}}";
    assert_eq!(
        sidecar_outcome(true, "exit status: 0", failed, ""),
        Err("E: bad input".to_string())
    );
    assert_eq!(
        sidecar_outcome(false, "exit status: 1", failed, "trace"),
        Err("E: bad input".to_string())
    );
    assert_eq!(
        sidecar_outcome(false, "exit status: 1", " out ", " trace "),
        Err("Sidecar exited with status exit status: 1: stdout=out; stderr=trace".to_string())
    );
    assert_eq!(
        sidecar_outcome(false, "exit status: 2", "", ""),
        Err("Sidecar exited with status exit status: 2: no output".to_string())
    );
    let invalid = sidecar_outcome(true, "exit status: 0", "{not json", "").unwrap_err();
    assert!(invalid.starts_with("Invalid sidecar JSON response: "));
    assert!(invalid.ends_with("; line={not json"));
}

#[test]
fn stream_lines_are_events_replies_or_text() {
    assert!(matches!(stream_line("   "), StreamLine::Blank));
    assert!(matches!(stream_line(" progress 10% "), StreamLine::Text(ref t) if t == "progress 10%"));
    assert!(matches!(
        stream_line(r#" {"event":"delta","text":"a"} "#),
        StreamLine::Event(ref t) if t == r#"{"event":"delta","text":"a"}"#
    ));
    assert!(matches!(stream_line(r#"{"ok":true}"#), StreamLine::Reply(_)));
    assert!(matches!(
        stream_line("{oops"),
        StreamLine::Invalid(ref e) if e.starts_with("Invalid sidecar JSONL event: ") && e.ends_with("; line={oops")
    ));
}

#[test]
fn streaming_outcomes_need_a_final_reply() {
    let lines = vec!["working".to_string(), "{\"event\":\"turn\"}".to_string()];
    assert_eq!(
        streaming_outcome(true, "exit status: 0", &lines, "", None),
        Err("Sidecar returned no final JSON response. stdout=working\n{\"event\":\"turn\"}".to_string())
    );
    assert_eq!(
        streaming_outcome(true, "exit status: 0", &lines, "", Some("{\"ok\":true}".to_string())),
        Ok("{\"ok\":true}".to_string())
    );
    assert_eq!(
        streaming_outcome(false, "exit status: 1", &lines, "", None),
        Err("Sidecar exited with status exit status: 1: working\n{\"event\":\"turn\"}".to_string())
    );
}
