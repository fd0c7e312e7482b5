use voice_vibe_local::assistant::{
    check_assistant_run_request, check_prompt_template, prompt_template_key,
    create_assistant_session, get_or_create_assistant_session, validate_assistant_scope,
    validate_question, validate_request_id, validate_scope_and_workspace, SessionChoice,
};

#[test]
fn rejects_empty_question() {
    assert!(validate_question("   ").is_err());
}

#[test]
fn rejects_invalid_stream_request_id() {
    assert!(validate_request_id(Some("abc-123_DEF")).is_ok());
    assert!(validate_request_id(Some("../bad")).is_err());
    assert!(validate_request_id(None).is_err());
}

#[test]
fn current_scope_requires_workspace_folder() {
    let result = validate_scope_and_workspace("current", None);

    assert!(result.is_err());
}

#[test]
fn assistant_scope_accepts_global_and_current_with_folder() {
    assert_eq!(validate_assistant_scope("global", None), Ok(()));
    assert_eq!(validate_assistant_scope(" current ", Some(" space ")), Ok(()));
    assert_eq!(
        validate_assistant_scope("current", Some("  ")),
        Err("workspaceFolder is required for current scope".to_string())
    );
    assert_eq!(
        validate_assistant_scope("everything", None),
        Err("assistant scope must be current or global".to_string())
    );
}

#[test]
fn new_session_title_is_trimmed_or_defaulted() {
    let session = create_assistant_session(Some("  周会  ".to_string()));
    assert_eq!(session.title, "周会");
    assert_eq!(session.id.len(), 36);
    assert_eq!(session.created_at, session.updated_at);
    let untitled = create_assistant_session(Some("   ".to_string()));
    assert_eq!(untitled.title, "AI问答会话");
    let absent = create_assistant_session(None);
    assert_eq!(absent.title, "AI问答会话");
    assert_ne!(absent.id, untitled.id);
}

#[test]
fn named_session_is_reused_and_blank_one_creates() {
    match get_or_create_assistant_session(Some("  session-1 "), None) {
        SessionChoice::Existing(id) => assert_eq!(id, "session-1"),
        SessionChoice::Created(_) => panic!("a named session must be looked up"),
    }
    match get_or_create_assistant_session(Some("  "), Some("标题".to_string())) {
        SessionChoice::Created(s) => assert_eq!(s.title, "标题"),
        SessionChoice::Existing(_) => panic!("a blank id creates a session"),
    }
    match get_or_create_assistant_session(None, None) {
        SessionChoice::Created(s) => assert_eq!(s.title, "AI问答会话"),
        SessionChoice::Existing(_) => panic!("no id creates a session"),
    }
}

#[test]
fn rejects_path_traversal_workspace_folder() {
    let result = validate_scope_and_workspace("current", Some("../outside".to_string()));

    assert!(result.is_err());
}

#[test]
fn run_requests_are_checked_in_order() {
    let ok = check_assistant_run_request(" r1 ", " s1 ", " current ", " ws ", " 问题 ", " 8 ").unwrap();
    assert_eq!(
        (ok.request_id.as_str(), ok.session_id.as_str(), ok.scope.as_str(), ok.workspace_folder.as_str(), ok.question.as_str(), ok.max_turns.as_str()),
        ("r1", "s1", "current", "ws", "问题", "8")
    );
    let err = |r: Result<_, String>| r.err().unwrap();
    assert_eq!(err(check_assistant_run_request(" ", "", "x", "", "", "")), "requestId is required");
    assert_eq!(err(check_assistant_run_request("r", " ", "x", "", "", "")), "sessionId is required");
    assert_eq!(err(check_assistant_run_request("r", "s", "x", " ", "", "")), "workspaceFolder is required for assistant runs");
    assert_eq!(err(check_assistant_run_request("r", "s", "x", "w", " ", "")), "assistant run question is required");
    assert_eq!(err(check_assistant_run_request("r", "s", "x", "w", "q", " ")), "assistant run maxTurns is required");
    assert_eq!(err(check_assistant_run_request("r", "s", "x", "w", "q", "5")), "assistant scope must be current or global");
    assert_eq!(prompt_template_key(None), "builtin-local-notes-qa");
    assert_eq!(prompt_template_key(Some("  ")), "builtin-local-notes-qa");
    assert_eq!(prompt_template_key(Some(" custom ")), "custom");
    assert_eq!(check_prompt_template(" \n"), Err("assistant prompt template prompt is empty".to_string()));
    assert_eq!(check_prompt_template("回答"), Ok(()));
}
