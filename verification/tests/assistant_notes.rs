use voice_vibe_local::assistant::{
    answer_note_markdown, check_reused_user_message, session_note_markdown, session_title,
    sources_markdown, structured_error, validate_assistant_message, validate_llm_settings,
    validate_sidecar_sources, AssistantMessage, AssistantSession, AssistantSource,
};

fn note_source(title: &str, start: Option<u64>, end: Option<u64>) -> AssistantSource {
    AssistantSource {
        id: "s1".to_string(),
        note_id: "n1".to_string(),
        title: title.to_string(),
        workspace_folder: Some("space-a".to_string()),
        start_line: start,
        end_line: end,
        source_type: None,
        url: None,
    }
}

fn web_source(url: &str) -> AssistantSource {
    AssistantSource {
        id: "w1".to_string(),
        note_id: String::new(),
        title: "Page".to_string(),
        workspace_folder: None,
        start_line: None,
        end_line: None,
        source_type: Some("web".to_string()),
        url: Some(url.to_string()),
    }
}

fn message(role: &str, content: &str, sources: Vec<AssistantSource>) -> AssistantMessage {
    AssistantMessage {
        id: "m".to_string(),
        session_id: "s".to_string(),
        role: role.to_string(),
        content: content.to_string(),
        scope: "global".to_string(),
        workspace_folder: None,
        provider: None,
        model: None,
        sources,
        created_at: "2026-01-02T03:04:05Z".to_string(),
    }
}

#[test]
fn llm_settings_need_a_base_url_and_a_model() {
    assert_eq!(
        validate_llm_settings("  ", "m"),
        Err("LLM_CONFIG_MISSING: llm_base_url is not configured".to_string())
    );
    assert_eq!(
        validate_llm_settings("https://x", " "),
        Err("LLM_CONFIG_MISSING: llm_model is not configured".to_string())
    );
    assert_eq!(validate_llm_settings("https://x", "m"), Ok(()));
}

#[test]
fn session_titles_are_compacted_questions() {
    assert_eq!(session_title("  what   is\nthis  "), "AI问答 - what is this");
    assert_eq!(session_title("   "), "AI问答 - 未命名");
    let long = "a".repeat(30);
    assert_eq!(session_title(&long), format!("AI问答 - {}...", "a".repeat(28)));
}

#[test]
fn structured_errors_are_prefixed_once() {
    assert_eq!(
        structured_error("LLM_API_KEY_MISSING", "no key".to_string()),
        "LLM_API_KEY_MISSING: no key"
    );
    assert_eq!(
        structured_error("LLM_API_KEY_MISSING", "LLM_API_KEY_MISSING: no key".to_string()),
        "LLM_API_KEY_MISSING: no key"
    );
}

#[test]
fn a_reused_message_must_be_the_same_user_question() {
    let m = message("user", " hello ", Vec::new());
    assert_eq!(check_reused_user_message("s", &m, "hello"), Ok(()));
    assert_eq!(
        check_reused_user_message("other", &m, "hello"),
        Err("reuseUserMessageId does not belong to session".to_string())
    );
    assert_eq!(
        check_reused_user_message("s", &message("assistant", "hello", Vec::new()), "hello"),
        Err("reuseUserMessageId must reference a user message".to_string())
    );
    assert_eq!(
        check_reused_user_message("s", &m, "bye"),
        Err("reuseUserMessageId content does not match question".to_string())
    );
}

#[test]
fn sidecar_sources_are_checked_in_order() {
    assert_eq!(validate_sidecar_sources(&[note_source("T", Some(1), Some(2))]), Ok(()));
    assert_eq!(
        validate_sidecar_sources(&[note_source("T", Some(3), Some(2))]),
        Err("ASSISTANT_SIDECAR_FAILED: invalid source line range".to_string())
    );
    assert_eq!(
        validate_sidecar_sources(&[note_source(" ", None, None)]),
        Err("ASSISTANT_SIDECAR_FAILED: invalid source entry".to_string())
    );
    assert_eq!(validate_sidecar_sources(&[web_source("https://example.com/a")]), Ok(()));
    let mut odd = note_source("T", None, None);
    odd.source_type = Some("video".to_string());
    assert_eq!(
        validate_sidecar_sources(&[note_source("T", None, None), odd]),
        Err("ASSISTANT_SIDECAR_FAILED: invalid source type".to_string())
    );
}

#[test]
fn stored_messages_are_checked_before_saving() {
    assert_eq!(validate_assistant_message("user", "q", "global", None, &[]), Ok(()));
    assert_eq!(
        validate_assistant_message("system", "q", "global", None, &[]),
        Err("assistant message role must be user or assistant".to_string())
    );
    assert_eq!(
        validate_assistant_message("assistant", "  ", "global", None, &[]),
        Err("assistant message content is required".to_string())
    );
    assert_eq!(
        validate_assistant_message("assistant", "a", "global", None, &[web_source("ftp://x")]),
        Err("assistant web source url must be http or https".to_string())
    );
}

#[test]
fn source_lists_render_as_markdown() {
    assert_eq!(sources_markdown(&[]), "## 引用来源\n\n未找到可引用来源。");
    assert_eq!(
        sources_markdown(&[note_source(" Plan ", Some(4), Some(4)), note_source("Log", Some(1), Some(3))]),
        "## 引用来源\n\n- Plan（space-a / n1 / L4）\n- Log（space-a / n1 / L1-L3）"
    );
    assert_eq!(
        sources_markdown(&[web_source(" https://e.com ")]),
        "## 引用来源\n\n- [Page](https://e.com)"
    );
}

#[test]
fn answer_and_session_notes_keep_questions_answers_and_sources() {
    let note = answer_note_markdown(" Q? ", " A. ", "global", &[], Some("2026-01-01"));
    assert_eq!(
        note,
        "# AI问答\n\n## 问题\n\nQ?\n\n## 回答\n\nA.\n\n## 元信息\n\n- 范围：全部空间\n- 时间：2026-01-01\n\n## 引用来源\n\n未找到可引用来源。"
    );
    let session = AssistantSession {
        id: "s".to_string(),
        title: "Talk".to_string(),
        created_at: "c1".to_string(),
        updated_at: "u1".to_string(),
    };
    let messages = vec![message("user", "Q", Vec::new()), message("assistant", "A", Vec::new())];
    assert_eq!(
        session_note_markdown(&session, &messages),
        "# Talk\n\n- 创建时间：c1\n- 更新时间：u1\n\n## 问题\n\nQ\n\n## 回答\n\nA\n\n### 元信息\n\n- 范围：全部空间\n- 时间：2026-01-02T03:04:05Z\n\n## 引用来源\n\n未找到可引用来源。"
    );
}
