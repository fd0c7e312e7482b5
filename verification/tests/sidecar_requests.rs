use voice_vibe_local::assistant::{validate_max_turns, AssistantMessage, AssistantSession, MaxTurnsValue};
use voice_vibe_local::note_roots::{current_note_root, global_note_roots, NoteRoot, WorkspaceEntry};
use voice_vibe_local::settings::AppSettings;
use voice_vibe_local::sidecar_requests::{
    build_sidecar_request, estimate_model_download_size_request, prepare_auxiliary_models_request,
    prepare_dictation_models_request, prepare_model_request, prepare_punctuation_model_request,
    transcribe_request, transcribe_request_with_profile, RequestValue, SidecarRequest,
};

fn text<'a>(request: &'a SidecarRequest, key: &str) -> Option<&'a str> {
    request.payload_field(key).and_then(|value| value.as_text())
}

fn flag(request: &SidecarRequest, key: &str) -> Option<bool> {
    request.payload_field(key).and_then(|value| value.as_flag())
}

fn entry(name: &str, is_dir: bool) -> WorkspaceEntry {
    WorkspaceEntry { name: name.to_string(), is_dir }
}

fn test_settings() -> AppSettings {
    AppSettings {
        python_path: "".to_string(),
        ffmpeg_path: "".to_string(),
        asr_model_repo: "".to_string(),
        asr_model_source: "".to_string(),
        asr_model_path: None,
        http_proxy: None,
        https_proxy: None,
        all_proxy: None,
        use_gpu: false,
        llm_provider: "compatible".to_string(),
        llm_base_url: "https://api.example.com/v1".to_string(),
        llm_model: "test-model".to_string(),
        llm_temperature: "0.1".to_string(),
        llm_max_tokens: 2048,
        llm_timeout_seconds: 120,
        has_llm_api_key: true,
        voice_input_enabled: false,
        voice_input_hotkey: "CommandOrControl+Shift+Space".to_string(),
        voice_input_refinement_mode: "local".to_string(),
        voice_input_refinement_prompt: "{{ transcript }}".to_string(),
    }
}

#[test]
fn dictation_transcribe_request_marks_normalized_audio_and_profile() {
    let request = transcribe_request_with_profile(
        "dictation-1",
        "/tmp/input.wav",
        "/tmp/normalized.wav",
        "/tmp/model",
        "/tmp/ffmpeg",
        true,
        None,
        None,
        Some("/tmp/punc"),
        "dictation",
        true,
    );

    assert_eq!(request.request_type, "transcribe");
    assert_eq!(text(&request, "profile"), Some("dictation"));
    assert_eq!(flag(&request, "audio_already_normalized"), Some(true));
    assert_eq!(text(&request, "punc_model_path"), Some("/tmp/punc"));
    assert!(request.payload_field("vad_model_path").is_none());
    assert!(request.payload_field("speaker_model_path").is_none());
}

#[test]
fn dictation_model_prepare_request_uses_dedicated_sidecar_type() {
    let request =
        prepare_dictation_models_request("prepare-1", "paraformer-zh", "/tmp/asr", "modelscope");

    assert_eq!(request.request_type, "prepare_dictation_models");
    assert_eq!(text(&request, "repo"), Some("paraformer-zh"));
    assert_eq!(text(&request, "target_dir"), Some("/tmp/asr"));
    assert_eq!(text(&request, "source"), Some("modelscope"));
}

#[test]
fn punctuation_model_prepare_request_uses_dedicated_sidecar_type() {
    let request = prepare_punctuation_model_request("punc-1", "/tmp/aux", "modelscope");

    assert_eq!(request.request_type, "prepare_punctuation_model");
    assert_eq!(text(&request, "target_dir"), Some("/tmp/aux"));
    assert_eq!(text(&request, "source"), Some("modelscope"));
}

#[test]
fn estimate_model_download_size_request_includes_profile() {
    let request = estimate_model_download_size_request(
        "estimate-1",
        "paraformer-zh",
        "huggingface",
        "dictation",
    );

    assert_eq!(request.request_type, "estimate_model_download_size");
    assert_eq!(text(&request, "repo"), Some("paraformer-zh"));
    assert_eq!(text(&request, "source"), Some("huggingface"));
    assert_eq!(text(&request, "profile"), Some("dictation"));
}

#[test]
fn meeting_transcribe_request_carries_every_auxiliary_model() {
    let request = transcribe_request(
        "job-7",
        "/a.wav",
        "/n.wav",
        "/m",
        "/ff",
        false,
        "/vad",
        "/spk",
        "/punc",
    );
    assert_eq!(request.id, "job-7");
    assert_eq!(request.payload.len(), 10);
    assert_eq!(text(&request, "profile"), Some("meeting_full"));
    assert_eq!(flag(&request, "audio_already_normalized"), Some(false));
    assert_eq!(flag(&request, "use_gpu"), Some(false));
    assert_eq!(text(&request, "vad_model_path"), Some("/vad"));
    assert_eq!(text(&request, "speaker_model_path"), Some("/spk"));
    assert_eq!(text(&request, "punc_model_path"), Some("/punc"));
}

#[test]
fn model_prepare_requests_name_their_payloads() {
    let request = prepare_model_request("p-1", "sensevoice", "/models", "huggingface");
    assert_eq!(request.id, "p-1");
    assert_eq!(request.request_type, "prepare_model");
    assert_eq!(text(&request, "repo"), Some("sensevoice"));
    assert_eq!(text(&request, "target_dir"), Some("/models"));

    let request = prepare_auxiliary_models_request("a-1", "/aux", "modelscope");
    assert_eq!(request.request_type, "prepare_auxiliary_models");
    assert_eq!(request.payload.len(), 2);
    assert_eq!(text(&request, "target_dir"), Some("/aux"));
    assert!(request.payload_field("repo").is_none());
}

#[test]
fn assistant_sidecar_request_carries_positive_unbounded_max_turns() {
    assert_eq!(
        validate_max_turns(Some(MaxTurnsValue::Text("128".to_string()))).expect("max turns"),
        "128"
    );
    assert_eq!(
        validate_max_turns(Some(MaxTurnsValue::Text(
            "123456789012345678901234567890".to_string()
        )))
        .expect("max turns"),
        "123456789012345678901234567890"
    );
    assert!(validate_max_turns(Some(MaxTurnsValue::Text("0".to_string()))).is_err());

    let settings = test_settings();
    let session = AssistantSession {
        id: "session-1".to_string(),
        title: "Session".to_string(),
        created_at: "2026-05-05T00:00:00Z".to_string(),
        updated_at: "2026-05-05T00:00:00Z".to_string(),
    };
    let roots = vec![NoteRoot {
        workspace_folder: "space-a".to_string(),
        notes_dir: "/tmp/space-a/notes".to_string(),
    }];

    let request = build_sidecar_request(
        &session,
        "问题",
        "current",
        Some("space-a"),
        &roots,
        &[],
        "/tmp/app.sqlite",
        false,
        &settings,
        "test-key",
        "请回答",
        true,
        "128",
    );

    assert_eq!(text(&request, "max_turns"), Some("128"));
    assert_eq!(text(&request, "session_id"), Some("session-1"));
    assert_eq!(flag(&request, "session_reset_to_history"), Some(false));
    assert!(text(&request, "session_db_path")
        .unwrap_or_default()
        .ends_with("app.sqlite"));
}

#[test]
fn assistant_request_nests_roots_history_and_model_settings() {
    let settings = test_settings();
    let session = AssistantSession {
        id: "s".to_string(),
        title: "t".to_string(),
        created_at: "c".to_string(),
        updated_at: "u".to_string(),
    };
    let message = AssistantMessage {
        id: "m1".to_string(),
        session_id: "s".to_string(),
        role: "user".to_string(),
        content: "hello".to_string(),
        scope: "global".to_string(),
        workspace_folder: None,
        provider: None,
        model: None,
        sources: Vec::new(),
        created_at: "c".to_string(),
    };
    let request = build_sidecar_request(
        &session, "q", "global", None, &[], &[message], "/db", true, &settings, "k", "p", false,
        "8",
    );
    assert_eq!(request.id.chars().count(), 36);
    assert_eq!(request.request_type, "ask_local_notes");
    assert_eq!(request.payload_field("workspace_folder"), Some(&RequestValue::Null));
    assert_eq!(request.payload_field("workspace_roots"), Some(&RequestValue::List(Vec::new())));
    let history = request.payload_field("history").expect("history");
    match history {
        RequestValue::List(items) => {
            assert_eq!(items.len(), 1);
            assert_eq!(items[0].field("role").and_then(|v| v.as_text()), Some("user"));
            assert_eq!(items[0].field("content").and_then(|v| v.as_text()), Some("hello"));
        }
        other => panic!("history is not a list: {other:?}"),
    }
    let llm = request.payload_field("llm").expect("llm");
    assert_eq!(
        llm.field("base_url").and_then(|v| v.as_text()),
        Some("https://api.example.com/v1")
    );
    assert_eq!(llm.field("max_tokens"), Some(&RequestValue::Integer(2048)));
    assert_eq!(llm.field("temperature"), Some(&RequestValue::Decimal("0.1".to_string())));
    assert_eq!(flag(&request, "web_enabled"), Some(false));
}

#[test]
fn global_roots_are_derived_from_app_workspaces() {
    let entries = vec![entry("space-b", true), entry("space-a", true)];

    let roots = global_note_roots("/data/workspaces", &entries).expect("global roots");

    assert_eq!(roots.len(), 2);
    assert_eq!(roots[0].workspace_folder, "space-a");
    assert_eq!(roots[0].notes_dir, "/data/workspaces/space-a/notes");
}

#[test]
fn global_roots_skip_files_and_stop_at_bad_folder_names() {
    let entries = vec![entry("notes.txt", false), entry("beta", true), entry("alpha", true)];
    let roots = global_note_roots("/w", &entries).expect("roots");
    let folders: Vec<&str> = roots.iter().map(|r| r.workspace_folder.as_str()).collect();
    assert_eq!(folders, vec!["alpha", "beta"]);

    let entries = vec![entry("ok", true), entry("bad name", true)];
    assert_eq!(
        global_note_roots("/w", &entries).err(),
        Some("workspaceFolder contains invalid characters".to_string())
    );

    let entries = vec![entry(" padded", true), entry("kept", true)];
    let roots = global_note_roots("/w", &entries).expect("roots");
    assert_eq!(roots.len(), 1);
    assert_eq!(roots[0].workspace_folder, "kept");
}

#[test]
fn current_root_needs_a_canonical_folder() {
    assert_eq!(
        current_note_root("/w", None).err(),
        Some("workspaceFolder is required for current scope".to_string())
    );
    assert!(current_note_root("/w", Some("../outside")).is_err());
    let root = current_note_root("/w", Some("space-a")).expect("root");
    assert_eq!(root.workspace_folder, "space-a");
    assert_eq!(root.notes_dir, "/w/space-a/notes");
}
