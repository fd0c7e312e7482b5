use voice_vibe_local::settings::{
    get_settings, normalized_voice_input_refinement_mode, normalized_voice_input_refinement_prompt,
    setting, voice_input_day_from_iso, DEFAULT_VOICE_INPUT_REFINEMENT_PROMPT,
};
use voice_vibe_local::text::parse_i64;

fn rows(pairs: &[(&str, &str)]) -> Vec<(String, String)> {
    pairs
        .iter()
        .map(|(k, v)| (k.to_string(), v.to_string()))
        .collect()
}

#[test]
fn missing_settings_take_their_defaults() {
    let s = get_settings(&Vec::new(), false);
    assert_eq!(s.python_path, "python3");
    assert_eq!(s.ffmpeg_path, "ffmpeg");
    assert_eq!(s.asr_model_repo, "paraformer-zh");
    assert_eq!(s.asr_model_source, "modelscope");
    assert_eq!(s.asr_model_path, None);
    assert_eq!(s.http_proxy, None);
    assert!(s.use_gpu);
    assert_eq!(s.llm_provider, "custom");
    assert_eq!(s.llm_temperature, "0.1");
    assert_eq!(s.llm_max_tokens, 8192);
    assert_eq!(s.llm_timeout_seconds, 120);
    assert!(!s.has_llm_api_key);
    assert!(!s.voice_input_enabled);
    assert_eq!(s.voice_input_hotkey, "CommandOrControl+Shift+Space");
    assert_eq!(s.voice_input_refinement_mode, "local");
    assert_eq!(s.voice_input_refinement_prompt, DEFAULT_VOICE_INPUT_REFINEMENT_PROMPT);
}

#[test]
fn stored_settings_are_read_and_corrected() {
    let stored = rows(&[
        ("asr_model_repo", " mlx-community/Fun-ASR-Nano-2512-fp16 "),
        ("asr_model_source", "huggingface"),
        ("asr_model_path", "  /models/asr  "),
        ("https_proxy", "   "),
        ("all_proxy", "socks5://127.0.0.1:1080"),
        ("use_gpu", "false"),
        ("llm_max_tokens", "lots"),
        ("llm_timeout_seconds", "+45"),
        ("voice_input_enabled", "true"),
        ("voice_input_refinement_mode", " ai_polish "),
        ("python_path", "/usr/bin/python3.12"),
        ("python_path", "ignored duplicate"),
    ]);
    let s = get_settings(&stored, true);
    assert_eq!(s.asr_model_repo, "paraformer-zh");
    assert_eq!(s.asr_model_source, "modelscope");
    assert_eq!(s.asr_model_path.as_deref(), Some("/models/asr"));
    assert_eq!(s.https_proxy, None);
    assert_eq!(s.all_proxy.as_deref(), Some("socks5://127.0.0.1:1080"));
    assert!(!s.use_gpu);
    assert_eq!(s.llm_max_tokens, 8192);
    assert_eq!(s.llm_timeout_seconds, 45);
    assert!(s.voice_input_enabled);
    assert_eq!(s.voice_input_refinement_mode, "ai_polish");
    assert_eq!(s.python_path, "/usr/bin/python3.12");
    assert!(s.has_llm_api_key);
}

#[test]
fn a_chosen_model_is_kept() {
    let s = get_settings(&rows(&[("asr_model_repo", "my/model"), ("asr_model_source", "huggingface")]), false);
    assert_eq!(s.asr_model_repo, "my/model");
    assert_eq!(s.asr_model_source, "huggingface");
    assert_eq!(setting(&rows(&[("a", "1")]), "b", "fallback"), "fallback");
}

#[test]
fn refinement_mode_and_prompt_are_normalised() {
    assert_eq!(normalized_voice_input_refinement_mode("ai_polish"), "ai_polish");
    assert_eq!(normalized_voice_input_refinement_mode("AI_POLISH"), "local");
    assert_eq!(normalized_voice_input_refinement_prompt("  \n "), DEFAULT_VOICE_INPUT_REFINEMENT_PROMPT);
    assert_eq!(normalized_voice_input_refinement_prompt(" 自定义 "), " 自定义 ");
}

#[test]
fn dictation_days_come_from_timestamps() {
    assert_eq!(
        voice_input_day_from_iso(" 2024-03-05T10:00:00+08:00"),
        Ok("2024-03-05".to_string())
    );
    let err = Err("voice input timestamp must start with YYYY-MM-DD".to_string());
    assert_eq!(voice_input_day_from_iso("2024/03/05T10"), err);
    assert_eq!(voice_input_day_from_iso("2024-3-5"), err);
    assert_eq!(voice_input_day_from_iso(""), err);
}

#[test]
fn integers_parse_as_rust_does() {
    for text in ["0", "-0", "+17", "-9223372036854775808", "9223372036854775807", "9223372036854775808", "", "-", "+", "1_000", " 1", "12a", "-12", "007"] {
        assert_eq!(parse_i64(text), text.parse::<i64>().ok(), "{text:?}");
    }
}
