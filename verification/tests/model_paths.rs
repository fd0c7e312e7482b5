use voice_vibe_local::models::{
    auxiliary_model_paths_for_queue, auxiliary_weight_files, custom_auxiliary_model_root,
    dictation_model_candidates, dictation_weight_files, model_download_root_for_settings,
    model_source_label, model_status_repo_key, repo_model_target_dir, resolved_asr_model_repo,
    DownloadSizeProfile,
};
use voice_vibe_local::settings::get_settings;

fn settings(pairs: &[(&str, &str)]) -> voice_vibe_local::settings::AppSettings {
    let rows = pairs
        .iter()
        .map(|(k, v)| (k.to_string(), v.to_string()))
        .collect::<Vec<_>>();
    get_settings(&rows, false)
}

#[test]
fn configured_models_resolve_to_the_workflow_model() {
    let mut s = settings(&[]);
    s.asr_model_repo = "mlx-community/Fun-ASR-Nano-2512-fp16".to_string();
    assert_eq!(resolved_asr_model_repo(&s), "paraformer-zh");
    s.asr_model_source = "huggingface".to_string();
    assert_eq!(resolved_asr_model_repo(&s), "paraformer-zh");
    s.asr_model_source = "mirror".to_string();
    assert_eq!(resolved_asr_model_repo(&s), "mlx-community/Fun-ASR-Nano-2512-fp16");
    s.asr_model_repo = "  org/model  ".to_string();
    assert_eq!(resolved_asr_model_repo(&s), "org/model");
    assert_eq!(model_status_repo_key(&s), "mirror::org/model");
    assert_eq!(repo_model_target_dir("/m", &s), "/m/mirror__org__model");
    s.asr_model_repo = " ".to_string();
    assert_eq!(resolved_asr_model_repo(&s), "paraformer-zh");
}

#[test]
fn auxiliary_models_live_beside_the_model() {
    let s = settings(&[]);
    assert_eq!(model_download_root_for_settings("/m", &s), "/m/modelscope__paraformer-zh");
    let (root, vad, speaker, punc) = auxiliary_model_paths_for_queue("/m", &s, "/m/asr");
    assert_eq!(root, "/m/asr/.voice_vibe_aux");
    assert_eq!(vad, "/m/asr/.voice_vibe_aux/fsmn-vad");
    assert_eq!(speaker, "/m/asr/.voice_vibe_aux/campplus");
    assert_eq!(punc, "/m/asr/.voice_vibe_aux/ct-punc-c");
    let custom = settings(&[("asr_model_path", "/mine")]);
    assert_eq!(custom_auxiliary_model_root("/m"), "/m/FunASR-Workflow__auxiliary");
    assert_eq!(model_download_root_for_settings("/m", &custom), "/m/FunASR-Workflow__auxiliary");
    let (root, ..) = auxiliary_model_paths_for_queue("/m", &custom, "/mine");
    assert_eq!(root, "/m/FunASR-Workflow__auxiliary");
}

#[test]
fn sources_and_profiles_have_names() {
    assert_eq!(model_source_label("modelscope"), "ModelScope");
    assert_eq!(model_source_label("huggingface"), "Hugging Face");
    assert_eq!(model_source_label("mirror"), "mirror");
    assert_eq!(DownloadSizeProfile::Dictation.as_str(), "dictation");
    assert_eq!(DownloadSizeProfile::Punctuation.as_str(), "punctuation");
}

fn pairs(v: &[(&str, &str)]) -> Vec<(String, String)> {
    v.iter().map(|(a, b)| (a.to_string(), b.to_string())).collect()
}

#[test]
fn dictation_needs_the_speech_and_punctuation_weights() {
    let s = settings(&[]);
    assert_eq!(
        dictation_weight_files("/m", &s, "/m/asr"),
        pairs(&[
            ("/m/asr", "model.pt"),
            ("/m/asr/.voice_vibe_aux/ct-punc-c", "model.pt"),
        ])
    );
}

#[test]
fn the_workflow_needs_the_auxiliary_weights() {
    let s = settings(&[]);
    assert_eq!(
        auxiliary_weight_files("/m", &s, "/m/asr"),
        pairs(&[
            ("/m/asr/.voice_vibe_aux/fsmn-vad", "model.pt"),
            ("/m/asr/.voice_vibe_aux/campplus", "campplus_cn_common.bin"),
            ("/m/asr/.voice_vibe_aux/ct-punc-c", "model.pt"),
        ])
    );
    let mut custom = settings(&[]);
    custom.asr_model_path = Some("/models/mine".to_string());
    assert_eq!(
        auxiliary_weight_files("/m", &custom, "/models/mine")[0],
        ("/m/FunASR-Workflow__auxiliary/fsmn-vad".to_string(), "model.pt".to_string())
    );
}

#[test]
fn dictation_tries_the_configured_path_alone_or_the_stored_then_the_download_directory() {
    let mut s = settings(&[]);
    assert_eq!(
        dictation_model_candidates("/m", &s, Some("/old/asr")),
        vec!["/old/asr".to_string(), "/m/modelscope__paraformer-zh".to_string()]
    );
    assert_eq!(
        dictation_model_candidates("/m", &s, None),
        vec!["/m/modelscope__paraformer-zh".to_string()]
    );
    s.asr_model_path = Some("/models/mine".to_string());
    assert_eq!(
        dictation_model_candidates("/m", &s, Some("/old/asr")),
        vec!["/models/mine".to_string()]
    );
}
