use voice_vibe_local::devices::{device_name_matches, preferred_stream_config, StreamConfigShape};
use voice_vibe_local::model_status::{
    configured_model_outcome, custom_path_status, downloading_model_status,
    failed_download_status, ready_model_status, stored_model_reusable, stored_status_view,
    ModelKind, ModelStatus, StoredStatusOutcome,
};
use voice_vibe_local::settings::get_settings;

fn settings() -> voice_vibe_local::settings::AppSettings {
    get_settings(&vec![("asr_model_source".to_string(), "huggingface".to_string())], false)
}

fn stored(status: &str, path: Option<&str>) -> ModelStatus {
    ModelStatus {
        repo: "huggingface::paraformer-zh".to_string(),
        status: status.to_string(),
        path: path.map(|p| p.to_string()),
        message: Some("old".to_string()),
        updated_at: Some("2024-01-01T00:00:00Z".to_string()),
    }
}

#[test]
fn a_configured_model_path_is_used_when_it_exists() {
    let s = settings();
    let ready = configured_model_outcome(ModelKind::Dictation, &s, "/m/asr", true).unwrap();
    assert_eq!(ready.status, "ready");
    assert_eq!(ready.repo, "paraformer-zh");
    assert_eq!(ready.message.as_deref(), Some("Using configured local model path for dictation"));
    assert_eq!(
        configured_model_outcome(ModelKind::Workflow, &s, "/m/none", false).err(),
        Some("Configured ASR model path does not exist: /m/none".to_string())
    );
}

#[test]
fn download_statuses_name_the_source_and_the_outcome() {
    let s = settings();
    let downloading = downloading_model_status(ModelKind::Workflow, &s, Some("/old".to_string()));
    assert_eq!(downloading.repo, "huggingface::paraformer-zh");
    assert_eq!(downloading.status, "downloading");
    assert_eq!(downloading.path.as_deref(), Some("/old"));
    assert_eq!(
        downloading.message.as_deref(),
        Some("Downloading FunASR workflow models from Hugging Face")
    );
    let cancelled = failed_download_status(ModelKind::Dictation, &s, "MODEL_DOWNLOAD_CANCELLED: by user");
    assert_eq!(cancelled.status, "cancelled");
    assert_eq!(cancelled.message.as_deref(), Some("FunASR dictation model download cancelled"));
    let failed = failed_download_status(ModelKind::Workflow, &s, "network down");
    assert_eq!(failed.status, "failed");
    assert_eq!(failed.message.as_deref(), Some("network down"));
    assert_eq!(failed.path, None);
    let ready = ready_model_status(ModelKind::Workflow, &s, "/m/asr");
    assert_eq!(ready.message.as_deref(), Some("FunASR workflow models are ready"));
    assert_eq!(ready.path.as_deref(), Some("/m/asr"));
}

#[test]
fn stored_models_are_reused_only_when_ready() {
    assert!(stored_model_reusable(ModelKind::Workflow, &stored("ready", Some("/p")), true));
    assert!(!stored_model_reusable(ModelKind::Workflow, &stored("failed", Some("/p")), true));
    assert!(stored_model_reusable(ModelKind::Dictation, &stored("failed", Some("/p")), true));
    assert!(!stored_model_reusable(ModelKind::Dictation, &stored("ready", Some("/p")), false));
}

#[test]
fn shown_statuses_follow_the_disk() {
    let s = settings();
    match stored_status_view(&s, &stored("ready", Some("/gone")), false, true) {
        StoredStatusOutcome::StoreAndShow(status) => {
            assert_eq!(status.status, "missing");
            assert_eq!(status.repo, "huggingface::paraformer-zh");
            assert_eq!(status.message.as_deref(), Some("Previously downloaded model path is missing"));
        }
        StoredStatusOutcome::Show(_) => panic!("a vanished model is stored as missing"),
    }
    match stored_status_view(&s, &stored("ready", Some("/p")), true, false) {
        StoredStatusOutcome::StoreAndShow(status) => assert_eq!(
            status.message.as_deref(),
            Some("ASR workflow auxiliary models are not downloaded")
        ),
        StoredStatusOutcome::Show(_) => panic!("missing auxiliary models are stored as missing"),
    }
    match stored_status_view(&s, &stored("downloading", None), false, false) {
        StoredStatusOutcome::Show(status) => {
            assert_eq!(status.repo, "paraformer-zh");
            assert_eq!(status.message.as_deref(), Some("Downloading FunASR workflow models from Hugging Face"));
        }
        StoredStatusOutcome::StoreAndShow(_) => panic!("a download is only shown"),
    }
    let custom = custom_path_status(&s, "/mine", true, false);
    assert_eq!(custom.status, "missing");
    assert_eq!(custom.message.as_deref(), Some("ASR workflow auxiliary models are not downloaded"));
    assert_eq!(custom_path_status(&s, "/mine", true, true).status, "ready");
    assert_eq!(
        custom_path_status(&s, "/mine", false, false).message.as_deref(),
        Some("Configured local model path does not exist")
    );
}

#[test]
fn devices_and_stream_configurations_are_chosen_in_order() {
    assert!(device_name_matches("Speakers (Realtek)", "Speakers"));
    assert!(!device_name_matches("Mic", "Speakers"));
    let shape = |float_samples, channels| StreamConfigShape { float_samples, channels };
    assert_eq!(preferred_stream_config(&vec![shape(false, 2), shape(true, 1), shape(true, 2)]), Some(2));
    assert_eq!(preferred_stream_config(&vec![shape(false, 2), shape(true, 1)]), Some(1));
    assert_eq!(preferred_stream_config(&vec![shape(false, 6), shape(false, 2)]), Some(0));
    assert_eq!(preferred_stream_config(&Vec::new()), None);
}
