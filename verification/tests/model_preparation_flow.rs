use voice_vibe_local::model_preparation::{
    advance_model_preparation, start_model_preparation, ModelPreparation, PreparationAction,
    PreparationEvent, PreparationStage,
};
use voice_vibe_local::model_status::{ModelKind, ModelStatus};
use voice_vibe_local::settings::{get_settings, AppSettings};

fn settings(model_path: Option<&str>) -> AppSettings {
    let mut rows = vec![("asr_model_source".to_string(), "huggingface".to_string())];
    if let Some(path) = model_path {
        rows.push(("asr_model_path".to_string(), path.to_string()));
    }
    get_settings(&rows, false)
}

fn stored(status: &str, path: Option<&str>) -> ModelStatus {
    ModelStatus {
        repo: "huggingface::paraformer-zh".to_string(),
        status: status.to_string(),
        path: path.map(|p| p.to_string()),
        message: Some("old".to_string()),
        updated_at: Some("2024-01-01T00:00:00Z".to_string()),
    }
}

fn step(
    prep: ModelPreparation,
    s: &AppSettings,
    event: PreparationEvent,
) -> (ModelPreparation, PreparationAction) {
    advance_model_preparation(prep, s, "/models", event)
}

#[test]
fn a_missing_configured_path_is_an_error() {
    let s = settings(Some("/m/custom"));
    let (prep, action) = start_model_preparation(ModelKind::Workflow, &s);
    assert!(matches!(action, PreparationAction::CheckPathExists(ref p) if p == "/m/custom"));
    let (prep, action) = step(prep, &s, PreparationEvent::PathExists(false));
    assert!(matches!(prep.stage, PreparationStage::Finished));
    match action {
        PreparationAction::Finish(Err(e)) => {
            assert_eq!(e, "Configured ASR model path does not exist: /m/custom")
        }
        _ => panic!("expected the missing path error"),
    }
}

#[test]
fn an_existing_configured_path_is_ready_once_its_companions_are() {
    let s = settings(Some("/m/custom"));
    let (prep, _) = start_model_preparation(ModelKind::Dictation, &s);
    let (prep, action) = step(prep, &s, PreparationEvent::PathExists(true));
    match &action {
        PreparationAction::PrepareBeside(root) => {
            assert_eq!(root, "/models/FunASR-Workflow__auxiliary")
        }
        _ => panic!("expected the models beside the path to be prepared"),
    }
    let (_, action) = step(prep, &s, PreparationEvent::BesidePrepared(Ok(())));
    match action {
        PreparationAction::Finish(Ok(status)) => {
            assert_eq!(status.status, "ready");
            assert_eq!(status.path.as_deref(), Some("/m/custom"));
            assert_eq!(
                status.message.as_deref(),
                Some("Using configured local model path for dictation")
            );
        }
        _ => panic!("expected a ready status"),
    }

    let (prep, _) = start_model_preparation(ModelKind::Workflow, &s);
    let (prep, _) = step(prep, &s, PreparationEvent::PathExists(true));
    let (_, action) = step(prep, &s, PreparationEvent::BesidePrepared(Err("no disk".to_string())));
    assert!(matches!(action, PreparationAction::Finish(Err(ref e)) if e == "no disk"));
}

#[test]
fn a_stored_ready_workflow_model_is_reused() {
    let s = settings(None);
    let (prep, action) = start_model_preparation(ModelKind::Workflow, &s);
    assert!(
        matches!(action, PreparationAction::LoadStoredStatus(ref k) if k == "huggingface::paraformer-zh")
    );
    let (prep, action) = step(prep, &s, PreparationEvent::StoredStatus(stored("ready", Some("/m/a"))));
    assert!(matches!(action, PreparationAction::CheckStoredModels(ref p) if p == "/m/a"));
    let (prep, action) = step(prep, &s, PreparationEvent::ModelsReady(true));
    assert!(matches!(prep.stage, PreparationStage::Finished));
    match action {
        PreparationAction::Finish(Ok(status)) => {
            assert_eq!(status.repo, "paraformer-zh");
            assert_eq!(status.status, "ready");
            assert_eq!(status.message.as_deref(), Some("old"));
        }
        _ => panic!("expected the stored model"),
    }
}

#[test]
fn a_stored_failed_workflow_model_is_downloaded_again() {
    let s = settings(None);
    let (prep, _) = start_model_preparation(ModelKind::Workflow, &s);
    let (prep, action) = step(prep, &s, PreparationEvent::StoredStatus(stored("failed", Some("/m/a"))));
    match &action {
        PreparationAction::Download { status, target_dir, request } => {
            assert_eq!(status.status, "downloading");
            assert_eq!(status.path.as_deref(), Some("/m/a"));
            assert_eq!(target_dir, "/models/huggingface__paraformer-zh");
            assert_eq!(request.request_type, "prepare_model");
            assert_eq!(request.id.len(), 36);
            assert_eq!(
                request.payload_field("target_dir").and_then(|v| v.as_text()),
                Some("/models/huggingface__paraformer-zh")
            );
        }
        _ => panic!("expected a download"),
    }
    let (_, action) = step(
        prep,
        &s,
        PreparationEvent::Downloaded(Err("MODEL_DOWNLOAD_CANCELLED: stop".to_string())),
    );
    match action {
        PreparationAction::RecordFailure { status, error } => {
            assert_eq!(status.status, "cancelled");
            assert_eq!(error, "MODEL_DOWNLOAD_CANCELLED: stop");
        }
        _ => panic!("expected the failure to be recorded"),
    }
}

#[test]
fn a_finished_workflow_download_is_stored_as_ready() {
    let s = settings(None);
    let (prep, _) = start_model_preparation(ModelKind::Workflow, &s);
    let (prep, _) = step(prep, &s, PreparationEvent::StoredStatus(stored("missing", None)));
    let (_, action) = step(
        prep,
        &s,
        PreparationEvent::Downloaded(Ok(Some("/models/huggingface__paraformer-zh".to_string()))),
    );
    match action {
        PreparationAction::StoreReady(status) => {
            assert_eq!(status.repo, "huggingface::paraformer-zh");
            assert_eq!(status.message.as_deref(), Some("FunASR workflow models are ready"));
        }
        _ => panic!("expected the ready status to be stored"),
    }
}

#[test]
fn dictation_uses_models_already_in_the_download_directory() {
    let s = settings(None);
    let (prep, _) = start_model_preparation(ModelKind::Dictation, &s);
    let (prep, action) = step(prep, &s, PreparationEvent::StoredStatus(stored("failed", Some("/old"))));
    assert!(matches!(action, PreparationAction::CheckStoredModels(ref p) if p == "/old"));
    let (prep, action) = step(prep, &s, PreparationEvent::ModelsReady(false));
    assert!(
        matches!(action, PreparationAction::CheckModels(ref p) if p == "/models/huggingface__paraformer-zh")
    );
    let (_, action) = step(prep, &s, PreparationEvent::ModelsReady(true));
    match action {
        PreparationAction::StoreReady(status) => {
            assert_eq!(status.path.as_deref(), Some("/models/huggingface__paraformer-zh"));
            assert_eq!(status.message.as_deref(), Some("FunASR dictation models are ready"));
        }
        _ => panic!("expected the ready status to be stored"),
    }
}

#[test]
fn a_dictation_download_must_leave_ready_models() {
    let s = settings(None);
    let (prep, _) = start_model_preparation(ModelKind::Dictation, &s);
    let (prep, _) = step(prep, &s, PreparationEvent::StoredStatus(stored("missing", None)));
    let (prep, action) = step(prep, &s, PreparationEvent::ModelsReady(false));
    match &action {
        PreparationAction::Download { status, request, .. } => {
            assert_eq!(status.path, None);
            assert_eq!(request.request_type, "prepare_dictation_models");
        }
        _ => panic!("expected a download"),
    }
    let (prep, action) = step(prep, &s, PreparationEvent::Downloaded(Ok(Some("/d".to_string()))));
    assert!(matches!(action, PreparationAction::CheckModels(ref p) if p == "/d"));
    let (_, action) = step(prep, &s, PreparationEvent::ModelsReady(false));
    assert!(matches!(
        action,
        PreparationAction::Finish(Err(ref e))
            if e == "FunASR dictation model download finished without ready model paths"
    ));

    let (prep, _) = start_model_preparation(ModelKind::Dictation, &s);
    let (prep, _) = step(prep, &s, PreparationEvent::StoredStatus(stored("missing", None)));
    let (prep, _) = step(prep, &s, PreparationEvent::ModelsReady(false));
    let (_, action) = step(prep, &s, PreparationEvent::Downloaded(Ok(None)));
    assert!(matches!(
        action,
        PreparationAction::Finish(Err(ref e))
            if e == "Dictation model download response missing model_path"
    ));
}
