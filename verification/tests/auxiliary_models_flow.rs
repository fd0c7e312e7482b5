use voice_vibe_local::auxiliary_models::{
    advance_auxiliary_preparation, start_auxiliary_preparation, AuxiliaryAction, AuxiliaryEvent,
    AuxiliaryPreparation, AuxiliarySet, AuxiliaryStage,
};
use voice_vibe_local::models::DownloadSizeProfile;
use voice_vibe_local::settings::{get_settings, AppSettings};

fn settings() -> AppSettings {
    get_settings(&vec![("asr_model_source".to_string(), "huggingface".to_string())], false)
}

fn pairs(v: &[(&str, &str)]) -> Vec<(String, String)> {
    v.iter().map(|(a, b)| (a.to_string(), b.to_string())).collect()
}

fn downloading(set: AuxiliarySet, s: &AppSettings) -> AuxiliaryPreparation {
    let (prep, _) = start_auxiliary_preparation(set, "/aux");
    let (prep, _) = advance_auxiliary_preparation(prep, s, AuxiliaryEvent::WeightsPresent(false));
    prep
}

fn finished(action: AuxiliaryAction) -> (Option<(String, String)>, Result<(), String>) {
    match action {
        AuxiliaryAction::Finish { report, outcome } => {
            (report.map(|r| (r.status, r.message)), outcome)
        }
        _ => panic!("expected the preparation to finish"),
    }
}

#[test]
fn the_workflow_checks_its_three_weights_and_uses_them_when_present() {
    let s = settings();
    let (prep, action) = start_auxiliary_preparation(AuxiliarySet::Workflow, "/aux");
    match &action {
        AuxiliaryAction::CheckWeights(files) => assert_eq!(
            files,
            &pairs(&[
                ("/aux/fsmn-vad", "model.pt"),
                ("/aux/campplus", "campplus_cn_common.bin"),
                ("/aux/ct-punc-c", "model.pt"),
            ])
        ),
        _ => panic!("expected a weight check"),
    }
    let (prep, action) = advance_auxiliary_preparation(prep, &s, AuxiliaryEvent::WeightsPresent(true));
    assert_eq!(prep.stage, AuxiliaryStage::Finished);
    assert_eq!(finished(action), (None, Ok(())));
}

#[test]
fn missing_weights_are_downloaded_into_the_directory() {
    let s = settings();
    let (prep, _) = start_auxiliary_preparation(AuxiliarySet::Punctuation, "/aux");
    let (prep, action) = advance_auxiliary_preparation(prep, &s, AuxiliaryEvent::WeightsPresent(false));
    assert_eq!(prep.stage, AuxiliaryStage::Downloading);
    match action {
        AuxiliaryAction::Download { request, profile, repo } => {
            assert_eq!(request.request_type, "prepare_punctuation_model");
            assert_eq!(request.id.len(), 36);
            let id: Vec<char> = request.id.chars().collect();
            assert_eq!((id[8], id[13], id[14], id[18], id[23]), ('-', '-', '4', '-', '-'));
            assert!(request.id.chars().all(|c| c == '-' || c.is_ascii_digit() || ('a'..='f').contains(&c)));
            assert_eq!(
                request.payload_field("target_dir").and_then(|v| v.as_text()),
                Some("/aux")
            );
            assert_eq!(
                request.payload_field("source").and_then(|v| v.as_text()),
                Some("huggingface")
            );
            assert_eq!(profile, DownloadSizeProfile::Punctuation);
            assert_eq!(repo, "paraformer-zh");
        }
        _ => panic!("expected a download"),
    }
}

#[test]
fn a_failed_download_is_reported_as_cancelled_or_failed() {
    let s = settings();
    let prep = downloading(AuxiliarySet::Workflow, &s);
    let error = "MODEL_DOWNLOAD_CANCELLED: stopped".to_string();
    let (_, action) = advance_auxiliary_preparation(prep, &s, AuxiliaryEvent::Downloaded(Err(error.clone())));
    assert_eq!(
        finished(action),
        (
            Some(("cancelled".to_string(), "FunASR workflow model download cancelled".to_string())),
            Err(error)
        )
    );
    let prep = downloading(AuxiliarySet::Punctuation, &s);
    let (_, action) = advance_auxiliary_preparation(
        prep,
        &s,
        AuxiliaryEvent::Downloaded(Err("network down".to_string())),
    );
    assert_eq!(
        finished(action),
        (
            Some(("failed".to_string(), "network down".to_string())),
            Err("network down".to_string())
        )
    );
}

#[test]
fn a_finished_download_counts_only_with_every_reported_path_in_place() {
    let s = settings();
    let prep = downloading(AuxiliarySet::Workflow, &s);
    let reply = r#"{"result":{"vad_model_path":"/v","speaker_model_path":"/s","punc_model_path":"/p"}}"#;
    let (prep, action) = advance_auxiliary_preparation(prep, &s, AuxiliaryEvent::Downloaded(Ok(reply.to_string())));
    assert_eq!(prep.stage, AuxiliaryStage::Downloaded);
    match &action {
        AuxiliaryAction::CheckWeights(files) => assert_eq!(
            files,
            &pairs(&[("/v", "model.pt"), ("/s", "campplus_cn_common.bin"), ("/p", "model.pt")])
        ),
        _ => panic!("expected the reported weights to be checked"),
    }
    let (_, action) = advance_auxiliary_preparation(prep, &s, AuxiliaryEvent::WeightsPresent(true));
    assert_eq!(
        finished(action),
        (Some(("ready".to_string(), "ASR workflow auxiliary models are ready".to_string())), Ok(()))
    );

    let prep = downloading(AuxiliarySet::Workflow, &s);
    let partial = r#"{"result":{"vad_model_path":"/v","punc_model_path":"/p"}}"#;
    let (_, action) = advance_auxiliary_preparation(prep, &s, AuxiliaryEvent::Downloaded(Ok(partial.to_string())));
    assert_eq!(
        finished(action),
        (None, Err("ASR workflow model download finished without ready model paths".to_string()))
    );

    let prep = downloading(AuxiliarySet::Punctuation, &s);
    let reply = r#"{"result":{"punc_model_path":"/p"}}"#;
    let (prep, _) = advance_auxiliary_preparation(prep, &s, AuxiliaryEvent::Downloaded(Ok(reply.to_string())));
    let (_, action) = advance_auxiliary_preparation(prep, &s, AuxiliaryEvent::WeightsPresent(false));
    assert_eq!(
        finished(action),
        (
            None,
            Err("FunASR punctuation model download finished without ready model path".to_string())
        )
    );
}
