use voice_vibe_local::settings::get_settings;
use voice_vibe_local::transcription_run::{
    advance_transcription_run, start_transcription_run, JobEffect, LoadedRecording, RunAction,
    RunEvent, RunStage, TranscriptionStep,
};

fn loaded() -> LoadedRecording {
    LoadedRecording {
        recording_id: "rec1".to_string(),
        original_audio_path: "/a/rec1.m4a".to_string(),
        settings: get_settings(&Vec::new(), false),
        models_dir: "/m".to_string(),
    }
}

#[test]
fn a_job_without_a_recording_fails_after_starting() {
    let (_, effects, action) = start_transcription_run(None);
    assert_eq!(
        effects,
        vec![JobEffect::StartStep(TranscriptionStep::PrepareAudioEnvironment, 10)]
    );
    assert!(matches!(action, RunAction::Fail(ref e) if e == "Transcription job missing recording_id"));
}

#[test]
fn a_transcription_job_goes_through_its_steps() {
    let (stage, _, action) = start_transcription_run(Some("rec1".to_string()));
    assert!(matches!(action, RunAction::LoadRecording(ref id) if id == "rec1"));
    let (stage, effects, action) =
        advance_transcription_run("job1", stage, RunEvent::Loaded(Ok(loaded())));
    assert_eq!(effects, vec![JobEffect::SetProgress(10), JobEffect::Notify]);
    assert!(matches!(action, RunAction::PrepareModel));
    let (stage, _, action) = advance_transcription_run(
        "job1",
        stage,
        RunEvent::ModelPrepared(Ok(Some("/m/asr".to_string()))),
    );
    match &action {
        RunAction::CheckAuxiliary { vad, speaker, punc } => {
            assert_eq!(vad, "/m/asr/.voice_vibe_aux/fsmn-vad");
            assert_eq!(speaker, "/m/asr/.voice_vibe_aux/campplus");
            assert_eq!(punc, "/m/asr/.voice_vibe_aux/ct-punc-c");
        }
        _ => panic!("expected the auxiliary models to be checked"),
    }
    let (stage, _, action) =
        advance_transcription_run("job1", stage, RunEvent::AuxiliaryPresent(true));
    assert!(matches!(action, RunAction::ResolveRuntime));
    let (stage, effects, action) = advance_transcription_run(
        "job1",
        stage,
        RunEvent::RuntimeResolved(Ok(("/rt/ffmpeg".to_string(), "/data/normalized".to_string()))),
    );
    assert_eq!(effects.len(), 5);
    assert_eq!(effects[3], JobEffect::StartStep(TranscriptionStep::RunAsr, 5));
    match &action {
        RunAction::Transcribe(request) => {
            assert_eq!(request.id, "job1");
            assert_eq!(request.request_type, "transcribe");
            assert_eq!(request.payload.len(), 11);
            assert_eq!(request.payload[1].key, "normalized_path");
            assert_eq!(request.payload[10].key, "reuse_model");
        }
        _ => panic!("expected a transcription"),
    }
    let reply = r#"{"result":{"text":"  你好  ","language":"zh"}}"#.to_string();
    let (stage, _, action) =
        advance_transcription_run("job1", stage, RunEvent::Transcribed(Ok(reply)));
    match &action {
        RunAction::SaveTranscript { text, normalized_path } => {
            assert_eq!(text, "你好");
            assert_eq!(normalized_path, "/data/normalized/rec1.wav");
        }
        _ => panic!("expected the transcript to be saved"),
    }
    let (stage, effects, action) =
        advance_transcription_run("job1", stage, RunEvent::StepDone(Ok(())));
    assert_eq!(effects[1], JobEffect::SetProgress(95));
    assert!(matches!(action, RunAction::WriteFiles));
    let (stage, _, action) = advance_transcription_run("job1", stage, RunEvent::StepDone(Ok(())));
    assert!(matches!(action, RunAction::Done));
    assert!(matches!(stage, RunStage::Finished));
}

#[test]
fn empty_or_missing_results_fail_the_job() {
    let stage = RunStage::Transcribing { normalized_path: "/n/x.wav".to_string() };
    let (_, _, action) = advance_transcription_run(
        "j",
        stage,
        RunEvent::Transcribed(Ok(r#"{"result":{"text":"  "}}"#.to_string())),
    );
    assert!(matches!(action, RunAction::Fail(ref e) if e == "ASR returned empty transcript"));
    let stage = RunStage::Transcribing { normalized_path: "/n/x.wav".to_string() };
    let (_, _, action) =
        advance_transcription_run("j", stage, RunEvent::Transcribed(Ok("{}".to_string())));
    assert!(matches!(action, RunAction::Fail(ref e) if e == "Sidecar response missing result"));
}
