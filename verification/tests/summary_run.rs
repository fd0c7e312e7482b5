use voice_vibe_local::summary::SummaryJobKind;
use voice_vibe_local::summary_run::{
    advance_summary_run, start_summary_run, SummaryEffect, SummaryEvent, SummaryRunAction,
    SummaryStage, SummaryStep,
};

#[test]
fn a_single_transcript_summary_builds_at_35_and_saves_after_90() {
    let (run, effects, action) = start_summary_run(SummaryJobKind::SingleTranscript);
    assert_eq!(effects[1], SummaryEffect::MarkRunning(10));
    assert!(matches!(action, SummaryRunAction::LoadSettings));
    let (run, _, action) = advance_summary_run(run, SummaryEvent::Loaded(Ok(0)));
    assert!(matches!(action, SummaryRunAction::LoadMaterial));
    let (run, effects, action) = advance_summary_run(run, SummaryEvent::Loaded(Ok(0)));
    assert!(effects.contains(&SummaryEffect::SetProgress(35)));
    assert_eq!(*effects.last().unwrap(), SummaryEffect::Notify);
    assert!(matches!(action, SummaryRunAction::CallModel));
    let (run, effects, action) = advance_summary_run(run, SummaryEvent::Called(Ok(())));
    assert_eq!(effects[0], SummaryEffect::SetProgress(90));
    assert_eq!(effects[2], SummaryEffect::StartStep(SummaryStep::SaveResult, 10));
    assert!(matches!(action, SummaryRunAction::SaveSummary));
    let (run, _, action) = advance_summary_run(run, SummaryEvent::Saved(Ok(())));
    assert!(matches!(action, SummaryRunAction::Done));
    assert_eq!(run.stage, SummaryStage::Finished);
}

#[test]
fn a_workspace_summary_loads_each_transcript_with_rising_progress() {
    let (run, _, _) = start_summary_run(SummaryJobKind::Workspace);
    let (run, _, _) = advance_summary_run(run, SummaryEvent::Loaded(Ok(0)));
    let (run, _, action) = advance_summary_run(run, SummaryEvent::Loaded(Ok(3)));
    assert!(matches!(action, SummaryRunAction::LoadItem(0)));
    let (run, effects, _) = advance_summary_run(run, SummaryEvent::Loaded(Ok(0)));
    assert_eq!(effects[0], SummaryEffect::SetProgress(26));
    let (run, effects, _) = advance_summary_run(run, SummaryEvent::Loaded(Ok(0)));
    assert_eq!(effects[0], SummaryEffect::SetProgress(33));
    let (_, effects, action) = advance_summary_run(run, SummaryEvent::Loaded(Ok(0)));
    assert_eq!(effects[0], SummaryEffect::SetProgress(40));
    assert!(effects.contains(&SummaryEffect::SetProgress(55)));
    assert!(matches!(action, SummaryRunAction::CallModel));
}

#[test]
fn a_text_summary_lays_out_its_documents_and_errors_fail_the_job() {
    let (run, _, _) = start_summary_run(SummaryJobKind::Texts);
    let (run, _, _) = advance_summary_run(run, SummaryEvent::Loaded(Ok(0)));
    let (_, effects, _) = advance_summary_run(run, SummaryEvent::Loaded(Ok(2)));
    assert_eq!(effects[2], SummaryEffect::SetProgress(30));
    assert_eq!(effects[4], SummaryEffect::SetProgress(40));
    assert_eq!(effects[6], SummaryEffect::SetProgress(55));
    let (run, _, _) = start_summary_run(SummaryJobKind::Texts);
    let (_, _, action) =
        advance_summary_run(run, SummaryEvent::Loaded(Err("db locked".to_string())));
    assert!(matches!(action, SummaryRunAction::Fail(ref e) if e == "db locked"));
}
