use voice_vibe_local::assistant_replies::{
    advance_run_finish, start_run_finish, RunAction, RunEvent, RunStage, SidecarReply,
};

fn reply(answer: Option<&str>, sources: Result<(), String>) -> RunEvent {
    RunEvent::Replied(Ok(SidecarReply {
        has_result: true,
        answer: answer.map(|a| a.to_string()),
        sources_checked: sources,
    }))
}

fn failure(action: RunAction) -> (String, String) {
    match action {
        RunAction::Fail { recorded, returned } => (recorded, returned),
        _ => panic!("expected the run to fail"),
    }
}

#[test]
fn a_run_stores_the_question_then_the_answer_then_completes() {
    let run = start_run_finish(false);
    let (run, action) = advance_run_finish(run, reply(Some(" 答案 "), Ok(())));
    assert!(matches!(action, RunAction::StoreQuestion));
    let (run, action) = advance_run_finish(run, RunEvent::StepDone(Ok(())));
    assert!(matches!(action, RunAction::StoreAnswer(ref a) if a == "答案"));
    let (run, action) = advance_run_finish(run, RunEvent::StepDone(Ok(())));
    assert!(matches!(action, RunAction::Complete(ref a) if a == "答案"));
    let (run, action) = advance_run_finish(run, RunEvent::StepDone(Ok(())));
    assert!(matches!(action, RunAction::LoadSession));
    let (run, action) = advance_run_finish(run, RunEvent::StepDone(Ok(())));
    assert!(matches!(action, RunAction::Done));
    assert_eq!(run.stage, RunStage::Finished);
}

#[test]
fn a_question_asked_again_is_not_stored_twice() {
    let run = start_run_finish(true);
    let (_, action) = advance_run_finish(run, reply(Some("a"), Ok(())));
    assert!(matches!(action, RunAction::StoreAnswer(ref a) if a == "a"));
}

#[test]
fn failures_mark_the_run_failed() {
    let (_, action) = advance_run_finish(
        start_run_finish(false),
        RunEvent::Replied(Err("timeout".to_string())),
    );
    assert_eq!(
        failure(action),
        ("timeout".to_string(), "ASSISTANT_SIDECAR_FAILED: timeout".to_string())
    );
    let (_, action) = advance_run_finish(start_run_finish(false), reply(Some("  "), Ok(())));
    let empty = "ASSISTANT_SIDECAR_FAILED: sidecar returned empty answer".to_string();
    assert_eq!(failure(action), (empty.clone(), empty));
    let bad = "ASSISTANT_SIDECAR_FAILED: invalid source entry".to_string();
    let (_, action) = advance_run_finish(start_run_finish(false), reply(Some("a"), Err(bad.clone())));
    assert_eq!(failure(action), (bad.clone(), bad));
    let (run, _) = advance_run_finish(start_run_finish(false), reply(Some("a"), Ok(())));
    let (_, action) = advance_run_finish(run, RunEvent::StepDone(Err("disk full".to_string())));
    assert_eq!(failure(action), ("disk full".to_string(), "disk full".to_string()));
}
