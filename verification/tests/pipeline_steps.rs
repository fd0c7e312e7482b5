use voice_vibe_local::pipeline::{
    complete_local_queue_pipeline_step, complete_pipeline, ensure_step_duration, fail_pipeline,
    initial_pipeline, pipeline_step_defs, queue_table_and_label, recalculate_pipeline_totals,
    reset_local_queue_pipeline, scale_progress, start_local_queue_pipeline_step, start_pipeline,
    step_duration_from_span, summary_pipeline_progress, transcription_pipeline_progress, Pipeline,
    PipelineStep,
};

const T0: &str = "2024-01-01T00:00:10Z";
const T1: &str = "2024-01-01T00:00:12.500Z";
const T2: &str = "2024-01-01T00:00:20Z";

fn status(p: &Pipeline, i: usize) -> &str {
    p.steps[i].status.as_deref().unwrap()
}

#[test]
fn new_pipelines_have_all_steps_pending() {
    let p = initial_pipeline("transcription", None).unwrap();
    let names: Vec<&str> = p.steps.iter().map(|s| s.name.as_deref().unwrap()).collect();
    assert_eq!(
        names,
        ["prepare_audio_environment", "run_asr", "save_result", "write_files"]
    );
    assert!(p.steps.iter().all(|s| s.status.as_deref() == Some("pending")
        && s.progress == Some(0)
        && !s.optional));
    assert_eq!(p.steps[1].display_name.as_deref(), Some("执行 ASR"));
    assert_eq!(p.total_progress, 0);
    assert_eq!(p.current_step_index, None);
    assert_eq!(p.started_at, None);
    let s = initial_pipeline("summary", Some(T0)).unwrap();
    assert_eq!(s.steps.len(), 5);
    assert_eq!(s.started_at.as_deref(), Some(T0));
    assert_eq!(
        initial_pipeline("video", None).err(),
        Some("Unknown queue type: video".to_string())
    );
}

#[test]
fn queue_types_map_to_tables() {
    assert_eq!(
        queue_table_and_label("transcription"),
        Ok(("transcription_jobs", "transcription"))
    );
    assert_eq!(queue_table_and_label("summary"), Ok(("summary_jobs", "summary")));
    assert_eq!(
        queue_table_and_label("other"),
        Err("Unknown queue type: other".to_string())
    );
    assert_eq!(pipeline_step_defs("summary").unwrap()[2], ("call_llm", "调用 LLM"));
}

#[test]
fn starting_a_step_settles_the_steps_before_it() {
    let p = start_local_queue_pipeline_step(None, "transcription", "run_asr", 5, T0).unwrap();
    assert_eq!(status(&p, 0), "completed");
    assert_eq!(p.steps[0].progress, Some(100));
    assert_eq!(p.steps[0].started_at.as_deref(), Some(T0));
    assert_eq!(p.steps[0].completed_at.as_deref(), Some(T0));
    assert_eq!(p.steps[0].duration_ms, Some(0));
    assert_eq!(status(&p, 1), "running");
    assert_eq!(p.steps[1].progress, Some(5));
    assert_eq!(p.steps[1].completed_at, None);
    assert_eq!(p.steps[1].duration_ms, None);
    assert_eq!(status(&p, 2), "pending");
    assert_eq!(p.current_step_index, Some(1));
    assert_eq!(p.total_progress, 26);
    assert_eq!(p.total_duration_ms, 0);
    assert_eq!(p.started_at.as_deref(), Some(T0));
    assert_eq!(p.completed_at, None);
}

#[test]
fn completing_a_step_records_its_duration() {
    let p = start_local_queue_pipeline_step(None, "transcription", "run_asr", 5, T0).unwrap();
    let p = complete_local_queue_pipeline_step(Some(p), "transcription", "run_asr", T1).unwrap();
    assert_eq!(status(&p, 1), "completed");
    assert_eq!(p.steps[1].progress, Some(100));
    assert_eq!(p.steps[1].started_at.as_deref(), Some(T0));
    assert_eq!(p.steps[1].completed_at.as_deref(), Some(T1));
    assert_eq!(p.steps[1].duration_ms, Some(2500));
    assert_eq!(p.total_progress, 50);
    assert_eq!(p.total_duration_ms, 2500);
}

#[test]
fn progress_is_clamped_and_unknown_steps_are_refused() {
    let p = start_local_queue_pipeline_step(None, "summary", "call_llm", 250, T0).unwrap();
    assert_eq!(p.steps[2].progress, Some(100));
    let q = start_local_queue_pipeline_step(None, "summary", "load_material", -7, T0).unwrap();
    assert_eq!(q.steps[0].progress, Some(0));
    assert_eq!(
        start_local_queue_pipeline_step(None, "summary", "nope", 1, T0).err(),
        Some("Unknown pipeline step nope for summary".to_string())
    );
    assert_eq!(
        start_local_queue_pipeline_step(None, "other", "run_asr", 1, T0).err(),
        Some("Unknown queue type: other".to_string())
    );
}

#[test]
fn failure_lands_on_the_running_step() {
    let p = start_local_queue_pipeline_step(None, "transcription", "run_asr", 40, T0).unwrap();
    let f = fail_pipeline(Some(p), "transcription", "boom", T2).unwrap();
    assert_eq!(status(&f, 0), "completed");
    assert_eq!(status(&f, 1), "failed");
    assert_eq!(f.steps[1].error.as_deref(), Some("boom"));
    assert_eq!(f.steps[1].metadata_error.as_deref(), Some("boom"));
    assert_eq!(f.steps[1].duration_ms, Some(10000));
    assert_eq!(status(&f, 2), "pending");
    assert_eq!(f.current_step_index, Some(1));
    assert_eq!(f.completed_at.as_deref(), Some(T2));
    assert_eq!(f.total_progress, 50);
}

#[test]
fn failure_without_a_running_step_lands_on_the_first_pending_one() {
    let p = start_local_queue_pipeline_step(None, "transcription", "run_asr", 5, T0).unwrap();
    let p = complete_local_queue_pipeline_step(Some(p), "transcription", "run_asr", T1).unwrap();
    let f = fail_pipeline(Some(p), "transcription", "disk full", T2).unwrap();
    assert_eq!(status(&f, 2), "failed");
    assert_eq!(f.current_step_index, Some(2));
    assert_eq!(f.total_progress, 75);
}

#[test]
fn completing_the_pipeline_completes_every_step() {
    let p = start_local_queue_pipeline_step(None, "summary", "build_prompt", 30, T0).unwrap();
    let done = complete_pipeline(Some(p), "summary", T2).unwrap();
    assert!(done.steps.iter().all(|s| s.status.as_deref() == Some("completed")
        && s.progress == Some(100)
        && s.error.is_none()));
    assert_eq!(done.total_progress, 100);
    assert_eq!(done.current_step_index, Some(4));
    assert_eq!(done.completed_at.as_deref(), Some(T2));
    assert_eq!(done.steps[1].duration_ms, Some(10000));
}

#[test]
fn stored_pipelines_without_steps_are_initialised() {
    let empty = Pipeline {
        steps: Vec::new(),
        current_step_index: None,
        total_progress: 0,
        total_duration_ms: 0,
        started_at: None,
        completed_at: None,
    };
    let started = start_pipeline(Some(empty), "transcription", T0).unwrap();
    assert_eq!(started.steps.len(), 4);
    assert_eq!(started.started_at.as_deref(), Some(T0));
    let reset = reset_local_queue_pipeline("summary").unwrap();
    assert_eq!(reset.steps.len(), 5);
    assert_eq!(reset.started_at, None);
}

#[test]
fn durations_come_from_the_timestamps() {
    assert_eq!(step_duration_from_span(Some(-5)), 0);
    assert_eq!(step_duration_from_span(None), 0);
    assert_eq!(step_duration_from_span(Some(42)), 42);
    let mut step = PipelineStep {
        name: Some("run_asr".to_string()),
        display_name: None,
        status: Some("completed".to_string()),
        progress: Some(100),
        optional: false,
        started_at: Some("2024-01-01T08:00:00+08:00".to_string()),
        completed_at: Some("2024-01-01T00:00:01.250Z".to_string()),
        duration_ms: None,
        error: None,
        metadata_error: None,
    };
    ensure_step_duration(&mut step, T0);
    assert_eq!(step.duration_ms, Some(1250));
    step.started_at = Some("not a time".to_string());
    step.duration_ms = None;
    ensure_step_duration(&mut step, T0);
    assert_eq!(step.duration_ms, Some(0));
    step.duration_ms = Some(7);
    ensure_step_duration(&mut step, T0);
    assert_eq!(step.duration_ms, Some(7));
}

#[test]
fn totals_average_the_step_weights() {
    let mut p = initial_pipeline("transcription", None).unwrap();
    p.steps[0].status = Some("skipped".to_string());
    p.steps[1].status = Some("failed".to_string());
    p.steps[1].progress = Some(30);
    p.steps[2].status = None;
    p.steps[2].duration_ms = Some(-3);
    p.steps[3].duration_ms = Some(40);
    recalculate_pipeline_totals(&mut p);
    assert_eq!(p.total_progress, 32);
    assert_eq!(p.total_duration_ms, 40);
}

fn float_scale(progress: i64, start: i64, end: i64) -> i64 {
    if end <= start {
        return 100;
    }
    (((progress - start).max(0) as f64 / (end - start) as f64) * 100.0)
        .round()
        .clamp(0.0, 100.0) as i64
}

#[test]
fn step_progress_matches_rounded_percentages() {
    for progress in -5..=105i64 {
        let expected_t = match progress {
            0..=34 => Some(("prepare_audio_environment", float_scale(progress, 5, 34))),
            35..=89 => Some(("run_asr", float_scale(progress, 35, 89))),
            90..=94 => Some(("save_result", float_scale(progress, 90, 94))),
            95..=99 => Some(("write_files", float_scale(progress, 95, 99))),
            _ => None,
        };
        assert_eq!(transcription_pipeline_progress(progress), expected_t, "{progress}");
        let expected_s = match progress {
            0..=34 => Some(("load_material", float_scale(progress, 10, 34))),
            55..=89 => Some(("call_llm", float_scale(progress, 55, 89))),
            90..=94 => Some(("save_result", float_scale(progress, 90, 94))),
            95..=99 => Some(("write_files", float_scale(progress, 95, 99))),
            _ => None,
        };
        assert_eq!(summary_pipeline_progress(progress), expected_s, "{progress}");
    }
    assert_eq!(scale_progress(13, 10, 34), 13);
    assert_eq!(scale_progress(3, 10, 10), 100);
    assert_eq!(summary_pipeline_progress(40), None);
}
