use voice_vibe_local::queue_jobs::{
    includes_queue, list_local_queue_jobs, pending_summary_jobs, pending_transcription_jobs,
    recover_queue_job, retry_transcription_once, should_retry_asr_error, submission_order,
    summary_job_title, summary_title_from_fields, transcription_job_title,
    workspace_summary_result_from_summary, JobRecovery, LocalQueueJob, SummaryRecord,
};

fn job(id: &str, queue: &str, status: &str, workspace: Option<&str>, created: &str, updated: Option<&str>) -> LocalQueueJob {
    LocalQueueJob {
        id: id.to_string(),
        queue_type: queue.to_string(),
        status: status.to_string(),
        progress: 0,
        title: id.to_string(),
        subtitle: None,
        workspace_folder: workspace.map(|w| w.to_string()),
        created_at: created.to_string(),
        queued_at: None,
        started_at: None,
        finished_at: None,
        updated_at: updated.map(|u| u.to_string()),
        error_message: None,
        retry_count: 0,
        recording_id: None,
        transcript_id: None,
        template_id: None,
        summary_scope: None,
        output_transcript_id: None,
        output_summary_id: None,
        metadata: None,
    }
}

fn ids(jobs: &[LocalQueueJob]) -> Vec<&str> {
    jobs.iter().map(|j| j.id.as_str()).collect()
}

fn sample() -> (Vec<LocalQueueJob>, Vec<LocalQueueJob>) {
    let transcription = vec![
        job("t1", "transcription", "pending", Some("a"), "2024-01-01T00:00:01Z", None),
        job("t2", "transcription", "running", Some("b"), "2024-01-01T00:00:02Z", Some("2024-01-03T00:00:00Z")),
        job("t3", "transcription", "pending", None, "2024-01-02T00:00:00Z", None),
    ];
    let summary = vec![
        job("s1", "summary", "pending", Some("a"), "2024-01-01T00:00:00Z", Some("2024-01-02T00:00:00Z")),
        job("s2", "summary", "succeeded", Some("a"), "2024-01-05T00:00:00Z", None),
    ];
    (transcription, summary)
}

#[test]
fn listing_puts_the_most_recently_touched_job_first() {
    let (t, s) = sample();
    let jobs = list_local_queue_jobs(None, None, None, t, s);
    assert_eq!(ids(&jobs), ["s2", "t2", "t3", "s1", "t1"]);
}

#[test]
fn jobs_touched_at_the_same_time_keep_their_listed_order() {
    let t = vec![
        job("t1", "transcription", "pending", None, "2024-01-01T00:00:00Z", None),
        job("t2", "transcription", "pending", None, "2024-01-01T00:00:00Z", None),
    ];
    let s = vec![job("s1", "summary", "pending", None, "2024-01-01T00:00:00Z", None)];
    let jobs = list_local_queue_jobs(None, None, None, t, s);
    assert_eq!(ids(&jobs), ["t1", "t2", "s1"]);
}

#[test]
fn listing_filters_by_queue_workspace_and_status() {
    let (t, s) = sample();
    assert_eq!(
        ids(&list_local_queue_jobs(Some("a"), None, None, t.clone_jobs(), s.clone_jobs())),
        ["s2", "s1", "t1"]
    );
    assert_eq!(
        ids(&list_local_queue_jobs(None, Some("summary"), None, t.clone_jobs(), s.clone_jobs())),
        ["s2", "s1"]
    );
    assert_eq!(
        ids(&list_local_queue_jobs(None, None, Some("pending"), t.clone_jobs(), s.clone_jobs())),
        ["t3", "s1", "t1"]
    );
    assert!(list_local_queue_jobs(None, Some("other"), None, t, s).is_empty());
    assert!(includes_queue(None, "summary"));
    assert!(!includes_queue(Some("transcription"), "summary"));
}

trait CloneJobs {
    fn clone_jobs(&self) -> Vec<LocalQueueJob>;
}

impl CloneJobs for Vec<LocalQueueJob> {
    fn clone_jobs(&self) -> Vec<LocalQueueJob> {
        self.iter()
            .map(|j| {
                job(
                    &j.id,
                    &j.queue_type,
                    &j.status,
                    j.workspace_folder.as_deref(),
                    &j.created_at,
                    j.updated_at.as_deref(),
                )
            })
            .collect()
    }
}

#[test]
fn pending_jobs_of_one_queue() {
    let (t, s) = sample();
    assert_eq!(ids(&pending_transcription_jobs(t)), ["t3", "t1"]);
    assert_eq!(ids(&pending_summary_jobs(s)), ["s1"]);
}

#[test]
fn job_titles() {
    assert_eq!(transcription_job_title("晨会"), "转录 - 晨会");
    assert_eq!(
        summary_job_title("workspace", Some(r#"{"workspace_title":"项目A"}"#), "x"),
        "项目A 综合总结"
    );
    assert_eq!(summary_job_title("workspace", Some("not json"), "x"), "综合总结");
    assert_eq!(summary_job_title("workspace", None, "x"), "综合总结");
    assert_eq!(
        summary_job_title("single_text", Some(r#"{"title":"读书笔记"}"#), "x"),
        "读书笔记"
    );
    assert_eq!(summary_job_title("workspace_text", Some(r#"{"title":3}"#), "x"), "文本总结");
    assert_eq!(summary_job_title("recording", Some("{}"), "晨会"), "总结 - 晨会");
    assert_eq!(
        summary_title_from_fields("workspace", Some("W".to_string()), None, "r"),
        "W 综合总结"
    );
}

#[test]
fn workspace_summary_result_carries_the_content() {
    let summary = SummaryRecord {
        id: "sum-1".to_string(),
        transcript_id: None,
        job_id: "job-1".to_string(),
        template_id: "tpl".to_string(),
        title: Some("T".to_string()),
        content: "# 总结".to_string(),
        result_json: None,
        provider: "custom".to_string(),
        model: "m".to_string(),
        created_at: "c".to_string(),
        updated_at: "u".to_string(),
    };
    let result = workspace_summary_result_from_summary("job-1".to_string(), summary);
    assert_eq!(result.job_id, "job-1");
    assert_eq!(result.content, "# 总结");
    assert_eq!(result.summary.id, "sum-1");
}

#[test]
fn worker_failures_are_retried() {
    assert!(should_retry_asr_error("ASR Worker Exited unexpectedly"));
    assert!(should_retry_asr_error("write: Broken pipe"));
    assert!(should_retry_asr_error("Invalid ASR worker JSON: eof"));
    assert!(!should_retry_asr_error("model missing"));
}

#[test]
fn pending_jobs_run_in_submission_order() {
    let jobs = vec![
        job("c", "transcription", "pending", None, "2026-01-03", None),
        job("a", "transcription", "pending", None, "2026-01-01", None),
        job("b1", "transcription", "pending", None, "2026-01-02", None),
        job("b2", "transcription", "pending", None, "2026-01-02", None),
    ];
    let order = submission_order(&jobs);
    let ids: Vec<&str> = order.iter().map(|&i| jobs[i].id.as_str()).collect();
    assert_eq!(ids, vec!["a", "b1", "b2", "c"]);
}

#[test]
fn a_transcription_is_retried_once_after_a_worker_crash() {
    assert!(retry_transcription_once("ASR worker exited before returning a response", 0));
    assert!(!retry_transcription_once("ASR worker exited before returning a response", 1));
    assert!(!retry_transcription_once("model not found", 0));
}

fn running_job(output: Option<&str>) -> LocalQueueJob {
    LocalQueueJob {
        id: "j1".to_string(),
        queue_type: "transcription".to_string(),
        status: "running".to_string(),
        progress: 40,
        title: "转录 - a".to_string(),
        subtitle: None,
        workspace_folder: None,
        created_at: "t0".to_string(),
        queued_at: None,
        started_at: Some("t1".to_string()),
        finished_at: None,
        updated_at: Some("t1".to_string()),
        error_message: None,
        retry_count: 0,
        recording_id: Some("r1".to_string()),
        transcript_id: None,
        template_id: None,
        summary_scope: None,
        output_transcript_id: output.map(|o| o.to_string()),
        output_summary_id: None,
        metadata: None,
    }
}

#[test]
fn interrupted_jobs_are_completed_or_queued_again() {
    let (done, recovery) = recover_queue_job(running_job(Some("tr1")), "transcription", "now");
    assert!(matches!(recovery, JobRecovery::Complete));
    assert_eq!(done.status, "succeeded");
    assert_eq!(done.progress, 100);
    assert_eq!(done.finished_at.as_deref(), Some("now"));
    let (again, recovery) = recover_queue_job(running_job(None), "transcription", "now");
    match recovery {
        JobRecovery::Requeue { error_code, error_message } => {
            assert_eq!(error_code, "QUEUE_RECOVERED");
            assert_eq!(error_message, "应用重启后自动恢复未完成的转录任务");
        }
        _ => panic!("a running job without output is queued again"),
    }
    assert_eq!(again.status, "pending");
    assert_eq!(again.progress, 0);
    assert_eq!(again.started_at, None);
    let mut idle = running_job(None);
    idle.status = "pending".to_string();
    let (same, recovery) = recover_queue_job(idle, "transcription", "now");
    assert!(matches!(recovery, JobRecovery::Unchanged));
    assert_eq!(same.updated_at.as_deref(), Some("t1"));
}
