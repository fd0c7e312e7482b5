//! The jobs of the two local queues (transcription and summary) as the queue panel
//! lists them: how a job is titled, which jobs a listing selects, and the order it
//! shows them in, the most recently touched first.
use vstd::prelude::*;

use crate::sorting::{
    ascending_order, is_arrangement, is_ascending, is_newest_first, lex_less, newest_first_order,
};
use crate::text::{
    append_chars, ascii_lowercase, ascii_lowercase_chars, chars_of, contains, contains_exec,
    opt_str, opt_views, owned, str_is, string_from_chars,
};

verus! {

broadcast use vstd::string::group_string_axioms;

/// A job of one of the local queues. `metadata` is the job's JSON metadata, as text.
pub struct LocalQueueJob {
    pub id: String,
    pub queue_type: String,
    pub status: String,
    pub progress: i64,
    pub title: String,
    pub subtitle: Option<String>,
    pub workspace_folder: Option<String>,
    pub created_at: String,
    pub queued_at: Option<String>,
    pub started_at: Option<String>,
    pub finished_at: Option<String>,
    pub updated_at: Option<String>,
    pub error_message: Option<String>,
    pub retry_count: i64,
    pub recording_id: Option<String>,
    pub transcript_id: Option<String>,
    pub template_id: Option<String>,
    pub summary_scope: Option<String>,
    pub output_transcript_id: Option<String>,
    pub output_summary_id: Option<String>,
    pub metadata: Option<String>,
}

/// The string value of the top-level field `key` of the JSON document `text`; `None`
/// where the text is not JSON, not an object, lacks the field or holds no string there.
pub uninterp spec fn json_string_field(text: Seq<char>, key: Seq<char>) -> Option<Seq<char>>;

/// `serde_json::from_str::<Value>` on `text`, then `Value::get(key)` and
/// `Value::as_str`. Which documents parse, and to what, is left to serde_json: the
/// contract only names the result.
#[verifier::external_body]
pub(crate) fn json_str_field(text: &str, key: &str) -> (r: Option<String>)
    ensures
        opt_views(r) == json_string_field(text@, key@),
{
    match serde_json::from_str::<serde_json::Value>(text) {
        Ok(value) => value.get(key).and_then(|field| field.as_str()).map(|field| field.to_string()),
        Err(_) => None,
    }
}

/// The title of a transcription job: "转录 - " and the recording's title.
pub open spec fn transcription_title(recording_title: Seq<char>) -> Seq<char> {
    "转录 - "@ + recording_title
}

/// The title of a transcription job.
pub fn transcription_job_title(recording_title: &str) -> (r: String)
    ensures
        r@ == transcription_title(recording_title@),
{
    let mut t = chars_of("转录 - ");
    append_chars(&mut t, &chars_of(recording_title));
    string_from_chars(&t)
}

/// The title of a summary job: for a workspace summary the workspace's title and
/// " 综合总结" (or "综合总结" alone); for a text summary the title in its metadata (or
/// "文本总结"); otherwise "总结 - " and the recording's title.
pub open spec fn summary_title(
    scope: Seq<char>,
    workspace_title: Option<Seq<char>>,
    text_title: Option<Seq<char>>,
    recording_title: Seq<char>,
) -> Seq<char> {
    if scope == "workspace"@ {
        match workspace_title {
            Some(t) => t + " 综合总结"@,
            None => "综合总结"@,
        }
    } else if scope == "workspace_text"@ || scope == "single_text"@ {
        match text_title {
            Some(t) => t,
            None => "文本总结"@,
        }
    } else {
        "总结 - "@ + recording_title
    }
}

/// The title of a summary job from the fields read from its metadata.
pub fn summary_title_from_fields(
    scope: &str,
    workspace_title: Option<String>,
    text_title: Option<String>,
    recording_title: &str,
) -> (r: String)
    ensures
        r@ == summary_title(scope@, opt_views(workspace_title), opt_views(text_title), recording_title@),
{
    if str_is(scope, "workspace") {
        match workspace_title {
            Some(t) => {
                let mut out = chars_of(t.as_str());
                append_chars(&mut out, &chars_of(" 综合总结"));
                string_from_chars(&out)
            },
            None => owned("综合总结"),
        }
    } else if str_is(scope, "workspace_text") || str_is(scope, "single_text") {
        match text_title {
            Some(t) => t,
            None => owned("文本总结"),
        }
    } else {
        let mut out = chars_of("总结 - ");
        append_chars(&mut out, &chars_of(recording_title));
        string_from_chars(&out)
    }
}

/// The string field `key` of the optional metadata text.
pub open spec fn metadata_field(metadata: Option<&str>, key: Seq<char>) -> Option<Seq<char>> {
    match metadata {
        Some(t) => json_string_field(t@, key),
        None => None,
    }
}

/// The title of a summary job, reading `workspace_title` or `title` from its metadata.
pub fn summary_job_title(scope: &str, metadata: Option<&str>, recording_title: &str) -> (r: String)
    ensures
        r@ == summary_title(
            scope@,
            metadata_field(metadata, "workspace_title"@),
            metadata_field(metadata, "title"@),
            recording_title@,
        ),
{
    let workspace_title = match metadata {
        Some(t) => json_str_field(t, "workspace_title"),
        None => None,
    };
    let text_title = match metadata {
        Some(t) => json_str_field(t, "title"),
        None => None,
    };
    summary_title_from_fields(scope, workspace_title, text_title, recording_title)
}

/// Whether a listing with this workspace and status filter selects the job; a job
/// without a workspace is never selected by a workspace filter.
pub open spec fn job_selected(
    job: LocalQueueJob,
    workspace_folder: Option<Seq<char>>,
    status: Option<Seq<char>>,
) -> bool {
    &&& match workspace_folder {
        Some(w) => opt_views(job.workspace_folder) == Some(w),
        None => true,
    }
    &&& match status {
        Some(s) => job.status@ == s,
        None => true,
    }
}

/// The jobs a listing selects, in their order.
pub open spec fn selected_jobs(
    jobs: Seq<LocalQueueJob>,
    workspace_folder: Option<Seq<char>>,
    status: Option<Seq<char>>,
) -> Seq<LocalQueueJob>
    decreases jobs.len(),
{
    if jobs.len() == 0 {
        Seq::empty()
    } else {
        let rest = selected_jobs(jobs.drop_last(), workspace_folder, status);
        if job_selected(jobs.last(), workspace_folder, status) {
            rest.push(jobs.last())
        } else {
            rest
        }
    }
}

/// Whether a listing for `queue_type` (all queues where absent) includes the queue
/// `kind`.
pub open spec fn queue_included(queue_type: Option<Seq<char>>, kind: Seq<char>) -> bool {
    match queue_type {
        Some(q) => q == kind,
        None => true,
    }
}

/// The jobs of a listing before ordering: the selected transcription jobs, then the
/// selected summary jobs, each queue only where the listing includes it.
pub open spec fn listed_jobs(
    workspace_folder: Option<Seq<char>>,
    queue_type: Option<Seq<char>>,
    status: Option<Seq<char>>,
    transcription_jobs: Seq<LocalQueueJob>,
    summary_jobs: Seq<LocalQueueJob>,
) -> Seq<LocalQueueJob> {
    (if queue_included(queue_type, "transcription"@) {
        selected_jobs(transcription_jobs, workspace_folder, status)
    } else {
        Seq::empty()
    }) + (if queue_included(queue_type, "summary"@) {
        selected_jobs(summary_jobs, workspace_folder, status)
    } else {
        Seq::empty()
    })
}

/// The time a job was last touched: its update time, else its creation time.
pub open spec fn job_key(job: LocalQueueJob) -> Seq<char> {
    match job.updated_at {
        Some(u) => u@,
        None => job.created_at@,
    }
}

/// Whether a listing for `queue_type` includes the queue `kind`.
pub fn includes_queue(queue_type: Option<&str>, kind: &str) -> (b: bool)
    ensures
        b == queue_included(opt_str(queue_type), kind@),
{
    match queue_type {
        Some(q) => str_is(q, kind),
        None => true,
    }
}

fn opt_is(v: &Option<String>, s: &str) -> (b: bool)
    ensures
        b == (opt_views(*v) == Some(s@)),
{
    match v {
        Some(x) => str_is(x.as_str(), s),
        None => false,
    }
}

fn is_selected(job: &LocalQueueJob, workspace_folder: Option<&str>, status: Option<&str>) -> (b:
    bool)
    ensures
        b == job_selected(*job, opt_str(workspace_folder), opt_str(status)),
{
    let in_workspace = match workspace_folder {
        Some(w) => opt_is(&job.workspace_folder, w),
        None => true,
    };
    let with_status = match status {
        Some(s) => str_is(job.status.as_str(), s),
        None => true,
    };
    in_workspace && with_status
}

/// Appends the jobs that the filters select to `out`.
fn append_selected(
    out: &mut Vec<LocalQueueJob>,
    jobs: Vec<LocalQueueJob>,
    workspace_folder: Option<&str>,
    status: Option<&str>,
)
    ensures
        final(out)@ == old(out)@ + selected_jobs(jobs@, opt_str(workspace_folder), opt_str(status)),
{
    let ghost start = out@;
    let ghost all = jobs@;
    for job in it: jobs
        invariant
            it.seq() == all,
            out@ == start + selected_jobs(
                all.take(it.index() as int),
                opt_str(workspace_folder),
                opt_str(status),
            ),
    {
        proof {
            assert(all.take(it.index() + 1).drop_last() =~= all.take(it.index() as int));
            assert(all.take(it.index() + 1).last() == job);
        }
        if is_selected(&job, workspace_folder, status) {
            out.push(job);
        }
    }
    proof {
        assert(all.take(all.len() as int) =~= all);
    }
}

/// The key each job is ordered by.
fn job_keys(jobs: &Vec<LocalQueueJob>) -> (keys: Vec<Vec<char>>)
    ensures
        keys@.map_values(|k: Vec<char>| k@) == jobs@.map_values(|j: LocalQueueJob| job_key(j)),
{
    let mut keys: Vec<Vec<char>> = Vec::new();
    let mut i: usize = 0;
    while i < jobs.len()
        invariant
            i <= jobs@.len(),
            keys@.len() == i,
            forall|k: int| 0 <= k < i ==> (#[trigger] keys@[k])@ == job_key(jobs@[k]),
        decreases jobs.len() - i,
    {
        let key = match &jobs[i].updated_at {
            Some(u) => chars_of(u.as_str()),
            None => chars_of(jobs[i].created_at.as_str()),
        };
        keys.push(key);
        i += 1;
    }
    assert(keys@.map_values(|k: Vec<char>| k@) =~= jobs@.map_values(|j: LocalQueueJob| job_key(j)));
    keys
}

/// The items rearranged: position `i` of the result holds item `order[i]`.
fn arrange(items: Vec<LocalQueueJob>, order: &Vec<usize>) -> (r: Vec<LocalQueueJob>)
    requires
        is_arrangement(order@, items@.len() as int),
    ensures
        r@.len() == items@.len(),
        forall|i: int| 0 <= i < r@.len() ==> #[trigger] r@[i] == items@[order@[i] as int],
{
    let ghost all = items@;
    let n = items.len();
    let mut slots: Vec<Option<LocalQueueJob>> = Vec::new();
    for item in it: items
        invariant
            it.seq() == all,
            slots@.len() == it.index(),
            forall|k: int| 0 <= k < it.index() ==> #[trigger] slots@[k] == Some(all[k]),
    {
        slots.push(Some(item));
    }
    let mut out: Vec<LocalQueueJob> = Vec::new();
    let mut i: usize = 0;
    while i < n
        invariant
            n == all.len() == slots@.len(),
            is_arrangement(order@, n as int),
            i <= n,
            out@.len() == i,
            forall|k: int| 0 <= k < i ==> #[trigger] out@[k] == all[order@[k] as int],
            forall|j: int|
                0 <= j < n && (forall|k: int| 0 <= k < i ==> order@[k] != j) ==> #[trigger] slots@[j]
                    == Some(all[j]),
        decreases n - i,
    {
        let o = order[i];
        proof {
            assert(forall|k: int| 0 <= k < i ==> order@[k] != order@[i as int]);
        }
        let mut taken: Option<LocalQueueJob> = None;
        slots.set_and_swap(o, &mut taken);
        match taken {
            Some(job) => {
                out.push(job);
            },
            None => {
                proof {
                    assert(false);
                }
            },
        }
        i += 1;
    }
    out
}

/// The jobs of a listing: the transcription and the summary jobs that the filters
/// select (each queue only where `queue_type` includes it), newest first by the time
/// each was last touched, jobs touched at the same time in the order they were listed.
pub fn list_local_queue_jobs(
    workspace_folder: Option<&str>,
    queue_type: Option<&str>,
    status: Option<&str>,
    transcription_jobs: Vec<LocalQueueJob>,
    summary_jobs: Vec<LocalQueueJob>,
) -> (r: Vec<LocalQueueJob>)
    ensures
        ({
            let listed = listed_jobs(
                opt_str(workspace_folder),
                opt_str(queue_type),
                opt_str(status),
                transcription_jobs@,
                summary_jobs@,
            );
            exists|order: Seq<usize>|
                {
                    &&& is_arrangement(order, listed.len() as int)
                    &&& is_newest_first(listed.map_values(|j: LocalQueueJob| job_key(j)), order)
                    &&& r@.len() == listed.len()
                    &&& forall|i: int|
                        0 <= i < r@.len() ==> #[trigger] r@[i] == listed[order[i] as int]
                }
        }),
{
    let ghost listed = listed_jobs(
        opt_str(workspace_folder),
        opt_str(queue_type),
        opt_str(status),
        transcription_jobs@,
        summary_jobs@,
    );
    let mut jobs: Vec<LocalQueueJob> = Vec::new();
    if includes_queue(queue_type, "transcription") {
        append_selected(&mut jobs, transcription_jobs, workspace_folder, status);
    }
    if includes_queue(queue_type, "summary") {
        append_selected(&mut jobs, summary_jobs, workspace_folder, status);
    }
    assert(jobs@ =~= listed);
    let keys = job_keys(&jobs);
    let order = newest_first_order(&keys);
    proof {
        assert(keys@.len() == keys@.map_values(|k: Vec<char>| k@).len());
        assert(jobs@.len() == jobs@.map_values(|j: LocalQueueJob| job_key(j)).len());
    }
    let ghost arranged = jobs@;
    let r = arrange(jobs, &order);
    proof {
        assert(arranged == listed);
        assert(is_arrangement(order@, listed.len() as int));
        assert(is_newest_first(listed.map_values(|j: LocalQueueJob| job_key(j)), order@));
        assert(forall|i: int| 0 <= i < r@.len() ==> #[trigger] r@[i] == listed[order@[i] as int]);
    }
    r
}

/// The pending transcription jobs, newest first.
pub fn pending_transcription_jobs(transcription_jobs: Vec<LocalQueueJob>) -> (r: Vec<
    LocalQueueJob,
>)
    ensures
        ({
            let listed = selected_jobs(transcription_jobs@, None, Some("pending"@));
            exists|order: Seq<usize>|
                {
                    &&& is_arrangement(order, listed.len() as int)
                    &&& is_newest_first(listed.map_values(|j: LocalQueueJob| job_key(j)), order)
                    &&& r@.len() == listed.len()
                    &&& forall|i: int|
                        0 <= i < r@.len() ==> #[trigger] r@[i] == listed[order[i] as int]
                }
        }),
{
    let r = list_local_queue_jobs(
        None,
        Some("transcription"),
        Some("pending"),
        transcription_jobs,
        Vec::new(),
    );
    proof {
        let listed = selected_jobs(transcription_jobs@, None, Some("pending"@));
        assert(listed_jobs(
            None,
            Some("transcription"@),
            Some("pending"@),
            transcription_jobs@,
            Seq::empty(),
        ) =~= listed) by {
            reveal_strlit("transcription");
            reveal_strlit("summary");
            assert("transcription"@.len() != "summary"@.len());
            assert(selected_jobs(Seq::<LocalQueueJob>::empty(), None, Some("pending"@))
                =~= Seq::<LocalQueueJob>::empty());
        }
    }
    r
}

/// The pending summary jobs, newest first.
pub fn pending_summary_jobs(summary_jobs: Vec<LocalQueueJob>) -> (r: Vec<LocalQueueJob>)
    ensures
        ({
            let listed = selected_jobs(summary_jobs@, None, Some("pending"@));
            exists|order: Seq<usize>|
                {
                    &&& is_arrangement(order, listed.len() as int)
                    &&& is_newest_first(listed.map_values(|j: LocalQueueJob| job_key(j)), order)
                    &&& r@.len() == listed.len()
                    &&& forall|i: int|
                        0 <= i < r@.len() ==> #[trigger] r@[i] == listed[order[i] as int]
                }
        }),
{
    let r = list_local_queue_jobs(None, Some("summary"), Some("pending"), Vec::new(), summary_jobs);
    proof {
        let listed = selected_jobs(summary_jobs@, None, Some("pending"@));
        assert(listed_jobs(None, Some("summary"@), Some("pending"@), Seq::empty(), summary_jobs@)
            =~= listed) by {
            reveal_strlit("transcription");
            reveal_strlit("summary");
            assert("transcription"@.len() != "summary"@.len());
            assert(selected_jobs(Seq::<LocalQueueJob>::empty(), None, Some("pending"@))
                =~= Seq::<LocalQueueJob>::empty());
        }
    }
    r
}


/// What becomes of a job when the application starts again.
pub enum JobRecovery {
    /// It was not running: it stays as it is.
    Unchanged,
    /// It was running and had produced its output: it is marked as succeeded, and its
    /// pipeline is completed.
    Complete,
    /// It was running without output: it is queued again with the error code
    /// `QUEUE_RECOVERED` and its message, and its pipeline is started afresh.
    Requeue { error_code: String, error_message: String },
}

/// Whether a job of `queue_type` had produced its output: a transcript for a
/// transcription job, a summary for a summary job.
pub open spec fn has_output(job: LocalQueueJob, queue_type: Seq<char>) -> bool {
    if queue_type == "transcription"@ {
        job.output_transcript_id is Some
    } else {
        job.output_summary_id is Some
    }
}

/// The message a requeued job of `queue_type` is given.
pub open spec fn recovered_message(queue_type: Seq<char>) -> Seq<char> {
    if queue_type == "transcription"@ {
        "应用重启后自动恢复未完成的转录任务"@
    } else {
        "应用重启后自动恢复未完成的总结任务"@
    }
}

/// Settles a job of `queue_type` that may have been running when the application
/// stopped, at `now`: a running job with its output has succeeded at 100%, finished now
/// unless it had finished before; a running job without output is pending again at 0%,
/// not started, with the recovery message; either is updated now. Any other job is
/// given back unchanged.
pub fn recover_queue_job(job: LocalQueueJob, queue_type: &str, now: &str) -> (r: (
    LocalQueueJob,
    JobRecovery,
))
    ensures
        job.status@ != "running"@ ==> r.0 == job && r.1 is Unchanged,
        job.status@ == "running"@ && has_output(job, queue_type@) ==> {
            &&& r.1 is Complete
            &&& r.0 == (LocalQueueJob {
                status: r.0.status,
                progress: 100,
                finished_at: r.0.finished_at,
                updated_at: r.0.updated_at,
                ..job
            })
            &&& r.0.status@ == "succeeded"@
            &&& r.0.finished_at matches Some(f) && f@ == (match job.finished_at {
                Some(g) => g@,
                None => now@,
            })
            &&& r.0.updated_at matches Some(u) && u@ == now@
        },
        job.status@ == "running"@ && !has_output(job, queue_type@) ==> {
            &&& r.1 matches JobRecovery::Requeue { error_code, error_message }
                && error_code@ == "QUEUE_RECOVERED"@ && error_message@ == recovered_message(
                queue_type@,
            )
            &&& r.0 == (LocalQueueJob {
                status: r.0.status,
                progress: 0,
                started_at: None,
                updated_at: r.0.updated_at,
                error_message: r.0.error_message,
                ..job
            })
            &&& r.0.status@ == "pending"@
            &&& r.0.updated_at matches Some(u) && u@ == now@
            &&& r.0.error_message matches Some(m) && m@ == recovered_message(queue_type@)
        },
{
    if !str_is(job.status.as_str(), "running") {
        return (job, JobRecovery::Unchanged);
    }
    let transcription = str_is(queue_type, "transcription");
    let output = if transcription {
        job.output_transcript_id.is_some()
    } else {
        job.output_summary_id.is_some()
    };
    let message = if transcription {
        owned("应用重启后自动恢复未完成的转录任务")
    } else {
        owned("应用重启后自动恢复未完成的总结任务")
    };
    if output {
        let finished_at = match job.finished_at {
            Some(f) => Some(f),
            None => Some(owned(now)),
        };
        let done = LocalQueueJob {
            status: owned("succeeded"),
            progress: 100,
            finished_at,
            updated_at: Some(owned(now)),
            ..job
        };
        (done, JobRecovery::Complete)
    } else {
        let again = LocalQueueJob {
            status: owned("pending"),
            progress: 0,
            started_at: None,
            updated_at: Some(owned(now)),
            error_message: Some(owned(message.as_str())),
            ..job
        };
        (again, JobRecovery::Requeue { error_code: owned("QUEUE_RECOVERED"), error_message: message })
    }
}

/// A stored summary.
pub struct SummaryRecord {
    pub id: String,
    pub transcript_id: Option<String>,
    pub job_id: String,
    pub template_id: String,
    pub title: Option<String>,
    pub content: String,
    pub result_json: Option<String>,
    pub provider: String,
    pub model: String,
    pub created_at: String,
    pub updated_at: String,
}

/// The result of a workspace summary job.
pub struct WorkspaceSummaryResult {
    pub job_id: String,
    pub content: String,
    pub summary: SummaryRecord,
}

/// The result of a workspace summary job from its stored summary: the summary's
/// content alongside the summary itself.
pub fn workspace_summary_result_from_summary(job_id: String, summary: SummaryRecord) -> (r:
    WorkspaceSummaryResult)
    ensures
        r.job_id == job_id,
        r.content@ == summary.content@,
        r.summary == summary,
{
    let content = summary.content.clone();
    WorkspaceSummaryResult { job_id, content, summary }
}

/// Whether a failed transcription is worth one retry: the error (in any case) tells of
/// a speech worker that exited, a broken pipe, or a failed exchange with the worker.
pub open spec fn retryable_asr_error(error: Seq<char>) -> bool {
    let lower = ascii_lowercase(error);
    contains(lower, "worker exited"@) || contains(lower, "broken pipe"@) || contains(
        lower,
        "failed to write asr worker"@,
    ) || contains(lower, "failed to read asr worker"@) || contains(
        lower,
        "invalid asr worker json"@,
    )
}

/// Whether a failed transcription is worth one retry.
pub fn should_retry_asr_error(error: &str) -> (b: bool)
    ensures
        b == retryable_asr_error(error@),
{
    let lower = ascii_lowercase_chars(&chars_of(error));
    contains_exec(&lower, &chars_of("worker exited")) || contains_exec(
        &lower,
        &chars_of("broken pipe"),
    ) || contains_exec(&lower, &chars_of("failed to write asr worker")) || contains_exec(
        &lower,
        &chars_of("failed to read asr worker"),
    ) || contains_exec(&lower, &chars_of("invalid asr worker json"))
}

/// Whether a failed transcription is run once more: its error is one a restarted worker
/// may not meet again, and it has not been retried yet.
pub fn retry_transcription_once(error: &str, retry_count: i64) -> (b: bool)
    ensures
        b == (retryable_asr_error(error@) && retry_count < 1),
{
    should_retry_asr_error(error) && retry_count < 1
}

/// The order in which pending jobs run: by the time they were created, earliest first;
/// jobs created at the same time keep the order they were listed in.
pub fn submission_order(jobs: &Vec<LocalQueueJob>) -> (order: Vec<usize>)
    ensures
        is_arrangement(order@, jobs@.len() as int),
        is_ascending(jobs@.map_values(|j: LocalQueueJob| j.created_at@), order@),
{
    let mut keys: Vec<Vec<char>> = Vec::new();
    let mut i: usize = 0;
    while i < jobs.len()
        invariant
            i <= jobs@.len(),
            keys@.len() == i,
            forall|k: int| 0 <= k < i ==> (#[trigger] keys@[k])@ == jobs@[k].created_at@,
        decreases jobs.len() - i,
    {
        keys.push(chars_of(jobs[i].created_at.as_str()));
        i += 1;
    }
    assert(keys@.map_values(|k: Vec<char>| k@) =~= jobs@.map_values(
        |j: LocalQueueJob| j.created_at@,
    ));
    ascending_order(&keys)
}

} // verus!
