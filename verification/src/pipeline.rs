//! The step pipeline kept in the metadata of every local queue job.
//!
//! A transcription job runs four steps and a summary job five. Each step has a
//! status, a progress percentage and timing; the pipeline keeps the current step and
//! the overall progress. Starting a step settles every step before it; completing
//! the pipeline completes all steps; a failure is recorded on the running step.
use vstd::prelude::*;

use crate::text::{chars_of, opt_str, opt_views, owned, str_is};

verus! {

broadcast use vstd::string::group_string_axioms;

/// One step of a job pipeline. Absent fields are `None`.
pub struct PipelineStep {
    pub name: Option<String>,
    pub display_name: Option<String>,
    pub status: Option<String>,
    pub progress: Option<i64>,
    pub optional: bool,
    pub started_at: Option<String>,
    pub completed_at: Option<String>,
    pub duration_ms: Option<i64>,
    /// `error.message`.
    pub error: Option<String>,
    /// `metadata.error`.
    pub metadata_error: Option<String>,
}

/// The pipeline of a queue job.
pub struct Pipeline {
    pub steps: Vec<PipelineStep>,
    pub current_step_index: Option<usize>,
    pub total_progress: i64,
    pub total_duration_ms: i64,
    pub started_at: Option<String>,
    pub completed_at: Option<String>,
}

/// What a step holds, as text and numbers.
pub struct StepView {
    pub name: Option<Seq<char>>,
    pub display_name: Option<Seq<char>>,
    pub status: Option<Seq<char>>,
    pub progress: Option<i64>,
    pub optional: bool,
    pub started_at: Option<Seq<char>>,
    pub completed_at: Option<Seq<char>>,
    pub duration_ms: Option<i64>,
    pub error: Option<Seq<char>>,
    pub metadata_error: Option<Seq<char>>,
}

/// What a pipeline holds.
pub struct PipelineView {
    pub steps: Seq<StepView>,
    pub current_step_index: Option<usize>,
    pub total_progress: i64,
    pub total_duration_ms: i64,
    pub started_at: Option<Seq<char>>,
    pub completed_at: Option<Seq<char>>,
}

impl View for PipelineStep {
    type V = StepView;

    open spec fn view(&self) -> StepView {
        StepView {
            name: opt_views(self.name),
            display_name: opt_views(self.display_name),
            status: opt_views(self.status),
            progress: self.progress,
            optional: self.optional,
            started_at: opt_views(self.started_at),
            completed_at: opt_views(self.completed_at),
            duration_ms: self.duration_ms,
            error: opt_views(self.error),
            metadata_error: opt_views(self.metadata_error),
        }
    }
}

/// The views of the steps.
pub open spec fn step_views(steps: Seq<PipelineStep>) -> Seq<StepView> {
    Seq::new(steps.len(), |i: int| steps[i]@)
}

impl View for Pipeline {
    type V = PipelineView;

    open spec fn view(&self) -> PipelineView {
        PipelineView {
            steps: step_views(self.steps@),
            current_step_index: self.current_step_index,
            total_progress: self.total_progress,
            total_duration_ms: self.total_duration_ms,
            started_at: opt_views(self.started_at),
            completed_at: opt_views(self.completed_at),
        }
    }
}

/// The steps of a transcription job: name and display name.
pub open spec fn transcription_steps() -> Seq<(Seq<char>, Seq<char>)> {
    seq![
        ("prepare_audio_environment"@, "准备音频和环境"@),
        ("run_asr"@, "执行 ASR"@),
        ("save_result"@, "保存转录结果"@),
        ("write_files"@, "写入结果文件"@),
    ]
}

/// The steps of a summary job: name and display name.
pub open spec fn summary_steps() -> Seq<(Seq<char>, Seq<char>)> {
    seq![
        ("load_material"@, "加载材料"@),
        ("build_prompt"@, "组装提示词"@),
        ("call_llm"@, "调用 LLM"@),
        ("save_result"@, "保存总结结果"@),
        ("write_files"@, "写入结果文件"@),
    ]
}

/// The step definitions of a queue type, or `None` for an unknown type.
pub open spec fn step_defs_spec(queue_type: Seq<char>) -> Option<Seq<(Seq<char>, Seq<char>)>> {
    if queue_type == "transcription"@ {
        Some(transcription_steps())
    } else if queue_type == "summary"@ {
        Some(summary_steps())
    } else {
        None
    }
}

/// The error for an unknown queue type.
pub open spec fn unknown_queue_type(queue_type: Seq<char>) -> Seq<char> {
    "Unknown queue type: "@ + queue_type
}

fn unknown_queue_type_error(queue_type: &str) -> (e: String)
    ensures
        e@ == unknown_queue_type(queue_type@),
{
    let mut m = chars_of("Unknown queue type: ");
    crate::text::append_chars(&mut m, &chars_of(queue_type));
    crate::text::string_from_chars(&m)
}

fn reveal_queue_types()
    ensures
        "transcription"@ != "summary"@,
{
    proof {
        reveal_strlit("transcription");
        reveal_strlit("summary");
        assert("transcription"@.len() != "summary"@.len());
    }
}

/// The step definitions of a queue type.
pub fn pipeline_step_defs(queue_type: &str) -> (r: Result<Vec<(&'static str, &'static str)>, String>)
    ensures
        match step_defs_spec(queue_type@) {
            Some(defs) => r matches Ok(v) && v@.len() == defs.len() && forall|i: int|
                0 <= i < defs.len() ==> (#[trigger] v@[i]).0@ == defs[i].0 && v@[i].1@
                    == defs[i].1,
            None => r matches Err(e) && e@ == unknown_queue_type(queue_type@),
        },
{
    reveal_queue_types();
    if str_is(queue_type, "transcription") {
        Ok(
            vec![
                ("prepare_audio_environment", "准备音频和环境"),
                ("run_asr", "执行 ASR"),
                ("save_result", "保存转录结果"),
                ("write_files", "写入结果文件"),
            ],
        )
    } else if str_is(queue_type, "summary") {
        Ok(
            vec![
                ("load_material", "加载材料"),
                ("build_prompt", "组装提示词"),
                ("call_llm", "调用 LLM"),
                ("save_result", "保存总结结果"),
                ("write_files", "写入结果文件"),
            ],
        )
    } else {
        Err(unknown_queue_type_error(queue_type))
    }
}

/// The database table and label of a queue type.
pub fn queue_table_and_label(queue_type: &str) -> (r: Result<(&'static str, &'static str), String>)
    ensures
        queue_type@ == "transcription"@ ==> (r matches Ok(p) && p.0@ == "transcription_jobs"@
            && p.1@ == "transcription"@),
        queue_type@ == "summary"@ ==> (r matches Ok(p) && p.0@ == "summary_jobs"@ && p.1@
            == "summary"@),
        queue_type@ != "transcription"@ && queue_type@ != "summary"@ ==> (r matches Err(e) && e@
            == unknown_queue_type(queue_type@)),
{
    reveal_queue_types();
    if str_is(queue_type, "transcription") {
        Ok(("transcription_jobs", "transcription"))
    } else if str_is(queue_type, "summary") {
        Ok(("summary_jobs", "summary"))
    } else {
        Err(unknown_queue_type_error(queue_type))
    }
}

/// A fresh pending step.
pub open spec fn pending_step(name: Seq<char>, display_name: Seq<char>) -> StepView {
    StepView {
        name: Some(name),
        display_name: Some(display_name),
        status: Some("pending"@),
        progress: Some(0i64),
        optional: false,
        started_at: None,
        completed_at: None,
        duration_ms: None,
        error: None,
        metadata_error: None,
    }
}

/// A freshly initialised pipeline for these step definitions.
pub open spec fn fresh_pipeline(
    defs: Seq<(Seq<char>, Seq<char>)>,
    started_at: Option<Seq<char>>,
) -> PipelineView {
    PipelineView {
        steps: Seq::new(defs.len(), |i: int| pending_step(defs[i].0, defs[i].1)),
        current_step_index: None,
        total_progress: 0,
        total_duration_ms: 0,
        started_at: started_at,
        completed_at: None,
    }
}

fn opt_owned(v: Option<&str>) -> (r: Option<String>)
    ensures
        opt_views(r) == match v {
            Some(s) => Some(s@),
            None => None::<Seq<char>>,
        },
{
    match v {
        Some(s) => Some(owned(s)),
        None => None,
    }
}

/// The pipeline a new job of this queue type starts with: every step pending.
pub fn initial_pipeline(queue_type: &str, started_at: Option<&str>) -> (r: Result<Pipeline, String>)
    ensures
        match step_defs_spec(queue_type@) {
            Some(defs) => r matches Ok(p) && p@ == fresh_pipeline(
                defs,
                match started_at {
                    Some(s) => Some(s@),
                    None => None,
                },
            ),
            None => r matches Err(e) && e@ == unknown_queue_type(queue_type@),
        },
{
    let defs = pipeline_step_defs(queue_type)?;
    let mut steps: Vec<PipelineStep> = Vec::new();
    let mut i: usize = 0;
    while i < defs.len()
        invariant
            i <= defs@.len(),
            step_defs_spec(queue_type@) matches Some(d) && d.len() == defs@.len() && forall|k: int|
                0 <= k < d.len() ==> (#[trigger] defs@[k]).0@ == d[k].0 && defs@[k].1@ == d[k].1,
            steps@.len() == i,
            forall|k: int|
                0 <= k < i ==> (#[trigger] steps@[k])@ == pending_step(defs@[k].0@, defs@[k].1@),
        decreases defs.len() - i,
    {
        let (name, display_name) = defs[i];
        steps.push(
            PipelineStep {
                name: Some(owned(name)),
                display_name: Some(owned(display_name)),
                status: Some(owned("pending")),
                progress: Some(0),
                optional: false,
                started_at: None,
                completed_at: None,
                duration_ms: None,
                error: None,
                metadata_error: None,
            },
        );
        i += 1;
    }
    let p = Pipeline {
        steps,
        current_step_index: None,
        total_progress: 0,
        total_duration_ms: 0,
        started_at: opt_owned(started_at),
        completed_at: None,
    };
    proof {
        let d = step_defs_spec(queue_type@)->Some_0;
        assert(p@.steps =~= Seq::new(d.len(), |i: int| pending_step(d[i].0, d[i].1)));
    }
    Ok(p)
}

/// The status of a step, `pending` when absent.
pub open spec fn eff_status(step: StepView) -> Seq<char> {
    match step.status {
        Some(s) => s,
        None => "pending"@,
    }
}

fn status_is(step: &PipelineStep, lit: &str) -> (b: bool)
    ensures
        b == (eff_status(step@) == lit@),
{
    match &step.status {
        Some(s) => str_is(s.as_str(), lit),
        None => str_is("pending", lit),
    }
}

/// `progress.clamp(0, 100)`.
pub open spec fn clamp_progress(p: int) -> int {
    if p < 0 {
        0
    } else if p > 100 {
        100
    } else {
        p
    }
}

/// The share of one step in the overall progress, in hundredths of a step:
/// completed or skipped steps count fully, running or failed steps by their progress.
pub open spec fn step_weight(step: StepView) -> int {
    let s = eff_status(step);
    if s == "completed"@ || s == "skipped"@ {
        100
    } else if s == "running"@ || s == "failed"@ {
        clamp_progress(
            match step.progress {
                Some(p) => p as int,
                None => 0,
            },
        )
    } else {
        0
    }
}

/// The sum of the step weights.
pub open spec fn weight_sum(steps: Seq<StepView>) -> int
    decreases steps.len(),
{
    if steps.len() == 0 {
        0
    } else {
        weight_sum(steps.drop_last()) + step_weight(steps.last())
    }
}

/// The sum of the recorded step durations, negative ones counted as 0.
pub open spec fn duration_sum(steps: Seq<StepView>) -> int
    decreases steps.len(),
{
    if steps.len() == 0 {
        0
    } else {
        duration_sum(steps.drop_last()) + match steps.last().duration_ms {
            Some(d) => if d < 0 {
                0int
            } else {
                d as int
            },
            None => 0int,
        }
    }
}

/// The overall progress: the floor of the average step weight.
pub open spec fn total_progress_spec(steps: Seq<StepView>) -> int {
    if steps.len() == 0 {
        0
    } else {
        weight_sum(steps) / (steps.len() as int)
    }
}

/// The overall duration, saturating at the largest `i64`.
pub open spec fn total_duration_spec(steps: Seq<StepView>) -> int {
    if duration_sum(steps) > i64::MAX {
        i64::MAX as int
    } else {
        duration_sum(steps)
    }
}

proof fn lemma_weight_bounds(steps: Seq<StepView>)
    ensures
        0 <= weight_sum(steps) <= 100 * steps.len(),
    decreases steps.len(),
{
    if steps.len() > 0 {
        lemma_weight_bounds(steps.drop_last());
    }
}

proof fn lemma_duration_nonneg(steps: Seq<StepView>)
    ensures
        0 <= duration_sum(steps),
    decreases steps.len(),
{
    if steps.len() > 0 {
        lemma_duration_nonneg(steps.drop_last());
    }
}

/// The overall progress is a percentage.
pub proof fn lemma_total_progress_is_percentage(steps: Seq<StepView>)
    ensures
        0 <= total_progress_spec(steps) <= 100,
{
    lemma_weight_bounds(steps);
    if steps.len() > 0 {
        let n = steps.len() as int;
        assert(weight_sum(steps) / n <= 100) by (nonlinear_arith)
            requires
                weight_sum(steps) <= 100 * n,
                n > 0,
        ;
        assert(weight_sum(steps) / n >= 0) by (nonlinear_arith)
            requires
                weight_sum(steps) >= 0,
                n > 0,
        ;
    }
}

fn step_weight_exec(step: &PipelineStep) -> (w: u128)
    ensures
        w as int == step_weight(step@),
{
    if status_is(step, "completed") || status_is(step, "skipped") {
        100
    } else if status_is(step, "running") || status_is(step, "failed") {
        let p = match step.progress {
            Some(p) => p,
            None => 0,
        };
        if p < 0 {
            0
        } else if p > 100 {
            100
        } else {
            p as u128
        }
    } else {
        0
    }
}

/// The pipeline with its totals recomputed from its steps.
pub open spec fn with_totals(p: PipelineView) -> PipelineView {
    PipelineView {
        total_progress: total_progress_spec(p.steps) as i64,
        total_duration_ms: total_duration_spec(p.steps) as i64,
        ..p
    }
}

/// Recomputes the overall progress and duration from the steps.
pub fn recalculate_pipeline_totals(pipeline: &mut Pipeline)
    ensures
        final(pipeline)@ == with_totals(old(pipeline)@),
        0 <= final(pipeline).total_progress <= 100,
{
    let n = pipeline.steps.len();
    let mut weights: u128 = 0;
    let mut durations: u128 = 0;
    let mut i: usize = 0;
    while i < n
        invariant
            i <= n == pipeline.steps@.len(),
            weights as int == weight_sum(step_views(pipeline.steps@).subrange(0, i as int)),
            durations as int == if duration_sum(step_views(pipeline.steps@).subrange(0, i as int))
                > i64::MAX {
                i64::MAX as int + 1
            } else {
                duration_sum(step_views(pipeline.steps@).subrange(0, i as int))
            },
            weights <= 100 * i,
        decreases n - i,
    {
        let step = &pipeline.steps[i];
        let w = step_weight_exec(step);
        proof {
            let s = step_views(pipeline.steps@).subrange(0, i + 1);
            assert(s.drop_last() =~= step_views(pipeline.steps@).subrange(0, i as int));
            assert(s.last() == pipeline.steps@[i as int]@);
            lemma_duration_nonneg(step_views(pipeline.steps@).subrange(0, i as int));
        }
        weights = weights + w;
        let d: u128 = match step.duration_ms {
            Some(d) => if d < 0 {
                0
            } else {
                d as u128
            },
            None => 0,
        };
        if durations + d > i64::MAX as u128 {
            durations = i64::MAX as u128 + 1;
        } else {
            durations = durations + d;
        }
        i += 1;
    }
    proof {
        assert(step_views(pipeline.steps@).subrange(0, n as int) =~= step_views(pipeline.steps@));
        lemma_total_progress_is_percentage(step_views(pipeline.steps@));
        lemma_weight_bounds(step_views(pipeline.steps@));
    }
    if n == 0 {
        pipeline.total_progress = 0;
        pipeline.total_duration_ms = 0;
        return;
    }
    let total = weights / (n as u128);
    proof {
        assert(weights as int / n as int == (weights / (n as u128)) as int);
    }
    pipeline.total_progress = total as i64;
    pipeline.total_duration_ms = if durations > i64::MAX as u128 {
        i64::MAX
    } else {
        durations as i64
    };
}


/// The span in milliseconds from the first RFC 3339 timestamp to the second, or `None`
/// where either does not parse.
pub uninterp spec fn rfc3339_span(started: Seq<char>, completed: Seq<char>) -> Option<i64>;

/// `chrono::DateTime::parse_from_rfc3339` on both timestamps and, where both parse,
/// `(completed - started).num_milliseconds()`. What that difference is on given
/// timestamps is left to chrono: the contract only names it.
#[verifier::external_body]
fn rfc3339_span_ms(started: &str, completed: &str) -> (r: Option<i64>)
    ensures
        r == rfc3339_span(started@, completed@),
{
    match (
        chrono::DateTime::parse_from_rfc3339(completed),
        chrono::DateTime::parse_from_rfc3339(started),
    ) {
        (Ok(end), Ok(start)) => Some((end - start).num_milliseconds()),
        _ => None,
    }
}

/// The duration recorded for a measured span: the span, at least 0, or 0 where the
/// timestamps could not be read.
pub open spec fn duration_from_span(span: Option<i64>) -> i64 {
    match span {
        Some(d) => if d < 0 {
            0
        } else {
            d
        },
        None => 0,
    }
}

/// The duration recorded for a measured span.
pub fn step_duration_from_span(span: Option<i64>) -> (d: i64)
    ensures
        d == duration_from_span(span),
{
    match span {
        Some(d) => if d < 0 {
            0
        } else {
            d
        },
        None => 0,
    }
}

/// The value of an optional timestamp, `now` where it is absent.
pub open spec fn or_now(v: Option<Seq<char>>, now: Seq<char>) -> Seq<char> {
    match v {
        Some(x) => x,
        None => now,
    }
}

/// A step with its duration filled in from its timestamps (absent ones read as `now`),
/// unless it already has one.
pub open spec fn with_duration(s: StepView, now: Seq<char>) -> StepView {
    if s.duration_ms is Some {
        s
    } else {
        StepView {
            duration_ms: Some(
                duration_from_span(
                    rfc3339_span(or_now(s.started_at, now), or_now(s.completed_at, now)),
                ),
            ),
            ..s
        }
    }
}

fn opt_clone(v: &Option<String>) -> (r: Option<String>)
    ensures
        opt_views(r) == opt_views(*v),
{
    match v {
        Some(s) => Some(s.clone()),
        None => None,
    }
}

/// A copy of a step.
fn copy_step(s: &PipelineStep) -> (r: PipelineStep)
    ensures
        r@ == s@,
{
    PipelineStep {
        name: opt_clone(&s.name),
        display_name: opt_clone(&s.display_name),
        status: opt_clone(&s.status),
        progress: s.progress,
        optional: s.optional,
        started_at: opt_clone(&s.started_at),
        completed_at: opt_clone(&s.completed_at),
        duration_ms: s.duration_ms,
        error: opt_clone(&s.error),
        metadata_error: opt_clone(&s.metadata_error),
    }
}

/// The timestamp, or `now` where it is absent.
fn or_now_exec(v: &Option<String>, now: &str) -> (r: String)
    ensures
        r@ == or_now(opt_views(*v), now@),
{
    match v {
        Some(s) => s.clone(),
        None => owned(now),
    }
}

/// Fills in the duration of a step from its timestamps, unless it has one.
pub fn ensure_step_duration(step: &mut PipelineStep, now: &str)
    ensures
        final(step)@ == with_duration(old(step)@, now@),
{
    if step.duration_ms.is_some() {
        return;
    }
    let started = or_now_exec(&step.started_at, now);
    let completed = or_now_exec(&step.completed_at, now);
    let span = rfc3339_span_ms(started.as_str(), completed.as_str());
    step.duration_ms = Some(step_duration_from_span(span));
}

/// An unfinished step closed off: completed with full progress, its missing
/// timestamps set to `now` and its duration filled in.
pub open spec fn closed_step(s: StepView, now: Seq<char>) -> StepView {
    with_duration(
        StepView {
            status: Some("completed"@),
            progress: Some(100i64),
            started_at: Some(or_now(s.started_at, now)),
            completed_at: Some(or_now(s.completed_at, now)),
            ..s
        },
        now,
    )
}

/// A step before the one being started: kept when completed, failed or skipped, else
/// closed off.
pub open spec fn settled_before_step(s: StepView, now: Seq<char>) -> StepView {
    let st = eff_status(s);
    if st == "completed"@ || st == "failed"@ || st == "skipped"@ {
        s
    } else {
        closed_step(s, now)
    }
}

/// A step before the one that failed: kept when completed or skipped, else closed off.
pub open spec fn settled_before_failure(s: StepView, now: Seq<char>) -> StepView {
    let st = eff_status(s);
    if st == "completed"@ || st == "skipped"@ {
        s
    } else {
        closed_step(s, now)
    }
}

fn close_step(step: &PipelineStep, now: &str) -> (r: PipelineStep)
    ensures
        r@ == closed_step(step@, now@),
{
    let mut s = copy_step(step);
    s.status = Some(owned("completed"));
    s.progress = Some(100);
    s.started_at = Some(or_now_exec(&step.started_at, now));
    s.completed_at = Some(or_now_exec(&step.completed_at, now));
    ensure_step_duration(&mut s, now);
    s
}

fn settle_before_step(step: &PipelineStep, now: &str) -> (r: PipelineStep)
    ensures
        r@ == settled_before_step(step@, now@),
{
    if status_is(step, "completed") || status_is(step, "failed") || status_is(step, "skipped") {
        copy_step(step)
    } else {
        close_step(step, now)
    }
}

fn settle_before_failure(step: &PipelineStep, now: &str) -> (r: PipelineStep)
    ensures
        r@ == settled_before_failure(step@, now@),
{
    if status_is(step, "completed") || status_is(step, "skipped") {
        copy_step(step)
    } else {
        close_step(step, now)
    }
}

/// The step being started or completed: given its status and clamped progress, its
/// start time kept or set to `now`; a finished step (completed, failed, or closed on
/// request) ends `now` and gets its duration, an unfinished one loses both. A given
/// error is recorded on the step and in its metadata; without one, the error is
/// cleared unless the step failed.
pub open spec fn current_step(
    s: StepView,
    status: Seq<char>,
    progress: int,
    error: Option<Seq<char>>,
    now: Seq<char>,
    complete_current: bool,
) -> StepView {
    let base = StepView {
        status: Some(status),
        progress: Some(clamp_progress(progress) as i64),
        started_at: Some(or_now(s.started_at, now)),
        ..s
    };
    let timed = if status == "completed"@ || status == "failed"@ || complete_current {
        with_duration(StepView { completed_at: Some(now), ..base }, now)
    } else {
        StepView { completed_at: None, duration_ms: None, ..base }
    };
    match error {
        Some(m) => StepView { error: Some(m), metadata_error: Some(m), ..timed },
        None => if status != "failed"@ {
            StepView { error: None, ..timed }
        } else {
            timed
        },
    }
}

fn make_current_step(
    step: &PipelineStep,
    status: &str,
    progress: i64,
    error_message: Option<&str>,
    now: &str,
    complete_current: bool,
) -> (r: PipelineStep)
    ensures
        r@ == current_step(
            step@,
            status@,
            progress as int,
            opt_str(error_message),
            now@,
            complete_current,
        ),
{
    let mut s = copy_step(step);
    s.status = Some(owned(status));
    s.progress = Some(
        if progress < 0 {
            0
        } else if progress > 100 {
            100
        } else {
            progress
        },
    );
    s.started_at = Some(or_now_exec(&step.started_at, now));
    if str_is(status, "completed") || str_is(status, "failed") || complete_current {
        s.completed_at = Some(owned(now));
        ensure_step_duration(&mut s, now);
    } else {
        s.completed_at = None;
        s.duration_ms = None;
    }
    match error_message {
        Some(m) => {
            s.error = Some(owned(m));
            s.metadata_error = Some(owned(m));
        },
        None => {
            if !str_is(status, "failed") {
                s.error = None;
            }
        },
    }
    s
}

/// The step that failed: marked failed with full progress, ended `now` with its
/// duration, and the error recorded on it and in its metadata.
pub open spec fn failed_step(s: StepView, message: Seq<char>, now: Seq<char>) -> StepView {
    let timed = with_duration(
        StepView {
            status: Some("failed"@),
            progress: Some(100i64),
            started_at: Some(or_now(s.started_at, now)),
            completed_at: Some(now),
            ..s
        },
        now,
    );
    StepView { error: Some(message), metadata_error: Some(message), ..timed }
}

fn make_failed_step(step: &PipelineStep, message: &str, now: &str) -> (r: PipelineStep)
    ensures
        r@ == failed_step(step@, message@, now@),
{
    let mut s = copy_step(step);
    s.status = Some(owned("failed"));
    s.progress = Some(100);
    s.started_at = Some(or_now_exec(&step.started_at, now));
    s.completed_at = Some(owned(now));
    ensure_step_duration(&mut s, now);
    s.error = Some(owned(message));
    s.metadata_error = Some(owned(message));
    s
}

/// A step of a pipeline being completed as a whole: closed off and its error cleared.
pub open spec fn finished_step(s: StepView, now: Seq<char>) -> StepView {
    StepView { error: None, ..closed_step(s, now) }
}

fn make_finished_step(step: &PipelineStep, now: &str) -> (r: PipelineStep)
    ensures
        r@ == finished_step(step@, now@),
{
    let mut s = close_step(step, now);
    s.error = None;
    s
}


/// The first position in `steps` whose step satisfies `f`.
pub open spec fn first_index(steps: Seq<StepView>, f: spec_fn(StepView) -> bool) -> Option<int>
    decreases steps.len(),
{
    if steps.len() == 0 {
        None
    } else {
        match first_index(steps.drop_last(), f) {
            Some(k) => Some(k),
            None => if f(steps.last()) {
                Some(steps.len() - 1)
            } else {
                None
            },
        }
    }
}

/// `first_index` gives the first position that satisfies `f`, or `None` where none does.
pub proof fn lemma_first_index(steps: Seq<StepView>, f: spec_fn(StepView) -> bool)
    ensures
        match first_index(steps, f) {
            Some(k) => 0 <= k < steps.len() && f(steps[k]) && forall|j: int|
                0 <= j < k ==> !f(#[trigger] steps[j]),
            None => forall|j: int| 0 <= j < steps.len() ==> !f(#[trigger] steps[j]),
        },
    decreases steps.len(),
{
    if steps.len() > 0 {
        lemma_first_index(steps.drop_last(), f);
        assert forall|j: int| 0 <= j < steps.len() - 1 implies #[trigger] steps[j]
            == steps.drop_last()[j] by {}
    }
}

/// A position that satisfies `f` with none before it is what `first_index` gives.
pub proof fn lemma_first_index_is(steps: Seq<StepView>, f: spec_fn(StepView) -> bool, k: int)
    requires
        0 <= k < steps.len(),
        f(steps[k]),
        forall|j: int| 0 <= j < k ==> !f(#[trigger] steps[j]),
    ensures
        first_index(steps, f) == Some(k),
    decreases steps.len(),
{
    lemma_first_index(steps.drop_last(), f);
    if k < steps.len() - 1 {
        assert(steps.drop_last()[k] == steps[k]);
        assert forall|j: int| 0 <= j < k implies !f(#[trigger] steps.drop_last()[j]) by {
            assert(steps.drop_last()[j] == steps[j]);
        }
        lemma_first_index_is(steps.drop_last(), f, k);
    } else {
        match first_index(steps.drop_last(), f) {
            Some(k2) => {
                assert(steps.drop_last()[k2] == steps[k2]);
            },
            None => {},
        }
    }
}

/// Steps with this name.
pub open spec fn named(name: Seq<char>) -> spec_fn(StepView) -> bool {
    |s: StepView| s.name == Some(name)
}

/// Steps whose recorded status is exactly this one.
pub open spec fn with_status(status: Seq<char>) -> spec_fn(StepView) -> bool {
    |s: StepView| s.status == Some(status)
}

fn opt_is(v: &Option<String>, lit: &str) -> (b: bool)
    ensures
        b == (opt_views(*v) == Some(lit@)),
{
    match v {
        Some(s) => str_is(s.as_str(), lit),
        None => false,
    }
}

/// The position of the first step with this name.
fn find_named(steps: &Vec<PipelineStep>, name: &str) -> (r: Option<usize>)
    ensures
        match first_index(step_views(steps@), named(name@)) {
            Some(k) => r == Some(k as usize),
            None => r is None,
        },
{
    let ghost f = named(name@);
    let mut i: usize = 0;
    while i < steps.len()
        invariant
            i <= steps@.len(),
            f == named(name@),
            forall|j: int| 0 <= j < i ==> !f(#[trigger] step_views(steps@)[j]),
        decreases steps.len() - i,
    {
        if opt_is(&steps[i].name, name) {
            proof {
                lemma_first_index_is(step_views(steps@), f, i as int);
            }
            return Some(i);
        }
        i += 1;
    }
    proof {
        lemma_first_index(step_views(steps@), f);
    }
    None
}

/// The position of the first step whose recorded status is `status`.
fn find_with_status(steps: &Vec<PipelineStep>, status: &str) -> (r: Option<usize>)
    ensures
        match first_index(step_views(steps@), with_status(status@)) {
            Some(k) => r == Some(k as usize),
            None => r is None,
        },
{
    let ghost f = with_status(status@);
    let mut i: usize = 0;
    while i < steps.len()
        invariant
            i <= steps@.len(),
            f == with_status(status@),
            forall|j: int| 0 <= j < i ==> !f(#[trigger] step_views(steps@)[j]),
        decreases steps.len() - i,
    {
        if opt_is(&steps[i].status, status) {
            proof {
                lemma_first_index_is(step_views(steps@), f, i as int);
            }
            return Some(i);
        }
        i += 1;
    }
    proof {
        lemma_first_index(step_views(steps@), f);
    }
    None
}

/// The view of a pipeline that may be missing.
pub open spec fn opt_pipeline_view(p: Option<Pipeline>) -> Option<PipelineView> {
    match p {
        Some(v) => Some(v@),
        None => None,
    }
}

/// Whether a stored pipeline must be initialised first: it is missing or has no steps.
pub open spec fn needs_init(p: Option<PipelineView>) -> bool {
    match p {
        Some(v) => v.steps.len() == 0,
        None => true,
    }
}

/// The pipeline an operation works on: the stored one, or a fresh one started `now`
/// where it must be initialised (`None` where the queue type is unknown then).
pub open spec fn base_pipeline(
    p: Option<PipelineView>,
    queue_type: Seq<char>,
    now: Seq<char>,
) -> Option<PipelineView> {
    if needs_init(p) {
        match step_defs_spec(queue_type) {
            Some(defs) => Some(fresh_pipeline(defs, Some(now))),
            None => None,
        }
    } else {
        p
    }
}

fn prepared_pipeline(pipeline: Option<Pipeline>, queue_type: &str, now: &str) -> (r: Result<
    Pipeline,
    String,
>)
    ensures
        match base_pipeline(opt_pipeline_view(pipeline), queue_type@, now@) {
            Some(b) => r matches Ok(p) && p@ == b && p.steps@.len() > 0,
            None => r matches Err(e) && e@ == unknown_queue_type(queue_type@),
        },
{
    let stored = match &pipeline {
        Some(p) => p.steps.len() > 0,
        None => false,
    };
    if stored {
        return Ok(pipeline.unwrap());
    }
    match initial_pipeline(queue_type, Some(now)) {
        Ok(p) => {
            proof {
                let d = step_defs_spec(queue_type@)->Some_0;
                assert(transcription_steps().len() == 4);
                assert(summary_steps().len() == 5);
                assert(p@.steps.len() == d.len());
            }
            Ok(p)
        },
        Err(e) => Err(e),
    }
}

/// The error for a step name the pipeline does not have.
pub open spec fn unknown_step(step_name: Seq<char>, queue_type: Seq<char>) -> Seq<char> {
    "Unknown pipeline step "@ + step_name + " for "@ + queue_type
}

fn unknown_step_error(step_name: &str, queue_type: &str) -> (e: String)
    ensures
        e@ == unknown_step(step_name@, queue_type@),
{
    let mut m = chars_of("Unknown pipeline step ");
    crate::text::append_chars(&mut m, &chars_of(step_name));
    crate::text::append_chars(&mut m, &chars_of(" for "));
    crate::text::append_chars(&mut m, &chars_of(queue_type));
    crate::text::string_from_chars(&m)
}


/// The views of a result.
pub open spec fn result_views(r: Result<Pipeline, String>) -> Result<PipelineView, Seq<char>> {
    match r {
        Ok(p) => Ok(p@),
        Err(e) => Err(e@),
    }
}

/// The steps once step `k` is given `status`: the steps before it settled, step `k`
/// updated, the steps after it unchanged.
pub open spec fn steps_after_update(
    steps: Seq<StepView>,
    k: int,
    status: Seq<char>,
    progress: int,
    error: Option<Seq<char>>,
    now: Seq<char>,
    complete_current: bool,
) -> Seq<StepView> {
    Seq::new(
        steps.len(),
        |i: int|
            if i < k {
                settled_before_step(steps[i], now)
            } else if i == k {
                current_step(steps[i], status, progress, error, now, complete_current)
            } else {
                steps[i]
            },
    )
}

/// The pipeline once step `k` is given `status`: that step becomes the current one,
/// the pipeline is started (if it was not) and no longer completed, and its totals
/// are recomputed.
pub open spec fn updated_pipeline(
    p: PipelineView,
    k: int,
    status: Seq<char>,
    progress: int,
    error: Option<Seq<char>>,
    now: Seq<char>,
    complete_current: bool,
) -> PipelineView {
    with_totals(
        PipelineView {
            steps: steps_after_update(p.steps, k, status, progress, error, now, complete_current),
            current_step_index: Some(k as usize),
            started_at: Some(or_now(p.started_at, now)),
            completed_at: None,
            ..p
        },
    )
}

/// What giving the step named `step_name` a new status does to a stored pipeline.
pub open spec fn update_result(
    p: Option<PipelineView>,
    queue_type: Seq<char>,
    step_name: Seq<char>,
    status: Seq<char>,
    progress: int,
    error: Option<Seq<char>>,
    now: Seq<char>,
    complete_current: bool,
) -> Result<PipelineView, Seq<char>> {
    match base_pipeline(p, queue_type, now) {
        None => Err(unknown_queue_type(queue_type)),
        Some(b) => match first_index(b.steps, named(step_name)) {
            None => Err(unknown_step(step_name, queue_type)),
            Some(k) => Ok(updated_pipeline(b, k, status, progress, error, now, complete_current)),
        },
    }
}

/// Gives the step named `step_name` a new status and progress, settling every step
/// before it, and recomputes the totals.
pub fn update_pipeline_step(
    pipeline: Option<Pipeline>,
    queue_type: &str,
    step_name: &str,
    status: &str,
    progress: i64,
    error_message: Option<&str>,
    now: &str,
    complete_current: bool,
) -> (r: Result<Pipeline, String>)
    ensures
        result_views(r) == update_result(
            opt_pipeline_view(pipeline),
            queue_type@,
            step_name@,
            status@,
            progress as int,
            opt_str(error_message),
            now@,
            complete_current,
        ),
{
    let base = match prepared_pipeline(pipeline, queue_type, now) {
        Ok(b) => b,
        Err(e) => return Err(e),
    };
    let ghost b = base@;
    proof {
        lemma_first_index(b.steps, named(step_name@));
    }
    let k = match find_named(&base.steps, step_name) {
        Some(k) => k,
        None => return Err(unknown_step_error(step_name, queue_type)),
    };
    let Pipeline { mut steps, current_step_index: _, total_progress, total_duration_ms, started_at, completed_at: _ } = base;
    let n = steps.len();
    let mut i: usize = 0;
    while i < n
        invariant
            n == steps@.len() == b.steps.len(),
            i <= n,
            k < n,
            forall|j: int|
                0 <= j < n ==> (#[trigger] steps@[j])@ == if j < i {
                    if j < k {
                        settled_before_step(b.steps[j], now@)
                    } else if j == k {
                        current_step(
                            b.steps[j],
                            status@,
                            progress as int,
                            opt_str(error_message),
                            now@,
                            complete_current,
                        )
                    } else {
                        b.steps[j]
                    }
                } else {
                    b.steps[j]
                },
        decreases n - i,
    {
        if i < k {
            let s = settle_before_step(&steps[i], now);
            steps.set(i, s);
        } else if i == k {
            let s = make_current_step(
                &steps[i],
                status,
                progress,
                error_message,
                now,
                complete_current,
            );
            steps.set(i, s);
        }
        i += 1;
    }
    let started = match started_at {
        Some(s) => s,
        None => owned(now),
    };
    let mut p = Pipeline {
        steps,
        current_step_index: Some(k),
        total_progress,
        total_duration_ms,
        started_at: Some(started),
        completed_at: None,
    };
    proof {
        assert(step_views(p.steps@) =~= steps_after_update(
            b.steps,
            k as int,
            status@,
            progress as int,
            opt_str(error_message),
            now@,
            complete_current,
        ));
    }
    recalculate_pipeline_totals(&mut p);
    Ok(p)
}


/// The pipeline completed as a whole: every step finished, the last one current, the
/// pipeline ended `now` and its progress full.
pub open spec fn completed_pipeline(b: PipelineView, now: Seq<char>) -> PipelineView {
    let totals = with_totals(
        PipelineView {
            steps: Seq::new(b.steps.len(), |i: int| finished_step(b.steps[i], now)),
            current_step_index: Some((b.steps.len() - 1) as usize),
            started_at: Some(or_now(b.started_at, now)),
            completed_at: Some(now),
            ..b
        },
    );
    PipelineView { total_progress: 100, ..totals }
}

/// What completing a stored pipeline does.
pub open spec fn complete_result(p: Option<PipelineView>, queue_type: Seq<char>, now: Seq<char>) -> Result<
    PipelineView,
    Seq<char>,
> {
    match base_pipeline(p, queue_type, now) {
        None => Err(unknown_queue_type(queue_type)),
        Some(b) => Ok(completed_pipeline(b, now)),
    }
}

/// Completes every step of the pipeline and the pipeline itself.
pub fn complete_pipeline(pipeline: Option<Pipeline>, queue_type: &str, now: &str) -> (r: Result<
    Pipeline,
    String,
>)
    ensures
        result_views(r) == complete_result(opt_pipeline_view(pipeline), queue_type@, now@),
{
    let base = match prepared_pipeline(pipeline, queue_type, now) {
        Ok(b) => b,
        Err(e) => return Err(e),
    };
    let ghost b = base@;
    let Pipeline { mut steps, current_step_index: _, total_progress, total_duration_ms, started_at, completed_at: _ } = base;
    let n = steps.len();
    let mut i: usize = 0;
    while i < n
        invariant
            n == steps@.len() == b.steps.len(),
            i <= n,
            forall|j: int|
                0 <= j < n ==> (#[trigger] steps@[j])@ == if j < i {
                    finished_step(b.steps[j], now@)
                } else {
                    b.steps[j]
                },
        decreases n - i,
    {
        let s = make_finished_step(&steps[i], now);
        steps.set(i, s);
        i += 1;
    }
    let started = match started_at {
        Some(s) => s,
        None => owned(now),
    };
    let mut p = Pipeline {
        steps,
        current_step_index: Some(n - 1),
        total_progress,
        total_duration_ms,
        started_at: Some(started),
        completed_at: Some(owned(now)),
    };
    proof {
        assert(step_views(p.steps@) =~= Seq::new(
            b.steps.len(),
            |i: int| finished_step(b.steps[i], now@),
        ));
    }
    recalculate_pipeline_totals(&mut p);
    p.total_progress = 100;
    Ok(p)
}

/// The position of the step that a failure is recorded on: the first running step,
/// else the first pending one, else the last one.
pub open spec fn failure_index(steps: Seq<StepView>) -> int {
    match first_index(steps, with_status("running"@)) {
        Some(k) => k,
        None => match first_index(steps, with_status("pending"@)) {
            Some(k) => k,
            None => steps.len() - 1,
        },
    }
}

/// The pipeline once it failed: the steps before the failed one settled, the failed
/// one marked with the error, the pipeline ended `now`, the totals recomputed.
pub open spec fn failed_pipeline(b: PipelineView, message: Seq<char>, now: Seq<char>) -> PipelineView {
    let f = failure_index(b.steps);
    with_totals(
        PipelineView {
            steps: Seq::new(
                b.steps.len(),
                |i: int|
                    if i < f {
                        settled_before_failure(b.steps[i], now)
                    } else if i == f {
                        failed_step(b.steps[i], message, now)
                    } else {
                        b.steps[i]
                    },
            ),
            current_step_index: Some(f as usize),
            started_at: Some(or_now(b.started_at, now)),
            completed_at: Some(now),
            ..b
        },
    )
}

/// What recording a failure does to a stored pipeline.
pub open spec fn fail_result(
    p: Option<PipelineView>,
    queue_type: Seq<char>,
    message: Seq<char>,
    now: Seq<char>,
) -> Result<PipelineView, Seq<char>> {
    match base_pipeline(p, queue_type, now) {
        None => Err(unknown_queue_type(queue_type)),
        Some(b) => Ok(failed_pipeline(b, message, now)),
    }
}

/// Records a failure on the running step (or the first pending one, or the last one)
/// and ends the pipeline.
pub fn fail_pipeline(
    pipeline: Option<Pipeline>,
    queue_type: &str,
    error_message: &str,
    now: &str,
) -> (r: Result<Pipeline, String>)
    ensures
        result_views(r) == fail_result(
            opt_pipeline_view(pipeline),
            queue_type@,
            error_message@,
            now@,
        ),
{
    let base = match prepared_pipeline(pipeline, queue_type, now) {
        Ok(b) => b,
        Err(e) => return Err(e),
    };
    let ghost b = base@;
    proof {
        lemma_first_index(b.steps, with_status("running"@));
        lemma_first_index(b.steps, with_status("pending"@));
    }
    let f = match find_with_status(&base.steps, "running") {
        Some(k) => k,
        None => match find_with_status(&base.steps, "pending") {
            Some(k) => k,
            None => base.steps.len() - 1,
        },
    };
    let Pipeline { mut steps, current_step_index: _, total_progress, total_duration_ms, started_at, completed_at: _ } = base;
    let n = steps.len();
    let mut i: usize = 0;
    while i < n
        invariant
            n == steps@.len() == b.steps.len(),
            i <= n,
            f == failure_index(b.steps),
            f < n,
            forall|j: int|
                0 <= j < n ==> (#[trigger] steps@[j])@ == if j < i {
                    if j < f {
                        settled_before_failure(b.steps[j], now@)
                    } else if j == f {
                        failed_step(b.steps[j], error_message@, now@)
                    } else {
                        b.steps[j]
                    }
                } else {
                    b.steps[j]
                },
        decreases n - i,
    {
        if i < f {
            let s = settle_before_failure(&steps[i], now);
            steps.set(i, s);
        } else if i == f {
            let s = make_failed_step(&steps[i], error_message, now);
            steps.set(i, s);
        }
        i += 1;
    }
    let started = match started_at {
        Some(s) => s,
        None => owned(now),
    };
    let mut p = Pipeline {
        steps,
        current_step_index: Some(f),
        total_progress,
        total_duration_ms,
        started_at: Some(started),
        completed_at: Some(owned(now)),
    };
    proof {
        assert(step_views(p.steps@) =~= failed_pipeline(b, error_message@, now@).steps);
    }
    recalculate_pipeline_totals(&mut p);
    Ok(p)
}

/// The pipeline once its job starts: started `now` unless it was, and not completed.
pub open spec fn started_pipeline(b: PipelineView, now: Seq<char>) -> PipelineView {
    PipelineView { started_at: Some(or_now(b.started_at, now)), completed_at: None, ..b }
}

/// What starting a job does to its stored pipeline.
pub open spec fn start_result(p: Option<PipelineView>, queue_type: Seq<char>, now: Seq<char>) -> Result<
    PipelineView,
    Seq<char>,
> {
    match base_pipeline(p, queue_type, now) {
        None => Err(unknown_queue_type(queue_type)),
        Some(b) => Ok(started_pipeline(b, now)),
    }
}

/// Marks the pipeline started (initialising it where needed) and not completed.
pub fn start_pipeline(pipeline: Option<Pipeline>, queue_type: &str, now: &str) -> (r: Result<
    Pipeline,
    String,
>)
    ensures
        result_views(r) == start_result(opt_pipeline_view(pipeline), queue_type@, now@),
{
    let mut p = match prepared_pipeline(pipeline, queue_type, now) {
        Ok(b) => b,
        Err(e) => return Err(e),
    };
    if p.started_at.is_none() {
        p.started_at = Some(owned(now));
    }
    p.completed_at = None;
    Ok(p)
}


/// The pipeline a job gets when it is queued again: every step pending.
pub fn reset_local_queue_pipeline(queue_type: &str) -> (r: Result<Pipeline, String>)
    ensures
        match step_defs_spec(queue_type@) {
            Some(defs) => r matches Ok(p) && p@ == fresh_pipeline(defs, None),
            None => r matches Err(e) && e@ == unknown_queue_type(queue_type@),
        },
{
    initial_pipeline(queue_type, None)
}

/// Whether the queue type is one of the two queues.
pub open spec fn known_queue_type(queue_type: Seq<char>) -> bool {
    queue_type == "transcription"@ || queue_type == "summary"@
}

/// Starts the step named `step_name` of a job's stored pipeline at `progress`.
pub fn start_local_queue_pipeline_step(
    pipeline: Option<Pipeline>,
    queue_type: &str,
    step_name: &str,
    progress: i64,
    now: &str,
) -> (r: Result<Pipeline, String>)
    ensures
        !known_queue_type(queue_type@) ==> (r matches Err(e) && e@ == unknown_queue_type(
            queue_type@,
        )),
        known_queue_type(queue_type@) ==> result_views(r) == update_result(
            opt_pipeline_view(pipeline),
            queue_type@,
            step_name@,
            "running"@,
            progress as int,
            None,
            now@,
            false,
        ),
{
    let (_table, label) = match queue_table_and_label(queue_type) {
        Ok(t) => t,
        Err(e) => return Err(e),
    };
    update_pipeline_step(pipeline, label, step_name, "running", progress, None, now, false)
}

/// Completes the step named `step_name` of a job's stored pipeline.
pub fn complete_local_queue_pipeline_step(
    pipeline: Option<Pipeline>,
    queue_type: &str,
    step_name: &str,
    now: &str,
) -> (r: Result<Pipeline, String>)
    ensures
        !known_queue_type(queue_type@) ==> (r matches Err(e) && e@ == unknown_queue_type(
            queue_type@,
        )),
        known_queue_type(queue_type@) ==> result_views(r) == update_result(
            opt_pipeline_view(pipeline),
            queue_type@,
            step_name@,
            "completed"@,
            100,
            None,
            now@,
            true,
        ),
{
    let (_table, label) = match queue_table_and_label(queue_type) {
        Ok(t) => t,
        Err(e) => return Err(e),
    };
    update_pipeline_step(pipeline, label, step_name, "completed", 100, None, now, true)
}

/// `progress` moved from the range `start..=end` onto `0..=100`, rounded half up and
/// clamped; 100 where the range is empty.
pub open spec fn scaled(progress: int, start: int, end: int) -> int {
    if end <= start {
        100
    } else {
        let x = if progress - start < 0 {
            0
        } else {
            progress - start
        };
        let r = (200 * x + (end - start)) / (2 * (end - start));
        if r > 100 {
            100
        } else {
            r
        }
    }
}

/// Moves a job's progress within one step's range onto the step's own 0 to 100.
pub fn scale_progress(progress: i64, start: i64, end: i64) -> (r: i64)
    requires
        i64::MIN <= progress - start <= i64::MAX,
        i64::MIN <= end - start <= i64::MAX,
    ensures
        r == scaled(progress as int, start as int, end as int),
        0 <= r <= 100,
{
    if end <= start {
        return 100;
    }
    let x: i128 = if progress - start < 0 {
        0
    } else {
        (progress - start) as i128
    };
    let d: i128 = (end - start) as i128;
    let r: i128 = (200 * x + d) / (2 * d);
    proof {
        assert(r >= 0) by (nonlinear_arith)
            requires
                r == (200 * x + d) / (2 * d),
                x >= 0,
                d > 0,
        ;
    }
    if r > 100 {
        100
    } else {
        r as i64
    }
}

/// The step of a transcription job that a job progress belongs to, with the step's own
/// progress.
pub open spec fn transcription_progress_spec(progress: int) -> Option<(Seq<char>, int)> {
    if 0 <= progress <= 34 {
        Some(("prepare_audio_environment"@, scaled(progress, 5, 34)))
    } else if 35 <= progress <= 89 {
        Some(("run_asr"@, scaled(progress, 35, 89)))
    } else if 90 <= progress <= 94 {
        Some(("save_result"@, scaled(progress, 90, 94)))
    } else if 95 <= progress <= 99 {
        Some(("write_files"@, scaled(progress, 95, 99)))
    } else {
        None
    }
}

/// The step of a summary job that a job progress belongs to, with the step's own
/// progress. Progress from 35 to 54 belongs to no step.
pub open spec fn summary_progress_spec(progress: int) -> Option<(Seq<char>, int)> {
    if 0 <= progress <= 34 {
        Some(("load_material"@, scaled(progress, 10, 34)))
    } else if 55 <= progress <= 89 {
        Some(("call_llm"@, scaled(progress, 55, 89)))
    } else if 90 <= progress <= 94 {
        Some(("save_result"@, scaled(progress, 90, 94)))
    } else if 95 <= progress <= 99 {
        Some(("write_files"@, scaled(progress, 95, 99)))
    } else {
        None
    }
}

/// The views of a step and its progress.
pub open spec fn step_progress_views(r: Option<(&'static str, i64)>) -> Option<(Seq<char>, int)> {
    match r {
        Some((name, p)) => Some((name@, p as int)),
        None => None,
    }
}

/// The step of a transcription job that a job progress belongs to.
pub fn transcription_pipeline_progress(progress: i64) -> (r: Option<(&'static str, i64)>)
    ensures
        step_progress_views(r) == transcription_progress_spec(progress as int),
{
    if 0 <= progress && progress <= 34 {
        Some(("prepare_audio_environment", scale_progress(progress, 5, 34)))
    } else if 35 <= progress && progress <= 89 {
        Some(("run_asr", scale_progress(progress, 35, 89)))
    } else if 90 <= progress && progress <= 94 {
        Some(("save_result", scale_progress(progress, 90, 94)))
    } else if 95 <= progress && progress <= 99 {
        Some(("write_files", scale_progress(progress, 95, 99)))
    } else {
        None
    }
}

/// The step of a summary job that a job progress belongs to.
pub fn summary_pipeline_progress(progress: i64) -> (r: Option<(&'static str, i64)>)
    ensures
        step_progress_views(r) == summary_progress_spec(progress as int),
{
    if 0 <= progress && progress <= 34 {
        Some(("load_material", scale_progress(progress, 10, 34)))
    } else if 55 <= progress && progress <= 89 {
        Some(("call_llm", scale_progress(progress, 55, 89)))
    } else if 90 <= progress && progress <= 94 {
        Some(("save_result", scale_progress(progress, 90, 94)))
    } else if 95 <= progress && progress <= 99 {
        Some(("write_files", scale_progress(progress, 95, 99)))
    } else {
        None
    }
}

/// Starting a step settles every step before it (each ends completed, failed or
/// skipped), puts the started step in the `running` state with its progress clamped to
/// a percentage, leaves the later steps as they were, makes it the current step, leaves
/// the pipeline open and keeps the overall progress a percentage.
pub proof fn lemma_start_settles_earlier_steps(
    b: PipelineView,
    k: int,
    progress: int,
    now: Seq<char>,
)
    requires
        0 <= k < b.steps.len(),
    ensures
        ({
            let q = updated_pipeline(b, k, "running"@, progress, None, now, false);
            &&& q.steps.len() == b.steps.len()
            &&& forall|i: int|
                0 <= i < k ==> {
                    let st = #[trigger] eff_status(q.steps[i]);
                    st == "completed"@ || st == "failed"@ || st == "skipped"@
                }
            &&& eff_status(q.steps[k]) == "running"@
            &&& q.steps[k].progress == Some(clamp_progress(progress) as i64)
            &&& q.steps[k].completed_at is None
            &&& forall|i: int| k < i < b.steps.len() ==> #[trigger] q.steps[i] == b.steps[i]
            &&& q.current_step_index == Some(k as usize)
            &&& q.completed_at is None
            &&& 0 <= q.total_progress <= 100
        }),
{
    let q = updated_pipeline(b, k, "running"@, progress, None, now, false);
    let raw = steps_after_update(b.steps, k, "running"@, progress, None, now, false);
    lemma_total_progress_is_percentage(raw);
    assert forall|i: int| 0 <= i < k implies {
        let st = #[trigger] eff_status(q.steps[i]);
        st == "completed"@ || st == "failed"@ || st == "skipped"@
    } by {
        assert(q.steps[i] == settled_before_step(b.steps[i], now));
    }
    assert(!("running"@ == "completed"@ || "running"@ == "failed"@)) by {
        reveal_strlit("running");
        reveal_strlit("completed");
        reveal_strlit("failed");
        assert("running"@.len() != "completed"@.len());
        assert("running"@.len() != "failed"@.len());
    }
}

/// A step that is already completed, failed or skipped is left exactly as it was when
/// a later step starts or completes.
pub proof fn lemma_settled_steps_are_kept(
    b: PipelineView,
    k: int,
    status: Seq<char>,
    progress: int,
    error: Option<Seq<char>>,
    now: Seq<char>,
    complete_current: bool,
    j: int,
)
    requires
        0 <= j < k < b.steps.len(),
        eff_status(b.steps[j]) == "completed"@ || eff_status(b.steps[j]) == "failed"@
            || eff_status(b.steps[j]) == "skipped"@,
    ensures
        updated_pipeline(b, k, status, progress, error, now, complete_current).steps[j]
            == b.steps[j],
{
}

/// Completing a pipeline finishes every step (completed, full progress, no error) and
/// the pipeline itself, at full overall progress with its last step current.
pub proof fn lemma_completed_pipeline_is_done(b: PipelineView, now: Seq<char>)
    requires
        b.steps.len() > 0,
    ensures
        ({
            let q = completed_pipeline(b, now);
            &&& q.steps.len() == b.steps.len()
            &&& forall|i: int|
                0 <= i < q.steps.len() ==> #[trigger] eff_status(q.steps[i]) == "completed"@
                    && q.steps[i].progress == Some(100i64) && q.steps[i].error is None
                    && q.steps[i].completed_at is Some
            &&& q.total_progress == 100
            &&& q.completed_at == Some(now)
            &&& q.current_step_index == Some((b.steps.len() - 1) as usize)
        }),
{
    let q = completed_pipeline(b, now);
    assert forall|i: int| 0 <= i < q.steps.len() implies #[trigger] eff_status(q.steps[i])
        == "completed"@ && q.steps[i].progress == Some(100i64) && q.steps[i].error is None
        && q.steps[i].completed_at is Some by {
        assert(q.steps[i] == finished_step(b.steps[i], now));
    }
}

/// A failure is recorded on the first running step if there is one, else on the first
/// pending one, else on the last; that step ends failed with the error, every step before
/// it ends completed or skipped, and the pipeline ends `now` with that step current.
pub proof fn lemma_failure_marks_running_step(b: PipelineView, message: Seq<char>, now: Seq<char>)
    requires
        b.steps.len() > 0,
    ensures
        ({
            let q = failed_pipeline(b, message, now);
            let f = failure_index(b.steps);
            &&& 0 <= f < b.steps.len()
            &&& (exists|i: int| 0 <= i < b.steps.len() && #[trigger] b.steps[i].status == Some(
                "running"@,
            )) ==> b.steps[f].status == Some("running"@) && forall|i: int|
                0 <= i < f ==> #[trigger] b.steps[i].status != Some("running"@)
            &&& eff_status(q.steps[f]) == "failed"@
            &&& q.steps[f].error == Some(message)
            &&& q.steps[f].metadata_error == Some(message)
            &&& forall|i: int|
                0 <= i < f ==> {
                    let st = #[trigger] eff_status(q.steps[i]);
                    st == "completed"@ || st == "skipped"@
                }
            &&& forall|i: int| f < i < b.steps.len() ==> #[trigger] q.steps[i] == b.steps[i]
            &&& q.completed_at == Some(now)
            &&& q.current_step_index == Some(f as usize)
            &&& 0 <= q.total_progress <= 100
        }),
{
    let f = failure_index(b.steps);
    let q = failed_pipeline(b, message, now);
    lemma_first_index(b.steps, with_status("running"@));
    lemma_first_index(b.steps, with_status("pending"@));
    lemma_total_progress_is_percentage(q.steps);
    if exists|i: int| 0 <= i < b.steps.len() && #[trigger] b.steps[i].status == Some("running"@) {
        let w = choose|i: int| 0 <= i < b.steps.len() && #[trigger] b.steps[i].status == Some(
            "running"@,
        );
        assert(with_status("running"@)(b.steps[w]));
    }
    assert forall|i: int| 0 <= i < f implies {
        let st = #[trigger] eff_status(q.steps[i]);
        st == "completed"@ || st == "skipped"@
    } by {
        assert(q.steps[i] == settled_before_failure(b.steps[i], now));
    }
}

} // verus!
