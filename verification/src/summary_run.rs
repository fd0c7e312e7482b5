//! Running one summary job of the local queue, step by step. The caller reads the
//! database, builds the material (with `summary`), calls the model and stores the
//! result; after each of these it hands the outcome back, and this module says which
//! pipeline steps start and end, what progress the job shows, and what to do next.
//!
//! The job's pipeline is reset and the job marked running at 10%; then
//! `load_material` (weight 10) reads the settings and the material: a single
//! transcript's summary needs a transcript and a template, a workspace summary loads its
//! transcripts one by one (progress from 20 to 40), a text summary lays out its
//! documents while building the prompt (progress from 20 to 40); `build_prompt`
//! (weight 25) ends at 35% for a single transcript and 55% otherwise; `call_llm`
//! (weight 5) ends at 90%; `save_result` (weight 10) stores the summary. A job that
//! succeeds is finished; any error fails it.
use vstd::prelude::*;

use crate::summary::SummaryJobKind;

verus! {

/// The steps of a summary job's pipeline.
#[derive(PartialEq, Eq, Structural, Clone, Copy, Debug)]
pub enum SummaryStep {
    LoadMaterial,
    BuildPrompt,
    CallLlm,
    SaveResult,
}

impl SummaryStep {
    /// The step's name in the stored pipeline.
    pub open spec fn step_name(self) -> Seq<char> {
        match self {
            SummaryStep::LoadMaterial => "load_material"@,
            SummaryStep::BuildPrompt => "build_prompt"@,
            SummaryStep::CallLlm => "call_llm"@,
            SummaryStep::SaveResult => "save_result"@,
        }
    }

    /// The step's name in the stored pipeline.
    pub fn name(self) -> (s: &'static str)
        ensures
            s@ == self.step_name(),
    {
        match self {
            SummaryStep::LoadMaterial => "load_material",
            SummaryStep::BuildPrompt => "build_prompt",
            SummaryStep::CallLlm => "call_llm",
            SummaryStep::SaveResult => "save_result",
        }
    }
}

/// What the job shows on the way.
#[derive(PartialEq, Eq, Structural, Clone, Copy, Debug)]
pub enum SummaryEffect {
    /// Reset the job's pipeline.
    ResetPipeline,
    /// Mark the job as running at this progress.
    MarkRunning(i64),
    /// Start a pipeline step with its weight.
    StartStep(SummaryStep, i64),
    /// Complete a pipeline step.
    CompleteStep(SummaryStep),
    /// Set the job's progress.
    SetProgress(i64),
    /// Tell the window that the job changed.
    Notify,
}

/// Where the job stands, and what it waits for.
#[derive(PartialEq, Eq, Structural, Clone, Copy, Debug)]
pub enum SummaryStage {
    /// The settings and the model's key.
    LoadingSettings,
    /// The material: the template and the transcript, transcripts or documents.
    LoadingMaterial,
    /// Transcript `done` of `count` of a workspace summary.
    LoadingItem { done: usize, count: usize },
    /// The model's summary.
    Calling,
    /// Storing the summary.
    Saving,
    /// Nothing: the job is over.
    Finished,
}

/// A summary job under way.
#[derive(PartialEq, Eq, Structural, Clone, Copy, Debug)]
pub struct SummaryRunState {
    pub kind: SummaryJobKind,
    pub stage: SummaryStage,
}

/// What the caller found out.
pub enum SummaryEvent {
    /// How the step asked for went; for the material, how many transcripts (workspace)
    /// or documents (texts) it holds.
    Loaded(Result<usize, String>),
    /// How the model's call went.
    Called(Result<(), String>),
    /// How storing the summary went.
    Saved(Result<(), String>),
}

/// What the caller does next.
pub enum SummaryRunAction {
    /// Read the settings and the model's key.
    LoadSettings,
    /// Read the template and the material of the job, and check it.
    LoadMaterial,
    /// Read transcript `index` of a workspace summary and its recording.
    LoadItem(usize),
    /// Build the prompt and call the model.
    CallModel,
    /// Store the summary.
    SaveSummary,
    /// Finish the job and tell the window.
    Done,
    /// Fail the job (`LLM_FAILED`) with this error and tell the window.
    Fail(String),
}

/// The progress shown once item `i` (from 0) of `n` has been handled: from 20 up to 40.
pub open spec fn item_progress(i: int, n: int) -> int {
    20 + (i + 1) * 20 / n
}

fn item_progress_exec(i: usize, n: usize) -> (p: i64)
    requires
        i < n,
    ensures
        p == item_progress(i as int, n as int),
        20 <= p <= 40,
{
    let q = ((i as u128) + 1) * 20 / (n as u128);
    proof {
        assert((i + 1) * 20 / (n as int) <= 20) by (nonlinear_arith)
            requires
                i < n,
                n > 0,
        ;
        assert((i + 1) * 20 / (n as int) >= 0) by (nonlinear_arith)
            requires
                i < n,
                n > 0,
        ;
    }
    20 + q as i64
}

/// The effects of laying out the first `k` of `n` documents one after another: each
/// sets the progress of its position and tells the window.
pub open spec fn document_effects(k: nat, n: int) -> Seq<SummaryEffect>
    decreases k,
{
    if k == 0 {
        Seq::empty()
    } else {
        document_effects((k - 1) as nat, n).push(
            SummaryEffect::SetProgress(item_progress(k - 1, n) as i64),
        ).push(SummaryEffect::Notify)
    }
}

/// The effects between the material and the model's call: the prompt is built, ending at
/// 35% for a single transcript and 55% otherwise (after the documents of a text summary
/// are laid out), and the call step starts.
pub open spec fn prompt_effects(kind: SummaryJobKind, count: nat) -> Seq<SummaryEffect> {
    let start = seq![
        SummaryEffect::CompleteStep(SummaryStep::LoadMaterial),
        SummaryEffect::StartStep(SummaryStep::BuildPrompt, 25),
    ];
    let call = seq![
        SummaryEffect::CompleteStep(SummaryStep::BuildPrompt),
        SummaryEffect::StartStep(SummaryStep::CallLlm, 5),
        SummaryEffect::Notify,
    ];
    match kind {
        SummaryJobKind::SingleTranscript => start + seq![
            SummaryEffect::SetProgress(35),
            SummaryEffect::Notify,
        ] + call,
        SummaryJobKind::Workspace => start + seq![SummaryEffect::SetProgress(55)] + call,
        SummaryJobKind::Texts => start + document_effects(count, count as int) + seq![SummaryEffect::SetProgress(55)]
            + call,
    }
}

/// The event the stage waits for.
pub open spec fn summary_awaits(stage: SummaryStage, event: SummaryEvent) -> bool {
    match stage {
        SummaryStage::LoadingSettings => event is Loaded,
        SummaryStage::LoadingMaterial => event is Loaded,
        SummaryStage::LoadingItem { done, count } => event is Loaded && done < count,
        SummaryStage::Calling => event is Called,
        SummaryStage::Saving => event is Saved,
        SummaryStage::Finished => false,
    }
}

/// Starts a summary job of `kind`: its pipeline is reset, it is marked running at 10%,
/// and loading the material starts with the settings.
pub fn start_summary_run(kind: SummaryJobKind) -> (r: (SummaryRunState, Vec<SummaryEffect>, SummaryRunAction))
    ensures
        r.0 == (SummaryRunState { kind, stage: SummaryStage::LoadingSettings }),
        r.1@ == seq![
            SummaryEffect::ResetPipeline,
            SummaryEffect::MarkRunning(10),
            SummaryEffect::Notify,
            SummaryEffect::StartStep(SummaryStep::LoadMaterial, 10),
        ],
        r.2 is LoadSettings,
{
    (
        SummaryRunState { kind, stage: SummaryStage::LoadingSettings },
        vec![
            SummaryEffect::ResetPipeline,
            SummaryEffect::MarkRunning(10),
            SummaryEffect::Notify,
            SummaryEffect::StartStep(SummaryStep::LoadMaterial, 10),
        ],
        SummaryRunAction::LoadSettings,
    )
}

fn prompt_effects_exec(kind: SummaryJobKind, count: usize) -> (e: Vec<SummaryEffect>)
    ensures
        e@ == prompt_effects(kind, count as nat),
{
    let mut e = vec![
        SummaryEffect::CompleteStep(SummaryStep::LoadMaterial),
        SummaryEffect::StartStep(SummaryStep::BuildPrompt, 25),
    ];
    match kind {
        SummaryJobKind::SingleTranscript => {
            e.push(SummaryEffect::SetProgress(35));
            e.push(SummaryEffect::Notify);
        },
        SummaryJobKind::Workspace => {
            e.push(SummaryEffect::SetProgress(55));
        },
        SummaryJobKind::Texts => {
            let ghost head = e@;
            let mut i: usize = 0;
            proof {
                assert(head + document_effects(0, count as int) =~= head);
            }
            while i < count
                invariant
                    i <= count,
                    e@ == head + document_effects(i as nat, count as int),
                decreases count - i,
            {
                let p = item_progress_exec(i, count);
                proof {
                    assert(p as int == item_progress(i as int, count as int));
                }
                e.push(SummaryEffect::SetProgress(p));
                e.push(SummaryEffect::Notify);
                proof {
                    assert(((i + 1) as nat - 1) as nat == i as nat);
                }
                i += 1;
                proof {
                    assert(e@ =~= head + document_effects(i as nat, count as int));
                }
            }
            e.push(SummaryEffect::SetProgress(55));
        },
    }
    e.push(SummaryEffect::CompleteStep(SummaryStep::BuildPrompt));
    e.push(SummaryEffect::StartStep(SummaryStep::CallLlm, 5));
    e.push(SummaryEffect::Notify);
    proof {
        assert(e@ =~= prompt_effects(kind, count as nat));
    }
    e
}

/// The effects of handling item `i` of `n` of a workspace summary.
pub open spec fn item_effects(i: int, n: int) -> Seq<SummaryEffect> {
    seq![SummaryEffect::SetProgress(item_progress(i, n) as i64), SummaryEffect::Notify]
}

/// The effects once the model has answered: progress 90, and the result step starts.
pub open spec fn called_effects() -> Seq<SummaryEffect> {
    seq![
        SummaryEffect::SetProgress(90),
        SummaryEffect::CompleteStep(SummaryStep::CallLlm),
        SummaryEffect::StartStep(SummaryStep::SaveResult, 10),
        SummaryEffect::Notify,
    ]
}

fn fail_run(kind: SummaryJobKind, e: String) -> (r: (SummaryRunState, Vec<SummaryEffect>, SummaryRunAction))
    ensures
        r.0 == (SummaryRunState { kind, stage: SummaryStage::Finished }),
        r.1@.len() == 0,
        r.2 matches SummaryRunAction::Fail(x) && x@ == e@,
{
    (SummaryRunState { kind, stage: SummaryStage::Finished }, Vec::new(), SummaryRunAction::Fail(e))
}

/// Hands the caller's finding to the job and says what it shows and does next (see the
/// module's description). Any error the caller reports fails the job with it.
pub fn advance_summary_run(run: SummaryRunState, event: SummaryEvent) -> (r: (
    SummaryRunState,
    Vec<SummaryEffect>,
    SummaryRunAction,
))
    requires
        summary_awaits(run.stage, event),
    ensures
        r.0.kind == run.kind,
        match event {
            SummaryEvent::Loaded(Err(e)) | SummaryEvent::Called(Err(e)) | SummaryEvent::Saved(Err(e)) => {
                &&& r.0.stage == SummaryStage::Finished
                &&& r.1@.len() == 0
                &&& r.2 matches SummaryRunAction::Fail(x) && x@ == e@
            },
            SummaryEvent::Loaded(Ok(n)) => match run.stage {
                SummaryStage::LoadingSettings => r.0.stage == SummaryStage::LoadingMaterial && r.1@.len()
                    == 0 && r.2 is LoadMaterial,
                SummaryStage::LoadingMaterial => if run.kind == SummaryJobKind::Workspace && n > 0 {
                    r.0.stage == (SummaryStage::LoadingItem { done: 0, count: n }) && r.1@.len() == 0
                        && (r.2 matches SummaryRunAction::LoadItem(i) && i == 0)
                } else {
                    r.0.stage == SummaryStage::Calling && r.1@ == prompt_effects(
                        run.kind,
                        n as nat,
                    ) && r.2 is CallModel
                },
                SummaryStage::LoadingItem { done, count } => if done + 1 < count {
                    r.0.stage == (SummaryStage::LoadingItem { done: (done + 1) as usize, count })
                        && r.1@ == item_effects(done as int, count as int)
                        && (r.2 matches SummaryRunAction::LoadItem(i) && i == done + 1)
                } else {
                    r.0.stage == SummaryStage::Calling && r.1@ == item_effects(done as int, count as int)
                        + prompt_effects(run.kind, count as nat) && r.2 is CallModel
                },
                _ => false,
            },
            SummaryEvent::Called(Ok(())) => r.0.stage == SummaryStage::Saving && r.1@ == called_effects()
                && r.2 is SaveSummary,
            SummaryEvent::Saved(Ok(())) => r.0.stage == SummaryStage::Finished && r.1@.len() == 0
                && r.2 is Done,
        },
{
    let kind = run.kind;
    match event {
        SummaryEvent::Loaded(Err(e)) => fail_run(kind, e),
        SummaryEvent::Called(Err(e)) => fail_run(kind, e),
        SummaryEvent::Saved(Err(e)) => fail_run(kind, e),
        SummaryEvent::Loaded(Ok(n)) => match run.stage {
            SummaryStage::LoadingSettings => (
                SummaryRunState { kind, stage: SummaryStage::LoadingMaterial },
                Vec::new(),
                SummaryRunAction::LoadMaterial,
            ),
            SummaryStage::LoadingMaterial => {
                if kind == SummaryJobKind::Workspace && n > 0 {
                    (
                        SummaryRunState { kind, stage: SummaryStage::LoadingItem { done: 0, count: n } },
                        Vec::new(),
                        SummaryRunAction::LoadItem(0),
                    )
                } else {
                    (
                        SummaryRunState { kind, stage: SummaryStage::Calling },
                        prompt_effects_exec(kind, n),
                        SummaryRunAction::CallModel,
                    )
                }
            },
            SummaryStage::LoadingItem { done, count } => {
                let p = item_progress_exec(done, count);
                let mut e = vec![SummaryEffect::SetProgress(p), SummaryEffect::Notify];
                if done + 1 < count {
                    (
                        SummaryRunState {
                            kind,
                            stage: SummaryStage::LoadingItem { done: done + 1, count },
                        },
                        e,
                        SummaryRunAction::LoadItem(done + 1),
                    )
                } else {
                    let mut rest = prompt_effects_exec(kind, count);
                    e.append(&mut rest);
                    (SummaryRunState { kind, stage: SummaryStage::Calling }, e, SummaryRunAction::CallModel)
                }
            },
            _ => fail_run(kind, String::new()),
        },
        SummaryEvent::Called(Ok(())) => (
            SummaryRunState { kind, stage: SummaryStage::Saving },
            vec![
                SummaryEffect::SetProgress(90),
                SummaryEffect::CompleteStep(SummaryStep::CallLlm),
                SummaryEffect::StartStep(SummaryStep::SaveResult, 10),
                SummaryEffect::Notify,
            ],
            SummaryRunAction::SaveSummary,
        ),
        SummaryEvent::Saved(Ok(())) => (
            SummaryRunState { kind, stage: SummaryStage::Finished },
            Vec::new(),
            SummaryRunAction::Done,
        ),
    }
}

} // verus!
