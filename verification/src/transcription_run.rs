//! Running one transcription job of the local queue, step by step. The caller reads the
//! database, prepares the models, runs the speech worker and writes the files; after
//! each of these it hands the outcome back, and this module says which pipeline steps
//! start and end, what progress the job shows, and what to do next:
//!
//! 1. `prepare_audio_environment` (weight 10): the recording is loaded (a job without
//!    a recording fails), the model is made ready (it must have a path) and its
//!    auxiliary models must be present; the worker's runtime is resolved and the
//!    request built; progress goes 10, 20, 35.
//! 2. `run_asr` (weight 5): the speech worker transcribes; progress 90.
//! 3. `save_result` (weight 10): the reply must hold a result with a non-blank text,
//!    which is stored; progress 95.
//! 4. `write_files` (weight 20): the transcript files are written, and the job is done.
use vstd::prelude::*;

use crate::json_text::{json_field_exists, json_has_field, json_pointer_string, json_str_at};
use crate::models::{auxiliary_model_paths_for_queue, auxiliary_paths};
use crate::settings::AppSettings;
use crate::sidecar_requests::{
    flag_field, heads, transcribe_request, RequestField, RequestValue, SidecarRequest,
};
use crate::text::{chars_of, join_path, join_path_exec, opt_views, owned, trim, trim_chars,
    append_chars, string_from_chars};

verus! {

broadcast use vstd::string::group_string_axioms;

/// The steps of a transcription job's pipeline.
#[derive(PartialEq, Eq, Structural, Clone, Copy, Debug)]
pub enum TranscriptionStep {
    PrepareAudioEnvironment,
    RunAsr,
    SaveResult,
    WriteFiles,
}

impl TranscriptionStep {
    /// The step's name in the stored pipeline.
    pub open spec fn step_name(self) -> Seq<char> {
        match self {
            TranscriptionStep::PrepareAudioEnvironment => "prepare_audio_environment"@,
            TranscriptionStep::RunAsr => "run_asr"@,
            TranscriptionStep::SaveResult => "save_result"@,
            TranscriptionStep::WriteFiles => "write_files"@,
        }
    }

    /// The step's name in the stored pipeline.
    pub fn name(self) -> (s: &'static str)
        ensures
            s@ == self.step_name(),
    {
        match self {
            TranscriptionStep::PrepareAudioEnvironment => "prepare_audio_environment",
            TranscriptionStep::RunAsr => "run_asr",
            TranscriptionStep::SaveResult => "save_result",
            TranscriptionStep::WriteFiles => "write_files",
        }
    }
}

/// What the job shows on the way.
#[derive(PartialEq, Eq, Structural, Clone, Copy, Debug)]
pub enum JobEffect {
    /// Start a pipeline step with its weight.
    StartStep(TranscriptionStep, i64),
    /// Complete a pipeline step.
    CompleteStep(TranscriptionStep),
    /// Set the job's progress.
    SetProgress(i64),
    /// Tell the window that the job changed.
    Notify,
}

/// The recording of the job, as loaded with the settings.
pub struct LoadedRecording {
    pub recording_id: String,
    pub original_audio_path: String,
    pub settings: AppSettings,
    pub models_dir: String,
}

/// Where the job stands, and what it waits for.
pub enum RunStage {
    /// The recording and the settings.
    Loading,
    /// The model being made ready.
    PreparingModel { recording: LoadedRecording },
    /// Whether the auxiliary models at these paths are present.
    CheckingAuxiliary { recording: LoadedRecording, model_path: String, vad: String, speaker: String, punc: String },
    /// The worker's runtime and the directory of normalised audio.
    ResolvingRuntime { recording: LoadedRecording, model_path: String, vad: String, speaker: String, punc: String },
    /// The speech worker.
    Transcribing { normalized_path: String },
    /// Storing the transcript.
    Saving,
    /// Writing the transcript files.
    Writing,
    /// Nothing: the job is over.
    Finished,
}

/// What the caller found out.
pub enum RunEvent {
    /// The recording and the settings, or the error reading them.
    Loaded(Result<LoadedRecording, String>),
    /// The model made ready: the path of its status (if it has one), or the error.
    ModelPrepared(Result<Option<String>, String>),
    /// Whether the auxiliary models are present.
    AuxiliaryPresent(bool),
    /// The path of ffmpeg and the directory of normalised audio, or the error.
    RuntimeResolved(Result<(String, String), String>),
    /// The speech worker's reply (a JSON document), or the error.
    Transcribed(Result<String, String>),
    /// How storing or writing went.
    StepDone(Result<(), String>),
}

/// What the caller does next.
pub enum RunAction {
    /// Read the recording and the settings.
    LoadRecording(String),
    /// Make the model ready.
    PrepareModel,
    /// Find out whether these three directories exist.
    CheckAuxiliary { vad: String, speaker: String, punc: String },
    /// Resolve the worker's runtime and the directory of normalised audio.
    ResolveRuntime,
    /// Have the speech worker run this request.
    Transcribe(SidecarRequest),
    /// Store `text` as the transcript, with the reply's details, and record that the
    /// recording was normalised to `normalized_path`.
    SaveTranscript { text: String, normalized_path: String },
    /// Write the transcript files.
    WriteFiles,
    /// The job is done.
    Done,
    /// The job fails with this error.
    Fail(String),
}

/// The error for auxiliary models that are missing.
pub open spec fn auxiliary_missing() -> Seq<char> {
    "ASR workflow models are not ready; use 下载/检查 FunASR workflow first"@
}

/// `request` transcribes `audio` into `normalized` with the model and its auxiliary
/// models, under the job's id, reusing a loaded model.
pub open spec fn asr_request(
    request: SidecarRequest,
    job_id: Seq<char>,
    audio: Seq<char>,
    normalized: Seq<char>,
    model_path: Seq<char>,
    ffmpeg: Seq<char>,
    use_gpu: bool,
    vad: Seq<char>,
    speaker: Seq<char>,
    punc: Seq<char>,
) -> bool {
    &&& heads(request, job_id, "transcribe"@)
    &&& request.payload@.len() == 11
    &&& crate::sidecar_requests::text_field(request.payload@[0], "audio_path"@, audio)
    &&& crate::sidecar_requests::text_field(request.payload@[1], "normalized_path"@, normalized)
    &&& crate::sidecar_requests::text_field(request.payload@[2], "model_path"@, model_path)
    &&& crate::sidecar_requests::text_field(request.payload@[3], "ffmpeg_path"@, ffmpeg)
    &&& flag_field(request.payload@[4], "use_gpu"@, use_gpu)
    &&& crate::sidecar_requests::text_field(request.payload@[5], "profile"@, "meeting_full"@)
    &&& flag_field(request.payload@[6], "audio_already_normalized"@, false)
    &&& crate::sidecar_requests::text_field(request.payload@[7], "vad_model_path"@, vad)
    &&& crate::sidecar_requests::text_field(request.payload@[8], "speaker_model_path"@, speaker)
    &&& crate::sidecar_requests::text_field(request.payload@[9], "punc_model_path"@, punc)
    &&& flag_field(request.payload@[10], "reuse_model"@, true)
}

/// The event the stage waits for.
pub open spec fn job_awaits(stage: RunStage, event: RunEvent) -> bool {
    match stage {
        RunStage::Loading => event is Loaded,
        RunStage::PreparingModel { .. } => event is ModelPrepared,
        RunStage::CheckingAuxiliary { .. } => event is AuxiliaryPresent,
        RunStage::ResolvingRuntime { .. } => event is RuntimeResolved,
        RunStage::Transcribing { .. } => event is Transcribed,
        RunStage::Saving => event is StepDone,
        RunStage::Writing => event is StepDone,
        RunStage::Finished => false,
    }
}

/// The action fails the job with `e`.
pub open spec fn fails(action: RunAction, e: Seq<char>) -> bool {
    action matches RunAction::Fail(x) && x@ == e
}

/// Starts a transcription job: the preparation step starts; a job without a recording
/// fails, any other loads its recording.
pub fn start_transcription_run(recording_id: Option<String>) -> (r: (RunStage, Vec<JobEffect>, RunAction))
    ensures
        r.1@ == seq![JobEffect::StartStep(TranscriptionStep::PrepareAudioEnvironment, 10)],
        match recording_id {
            None => r.0 is Finished && fails(r.2, "Transcription job missing recording_id"@),
            Some(id) => r.0 is Loading && (r.2 matches RunAction::LoadRecording(x) && x@ == id@),
        },
{
    let effects = vec![JobEffect::StartStep(TranscriptionStep::PrepareAudioEnvironment, 10)];
    match recording_id {
        None => (
            RunStage::Finished,
            effects,
            RunAction::Fail(owned("Transcription job missing recording_id")),
        ),
        Some(id) => (RunStage::Loading, effects, RunAction::LoadRecording(id)),
    }
}

fn failed(e: String) -> (r: (RunStage, Vec<JobEffect>, RunAction))
    ensures
        r.0 is Finished,
        r.1@ == Seq::<JobEffect>::empty(),
        fails(r.2, e@),
{
    (RunStage::Finished, Vec::new(), RunAction::Fail(e))
}

/// Hands the caller's finding to the job `job_id` and says what it shows and does next
/// (see the module's description). Any error the caller reports fails the job with it.
pub fn advance_transcription_run(job_id: &str, stage: RunStage, event: RunEvent) -> (r: (
    RunStage,
    Vec<JobEffect>,
    RunAction,
))
    requires
        job_awaits(stage, event),
    ensures
        match (stage, event) {
            (RunStage::Loading, RunEvent::Loaded(Err(e))) => r.0 is Finished && r.1@.len() == 0
                && fails(r.2, e@),
            (RunStage::Loading, RunEvent::Loaded(Ok(rec))) => {
                &&& r.0 matches RunStage::PreparingModel { recording } && recording == rec
                &&& r.1@ == seq![JobEffect::SetProgress(10), JobEffect::Notify]
                &&& r.2 is PrepareModel
            },
            (RunStage::PreparingModel { .. }, RunEvent::ModelPrepared(Err(e))) => r.0 is Finished
                && r.1@.len() == 0 && fails(r.2, e@),
            (RunStage::PreparingModel { .. }, RunEvent::ModelPrepared(Ok(None))) => r.0 is Finished
                && r.1@.len() == 0 && fails(r.2, "ASR model is not ready"@),
            (RunStage::PreparingModel { recording }, RunEvent::ModelPrepared(Ok(Some(p)))) => {
                let paths = auxiliary_paths(recording.models_dir@, recording.settings, p@);
                &&& r.0 matches RunStage::CheckingAuxiliary { recording: rec2, model_path, .. }
                    && rec2 == recording && model_path@ == p@
                &&& r.1@.len() == 0
                &&& r.2 matches RunAction::CheckAuxiliary { vad, speaker, punc } && vad@ == paths.1
                    && speaker@ == paths.2 && punc@ == paths.3
            },
            (RunStage::CheckingAuxiliary { .. }, RunEvent::AuxiliaryPresent(false)) => r.0 is Finished
                && r.1@.len() == 0 && fails(r.2, auxiliary_missing()),
            (
                RunStage::CheckingAuxiliary { recording, model_path, vad, speaker, punc },
                RunEvent::AuxiliaryPresent(true),
            ) => {
                &&& r.0 matches RunStage::ResolvingRuntime {
                    recording: rec2,
                    model_path: m2,
                    vad: v2,
                    speaker: s2,
                    punc: p2,
                } && rec2 == recording && m2 == model_path && v2 == vad && s2 == speaker && p2 == punc
                &&& r.1@ == seq![JobEffect::SetProgress(20), JobEffect::Notify]
                &&& r.2 is ResolveRuntime
            },
            (RunStage::ResolvingRuntime { .. }, RunEvent::RuntimeResolved(Err(e))) => r.0 is Finished
                && r.1@.len() == 0 && fails(r.2, e@),
            (
                RunStage::ResolvingRuntime { recording, model_path, vad, speaker, punc },
                RunEvent::RuntimeResolved(Ok((ffmpeg, normalized_dir))),
            ) => {
                let normalized = join_path(
                    normalized_dir@,
                    recording.recording_id@ + ".wav"@,
                );
                &&& r.0 matches RunStage::Transcribing { normalized_path } && normalized_path@
                    == normalized
                &&& r.1@ == seq![
                    JobEffect::SetProgress(35),
                    JobEffect::Notify,
                    JobEffect::CompleteStep(TranscriptionStep::PrepareAudioEnvironment),
                    JobEffect::StartStep(TranscriptionStep::RunAsr, 5),
                    JobEffect::Notify,
                ]
                &&& r.2 matches RunAction::Transcribe(request) && asr_request(
                    request,
                    job_id@,
                    recording.original_audio_path@,
                    normalized,
                    model_path@,
                    ffmpeg@,
                    recording.settings.use_gpu,
                    vad@,
                    speaker@,
                    punc@,
                )
            },
            (RunStage::Transcribing { .. }, RunEvent::Transcribed(Err(e))) => r.0 is Finished
                && r.1@.len() == 0 && fails(r.2, e@),
            (RunStage::Transcribing { normalized_path }, RunEvent::Transcribed(Ok(reply))) => {
                let text = match json_pointer_string(reply@, "/result/text"@) {
                    Some(t) => trim(t),
                    None => Seq::empty(),
                };
                &&& r.1@ == seq![
                    JobEffect::SetProgress(90),
                    JobEffect::CompleteStep(TranscriptionStep::RunAsr),
                    JobEffect::StartStep(TranscriptionStep::SaveResult, 10),
                    JobEffect::Notify,
                ]
                &&& if !json_field_exists(reply@, "result"@) {
                    r.0 is Finished && fails(r.2, "Sidecar response missing result"@)
                } else if text.len() == 0 {
                    r.0 is Finished && fails(r.2, "ASR returned empty transcript"@)
                } else {
                    r.0 is Saving && (r.2 matches RunAction::SaveTranscript {
                        text: t,
                        normalized_path: n,
                    } && t@ == text && n@ == normalized_path@)
                }
            },
            (RunStage::Saving, RunEvent::StepDone(Err(e))) => r.0 is Finished && r.1@.len() == 0
                && fails(r.2, e@),
            (RunStage::Saving, RunEvent::StepDone(Ok(()))) => {
                &&& r.0 is Writing
                &&& r.1@ == seq![
                    JobEffect::CompleteStep(TranscriptionStep::SaveResult),
                    JobEffect::SetProgress(95),
                    JobEffect::StartStep(TranscriptionStep::WriteFiles, 20),
                    JobEffect::Notify,
                ]
                &&& r.2 is WriteFiles
            },
            (RunStage::Writing, RunEvent::StepDone(Err(e))) => r.0 is Finished && r.1@.len() == 0
                && fails(r.2, e@),
            (RunStage::Writing, RunEvent::StepDone(Ok(()))) => {
                &&& r.0 is Finished
                &&& r.1@ == seq![
                    JobEffect::CompleteStep(TranscriptionStep::WriteFiles),
                    JobEffect::Notify,
                ]
                &&& r.2 is Done
            },
            _ => false,
        },
{
    match (stage, event) {
        (RunStage::Loading, RunEvent::Loaded(Err(e))) => failed(e),
        (RunStage::Loading, RunEvent::Loaded(Ok(rec))) => (
            RunStage::PreparingModel { recording: rec },
            vec![JobEffect::SetProgress(10), JobEffect::Notify],
            RunAction::PrepareModel,
        ),
        (RunStage::PreparingModel { .. }, RunEvent::ModelPrepared(Err(e))) => failed(e),
        (RunStage::PreparingModel { recording }, RunEvent::ModelPrepared(Ok(path))) => match path {
            None => failed(owned("ASR model is not ready")),
            Some(p) => {
                let (_root, vad, speaker, punc) = auxiliary_model_paths_for_queue(
                    recording.models_dir.as_str(),
                    &recording.settings,
                    p.as_str(),
                );
                let action = RunAction::CheckAuxiliary {
                    vad: owned(vad.as_str()),
                    speaker: owned(speaker.as_str()),
                    punc: owned(punc.as_str()),
                };
                (
                    RunStage::CheckingAuxiliary { recording, model_path: p, vad, speaker, punc },
                    Vec::new(),
                    action,
                )
            },
        },
        (RunStage::CheckingAuxiliary { recording, model_path, vad, speaker, punc }, RunEvent::AuxiliaryPresent(present)) => {
            if !present {
                failed(owned("ASR workflow models are not ready; use 下载/检查 FunASR workflow first"))
            } else {
                (
                    RunStage::ResolvingRuntime { recording, model_path, vad, speaker, punc },
                    vec![JobEffect::SetProgress(20), JobEffect::Notify],
                    RunAction::ResolveRuntime,
                )
            }
        },
        (RunStage::ResolvingRuntime { .. }, RunEvent::RuntimeResolved(Err(e))) => failed(e),
        (
            RunStage::ResolvingRuntime { recording, model_path, vad, speaker, punc },
            RunEvent::RuntimeResolved(Ok((ffmpeg, normalized_dir))),
        ) => {
            let mut name = chars_of(recording.recording_id.as_str());
            append_chars(&mut name, &chars_of(".wav"));
            let normalized = join_path_exec(normalized_dir.as_str(), &name);
            let base = transcribe_request(
                job_id,
                recording.original_audio_path.as_str(),
                normalized.as_str(),
                model_path.as_str(),
                ffmpeg.as_str(),
                recording.settings.use_gpu,
                vad.as_str(),
                speaker.as_str(),
                punc.as_str(),
            );
            let SidecarRequest { id, request_type, mut payload } = base;
            payload.push(RequestField { key: owned("reuse_model"), value: RequestValue::Flag(true) });
            let request = SidecarRequest { id, request_type, payload };
            (
                RunStage::Transcribing { normalized_path: normalized },
                vec![
                    JobEffect::SetProgress(35),
                    JobEffect::Notify,
                    JobEffect::CompleteStep(TranscriptionStep::PrepareAudioEnvironment),
                    JobEffect::StartStep(TranscriptionStep::RunAsr, 5),
                    JobEffect::Notify,
                ],
                RunAction::Transcribe(request),
            )
        },
        (RunStage::Transcribing { .. }, RunEvent::Transcribed(Err(e))) => failed(e),
        (RunStage::Transcribing { normalized_path }, RunEvent::Transcribed(Ok(reply))) => {
            let effects = vec![
                JobEffect::SetProgress(90),
                JobEffect::CompleteStep(TranscriptionStep::RunAsr),
                JobEffect::StartStep(TranscriptionStep::SaveResult, 10),
                JobEffect::Notify,
            ];
            if !json_has_field(reply.as_str(), "result") {
                return (
                    RunStage::Finished,
                    effects,
                    RunAction::Fail(owned("Sidecar response missing result")),
                );
            }
            let text = match json_str_at(reply.as_str(), "/result/text") {
                Some(t) => trim_chars(&chars_of(t.as_str())),
                None => Vec::new(),
            };
            if text.len() == 0 {
                return (
                    RunStage::Finished,
                    effects,
                    RunAction::Fail(owned("ASR returned empty transcript")),
                );
            }
            (
                RunStage::Saving,
                effects,
                RunAction::SaveTranscript { text: string_from_chars(&text), normalized_path },
            )
        },
        (RunStage::Saving, RunEvent::StepDone(Err(e))) => failed(e),
        (RunStage::Saving, RunEvent::StepDone(Ok(()))) => (
            RunStage::Writing,
            vec![
                JobEffect::CompleteStep(TranscriptionStep::SaveResult),
                JobEffect::SetProgress(95),
                JobEffect::StartStep(TranscriptionStep::WriteFiles, 20),
                JobEffect::Notify,
            ],
            RunAction::WriteFiles,
        ),
        (RunStage::Writing, RunEvent::StepDone(Err(e))) => failed(e),
        (_, _) => (
            RunStage::Finished,
            vec![JobEffect::CompleteStep(TranscriptionStep::WriteFiles), JobEffect::Notify],
            RunAction::Done,
        ),
    }
}

} // verus!
