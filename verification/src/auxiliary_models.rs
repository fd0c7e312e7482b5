//! Making the auxiliary models ready in a directory kept beside a configured model path:
//! the voice activity, speaker and punctuation models for the transcription workflow, or
//! the punctuation model alone for dictation. The caller checks the disk and runs the
//! download; after each step it hands the outcome back, and this module says what to do
//! next:
//!
//! - models whose weight files are all in place are used as they are;
//! - otherwise they are downloaded; a failed download is reported as cancelled or failed
//!   and its error returned;
//! - a finished download counts only where the sidecar reported every model's path and
//!   each of those paths holds its weight file; then it is reported as ready.
use vstd::prelude::*;

use crate::json_text::{json_pointer_string, json_str_at};
use crate::model_status::is_cancellation;
use crate::models::{pair_views, resolved_asr_model_repo, resolved_repo, root_weight_files, root_weights, DownloadSizeProfile};
use crate::recording::new_uuid;
use crate::settings::AppSettings;
use crate::sidecar_requests::{
    prepare_auxiliary_models_request, prepare_punctuation_model_request, text_field,
    SidecarRequest,
};
use crate::text::{chars_of, owned, starts_with};

verus! {

broadcast use vstd::string::group_string_axioms;

/// Which auxiliary models are made ready.
#[derive(PartialEq, Eq, Structural, Clone, Copy, Debug)]
pub enum AuxiliarySet {
    /// The voice activity, speaker and punctuation models of the transcription workflow.
    Workflow,
    /// The punctuation model alone, which dictation needs.
    Punctuation,
}

/// Where the preparation stands, and what it waits for.
#[derive(PartialEq, Eq, Structural, Clone, Copy, Debug)]
pub enum AuxiliaryStage {
    /// Whether the weight files are already in place.
    Present,
    /// The download.
    Downloading,
    /// Whether the paths the download reported hold their weight files.
    Downloaded,
    /// Nothing: the preparation is over.
    Finished,
}

/// A preparation under way: which models, in which directory, and where it stands.
pub struct AuxiliaryPreparation {
    pub set: AuxiliarySet,
    pub root: String,
    pub stage: AuxiliaryStage,
}

/// What the caller found out.
pub enum AuxiliaryEvent {
    /// Whether every weight file asked about lies in its directory.
    WeightsPresent(bool),
    /// The sidecar's reply to the download, as its JSON result document, or the error.
    Downloaded(Result<String, String>),
}

/// The progress reported when a download ends.
pub struct DownloadReport {
    pub status: String,
    pub message: String,
}

/// What the caller does next.
pub enum AuxiliaryAction {
    /// Find out whether each (directory, file name) pair names a directory that holds
    /// that file.
    CheckWeights(Vec<(String, String)>),
    /// Estimate the download's size for `profile`, then send `request` and wait for the
    /// reply; progress is reported under the model `repo`.
    Download { request: SidecarRequest, profile: DownloadSizeProfile, repo: String },
    /// Report `report` where there is one, then finish with `outcome`.
    Finish { report: Option<DownloadReport>, outcome: Result<(), String> },
}

/// The weight files of the set in `root`.
pub open spec fn set_weights(set: AuxiliarySet, root: Seq<char>) -> Seq<(Seq<char>, Seq<char>)> {
    match set {
        AuxiliarySet::Workflow => root_weights(root),
        AuxiliarySet::Punctuation => seq![root_weights(root)[2]],
    }
}

/// The weight files at the paths the download reported in `reply`, where it reported a
/// path for each of the set's models.
pub open spec fn reported_weights(set: AuxiliarySet, reply: Seq<char>) -> Option<
    Seq<(Seq<char>, Seq<char>)>,
> {
    let punc = json_pointer_string(reply, "/result/punc_model_path"@);
    match set {
        AuxiliarySet::Workflow => match (
            json_pointer_string(reply, "/result/vad_model_path"@),
            json_pointer_string(reply, "/result/speaker_model_path"@),
            punc,
        ) {
            (Some(v), Some(s), Some(p)) => Some(
                seq![(v, "model.pt"@), (s, "campplus_cn_common.bin"@), (p, "model.pt"@)],
            ),
            _ => None,
        },
        AuxiliarySet::Punctuation => match punc {
            Some(p) => Some(seq![(p, "model.pt"@)]),
            None => None,
        },
    }
}

/// The size profile a download of the set is estimated under.
pub open spec fn set_profile(set: AuxiliarySet) -> DownloadSizeProfile {
    match set {
        AuxiliarySet::Workflow => DownloadSizeProfile::Auxiliary,
        AuxiliarySet::Punctuation => DownloadSizeProfile::Punctuation,
    }
}

/// The message reported when the user cancelled the set's download.
pub open spec fn cancelled_message(set: AuxiliarySet) -> Seq<char> {
    match set {
        AuxiliarySet::Workflow => "FunASR workflow model download cancelled"@,
        AuxiliarySet::Punctuation => "FunASR punctuation model download cancelled"@,
    }
}

/// The error when a finished download did not leave the set's models in place.
pub open spec fn unready_error(set: AuxiliarySet) -> Seq<char> {
    match set {
        AuxiliarySet::Workflow => "ASR workflow model download finished without ready model paths"@,
        AuxiliarySet::Punctuation => "FunASR punctuation model download finished without ready model path"@,
    }
}

/// The message reported when the set's download left its models in place.
pub open spec fn ready_message(set: AuxiliarySet) -> Seq<char> {
    match set {
        AuxiliarySet::Workflow => "ASR workflow auxiliary models are ready"@,
        AuxiliarySet::Punctuation => "FunASR punctuation model is ready"@,
    }
}

/// `request` asks the sidecar, under a fresh id, to download the set's models from the
/// configured source into `root`.
pub open spec fn set_request(set: AuxiliarySet, settings: AppSettings, root: Seq<char>, request: SidecarRequest) -> bool {
    &&& request.id@.len() == 36
    &&& request.request_type@ == (match set {
        AuxiliarySet::Workflow => "prepare_auxiliary_models"@,
        AuxiliarySet::Punctuation => "prepare_punctuation_model"@,
    })
    &&& request.payload@.len() == 2
    &&& text_field(request.payload@[0], "target_dir"@, root)
    &&& text_field(request.payload@[1], "source"@, settings.asr_model_source@)
}

/// The event the stage waits for.
pub open spec fn awaits(stage: AuxiliaryStage, event: AuxiliaryEvent) -> bool {
    match stage {
        AuxiliaryStage::Present => event is WeightsPresent,
        AuxiliaryStage::Downloading => event is Downloaded,
        AuxiliaryStage::Downloaded => event is WeightsPresent,
        AuxiliaryStage::Finished => false,
    }
}

/// The action finishes with `outcome` and reports `report` (status and message).
pub open spec fn finishes_with(
    action: AuxiliaryAction,
    report: Option<(Seq<char>, Seq<char>)>,
    outcome: Result<(), Seq<char>>,
) -> bool {
    &&& action matches AuxiliaryAction::Finish { report: r, outcome: o }
    &&& match (r, report) {
        (Some(d), Some((status, message))) => d.status@ == status && d.message@ == message,
        (None, None) => true,
        _ => false,
    }
    &&& match (o, outcome) {
        (Ok(()), Ok(())) => true,
        (Err(e), Err(f)) => e@ == f,
        _ => false,
    }
}

fn weight_files_of(set: AuxiliarySet, root: &str) -> (r: Vec<(String, String)>)
    ensures
        pair_views(r@) == set_weights(set, root@),
{
    let mut all = root_weight_files(root);
    match set {
        AuxiliarySet::Workflow => all,
        AuxiliarySet::Punctuation => {
            let ghost before = all@;
            assert(pair_views(before).len() == 3);
            assert(pair_views(before)[2] == (before[2].0@, before[2].1@));
            let punc = all.pop();
            let mut r: Vec<(String, String)> = Vec::new();
            match punc {
                Some(p) => r.push(p),
                None => {},
            }
            proof {
                assert(pair_views(r@) =~= set_weights(set, root@));
            }
            r
        },
    }
}

/// Starts making the set's models ready in `root`: first ask whether their weight files
/// are already in place.
pub fn start_auxiliary_preparation(set: AuxiliarySet, root: &str) -> (r: (
    AuxiliaryPreparation,
    AuxiliaryAction,
))
    ensures
        r.0.set == set,
        r.0.root@ == root@,
        r.0.stage == AuxiliaryStage::Present,
        r.1 matches AuxiliaryAction::CheckWeights(files) && pair_views(files@) == set_weights(set, root@),
{
    let files = weight_files_of(set, root);
    (AuxiliaryPreparation { set, root: owned(root), stage: AuxiliaryStage::Present }, AuxiliaryAction::CheckWeights(files))
}

fn reported_weight_files(set: AuxiliarySet, reply: &str) -> (r: Option<Vec<(String, String)>>)
    ensures
        match r {
            Some(files) => reported_weights(set, reply@) == Some(pair_views(files@)),
            None => reported_weights(set, reply@) is None,
        },
{
    let punc = json_str_at(reply, "/result/punc_model_path");
    match set {
        AuxiliarySet::Workflow => {
            let vad = json_str_at(reply, "/result/vad_model_path");
            let speaker = json_str_at(reply, "/result/speaker_model_path");
            match (vad, speaker, punc) {
                (Some(v), Some(s), Some(p)) => {
                    let mut r: Vec<(String, String)> = Vec::new();
                    r.push((v, owned("model.pt")));
                    r.push((s, owned("campplus_cn_common.bin")));
                    r.push((p, owned("model.pt")));
                    proof {
                        assert(pair_views(r@) =~= reported_weights(set, reply@)->Some_0);
                    }
                    Some(r)
                },
                _ => None,
            }
        },
        AuxiliarySet::Punctuation => match punc {
            Some(p) => {
                let mut r: Vec<(String, String)> = Vec::new();
                r.push((p, owned("model.pt")));
                proof {
                    assert(pair_views(r@) =~= reported_weights(set, reply@)->Some_0);
                }
                Some(r)
            },
            None => None,
        },
    }
}

fn finish(report: Option<(&str, String)>, outcome: Result<(), String>) -> (a: AuxiliaryAction)
    ensures
        finishes_with(
            a,
            match report {
                Some((s, m)) => Some((s@, m@)),
                None => None,
            },
            match outcome {
                Ok(()) => Ok(()),
                Err(e) => Err(e@),
            },
        ),
{
    let report = match report {
        Some((status, message)) => Some(DownloadReport { status: owned(status), message }),
        None => None,
    };
    AuxiliaryAction::Finish { report, outcome }
}

/// Hands the caller's finding to the preparation and says what to do next:
///
/// - weights already in place finish it, with nothing reported;
/// - missing weights start the download of the set into its directory;
/// - a failed download finishes it with the error, reported as `cancelled` (with the
///   set's message) where the user cancelled it, else as `failed` with the error;
/// - a finished download whose reply lacks a model's path finishes it with the set's
///   error, with nothing reported; otherwise the reported paths are checked;
/// - reported paths that hold their weights finish it, reported as `ready`; paths that
///   do not finish it with the set's error.
pub fn advance_auxiliary_preparation(
    prep: AuxiliaryPreparation,
    settings: &AppSettings,
    event: AuxiliaryEvent,
) -> (r: (AuxiliaryPreparation, AuxiliaryAction))
    requires
        awaits(prep.stage, event),
    ensures
        r.0.set == prep.set,
        r.0.root@ == prep.root@,
        match (prep.stage, event) {
            (AuxiliaryStage::Present, AuxiliaryEvent::WeightsPresent(true)) => {
                &&& r.0.stage == AuxiliaryStage::Finished
                &&& finishes_with(r.1, None, Ok(()))
            },
            (AuxiliaryStage::Present, AuxiliaryEvent::WeightsPresent(false)) => {
                &&& r.0.stage == AuxiliaryStage::Downloading
                &&& r.1 matches AuxiliaryAction::Download { request, profile, repo }
                    && set_request(prep.set, *settings, prep.root@, request)
                    && profile == set_profile(prep.set)
                    && repo@ == resolved_repo(settings.asr_model_repo@, settings.asr_model_source@)
            },
            (AuxiliaryStage::Downloading, AuxiliaryEvent::Downloaded(Err(e))) => {
                &&& r.0.stage == AuxiliaryStage::Finished
                &&& finishes_with(
                    r.1,
                    Some(
                        if is_cancellation(e@) {
                            ("cancelled"@, cancelled_message(prep.set))
                        } else {
                            ("failed"@, e@)
                        },
                    ),
                    Err(e@),
                )
            },
            (AuxiliaryStage::Downloading, AuxiliaryEvent::Downloaded(Ok(reply))) => match reported_weights(
                prep.set,
                reply@,
            ) {
                Some(w) => {
                    &&& r.0.stage == AuxiliaryStage::Downloaded
                    &&& r.1 matches AuxiliaryAction::CheckWeights(files) && pair_views(files@) == w
                },
                None => {
                    &&& r.0.stage == AuxiliaryStage::Finished
                    &&& finishes_with(r.1, None, Err(unready_error(prep.set)))
                },
            },
            (AuxiliaryStage::Downloaded, AuxiliaryEvent::WeightsPresent(true)) => {
                &&& r.0.stage == AuxiliaryStage::Finished
                &&& finishes_with(r.1, Some(("ready"@, ready_message(prep.set))), Ok(()))
            },
            (AuxiliaryStage::Downloaded, AuxiliaryEvent::WeightsPresent(false)) => {
                &&& r.0.stage == AuxiliaryStage::Finished
                &&& finishes_with(r.1, None, Err(unready_error(prep.set)))
            },
            _ => false,
        },
{
    let set = prep.set;
    let root = prep.root;
    match (prep.stage, event) {
        (AuxiliaryStage::Present, AuxiliaryEvent::WeightsPresent(present)) => {
            if present {
                (AuxiliaryPreparation { set, root, stage: AuxiliaryStage::Finished }, finish(None, Ok(())))
            } else {
                let id = new_uuid();
                let request = match set {
                    AuxiliarySet::Workflow => prepare_auxiliary_models_request(
                        id.as_str(),
                        root.as_str(),
                        settings.asr_model_source.as_str(),
                    ),
                    AuxiliarySet::Punctuation => prepare_punctuation_model_request(
                        id.as_str(),
                        root.as_str(),
                        settings.asr_model_source.as_str(),
                    ),
                };
                let profile = match set {
                    AuxiliarySet::Workflow => DownloadSizeProfile::Auxiliary,
                    AuxiliarySet::Punctuation => DownloadSizeProfile::Punctuation,
                };
                let repo = resolved_asr_model_repo(settings);
                (
                    AuxiliaryPreparation { set, root, stage: AuxiliaryStage::Downloading },
                    AuxiliaryAction::Download { request, profile, repo },
                )
            }
        },
        (AuxiliaryStage::Downloading, AuxiliaryEvent::Downloaded(Err(e))) => {
            let cancelled = starts_with(&chars_of(e.as_str()), &chars_of("MODEL_DOWNLOAD_CANCELLED"));
            let report = if cancelled {
                let message = match set {
                    AuxiliarySet::Workflow => owned("FunASR workflow model download cancelled"),
                    AuxiliarySet::Punctuation => owned("FunASR punctuation model download cancelled"),
                };
                ("cancelled", message)
            } else {
                ("failed", owned(e.as_str()))
            };
            (AuxiliaryPreparation { set, root, stage: AuxiliaryStage::Finished }, finish(Some(report), Err(e)))
        },
        (AuxiliaryStage::Downloading, AuxiliaryEvent::Downloaded(Ok(reply))) => {
            match reported_weight_files(set, reply.as_str()) {
                Some(files) => (
                    AuxiliaryPreparation { set, root, stage: AuxiliaryStage::Downloaded },
                    AuxiliaryAction::CheckWeights(files),
                ),
                None => (
                    AuxiliaryPreparation { set, root, stage: AuxiliaryStage::Finished },
                    finish(None, Err(unready_error_exec(set))),
                ),
            }
        },
        (AuxiliaryStage::Downloaded, AuxiliaryEvent::WeightsPresent(present)) => {
            if present {
                let message = match set {
                    AuxiliarySet::Workflow => owned("ASR workflow auxiliary models are ready"),
                    AuxiliarySet::Punctuation => owned("FunASR punctuation model is ready"),
                };
                (
                    AuxiliaryPreparation { set, root, stage: AuxiliaryStage::Finished },
                    finish(Some(("ready", message)), Ok(())),
                )
            } else {
                (
                    AuxiliaryPreparation { set, root, stage: AuxiliaryStage::Finished },
                    finish(None, Err(unready_error_exec(set))),
                )
            }
        },
        _ => {
            proof {
                assert(false);
            }
            (AuxiliaryPreparation { set, root, stage: AuxiliaryStage::Finished }, finish(None, Ok(())))
        },
    }
}

fn unready_error_exec(set: AuxiliarySet) -> (e: String)
    ensures
        e@ == unready_error(set),
{
    match set {
        AuxiliarySet::Workflow => owned("ASR workflow model download finished without ready model paths"),
        AuxiliarySet::Punctuation => owned("FunASR punctuation model download finished without ready model path"),
    }
}

} // verus!
