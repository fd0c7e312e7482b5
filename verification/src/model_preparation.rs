//! Making the speech models ready before a transcription or a dictation. The caller
//! does the work that touches the disk, the database and the sidecar; after each step
//! it hands the outcome back, and this module says what to do next:
//!
//! - a configured model path is used where it exists, once the models kept beside it
//!   are prepared, and is an error where it does not;
//! - otherwise a stored model whose path holds the models is reused (for the workflow,
//!   only one stored as ready); for dictation, models already in the download
//!   directory are recorded as ready;
//! - anything else is downloaded: the download is recorded as under way, and its end
//!   is recorded as ready, cancelled or failed.
use vstd::prelude::*;

use crate::model_status::{
    configured_model_outcome, configured_outcome, configured_path, downloading,
    downloading_model_status, failed_download, failed_download_status, outcome_views,
    ready_download, ready_model_status, ModelKind, ModelStatus, StatusView,
};
use crate::models::{
    custom_auxiliary_model_root, model_status_repo_key, repo_model_target_dir,
    resolved_asr_model_repo, resolved_repo, status_key, target_dir, FUNASR_CUSTOM_AUXILIARY_DIR,
};
use crate::recording::new_uuid;
use crate::settings::AppSettings;
use crate::sidecar_requests::{
    prepare_dictation_models_request, prepare_model_request, text_field, SidecarRequest,
};
use crate::text::{join_path, opt_views, owned, str_is};

verus! {

broadcast use vstd::string::group_string_axioms;

/// Where the preparation stands, and what it waits for.
pub enum PreparationStage {
    /// Whether the configured model path exists.
    ConfiguredPath { path: String },
    /// The models kept beside the configured path, which exists.
    BesideConfigured { path: String },
    /// The stored status of the selected model.
    Stored,
    /// Whether the stored model's path holds the models.
    StoredModels { stored: ModelStatus },
    /// Whether the download directory already holds the dictation models; the path
    /// stored before is kept for the status recorded while downloading.
    TargetModels { previous_path: Option<String> },
    /// The download.
    Downloading,
    /// Whether the downloaded path holds the dictation models.
    DownloadedModels { model_path: String },
    /// Nothing: the preparation is over.
    Finished,
}

/// A preparation under way: which models, and where it stands.
pub struct ModelPreparation {
    pub kind: ModelKind,
    pub stage: PreparationStage,
}

/// What the caller found out.
pub enum PreparationEvent {
    /// Whether the path asked about exists.
    PathExists(bool),
    /// How preparing the models beside the configured path went.
    BesidePrepared(Result<(), String>),
    /// The stored status of the selected model.
    StoredStatus(ModelStatus),
    /// Whether the path asked about holds the models.
    ModelsReady(bool),
    /// How the download went: the model path the sidecar reported, if it reported one,
    /// or the error.
    Downloaded(Result<Option<String>, String>),
}

/// What the caller does next.
pub enum PreparationAction {
    /// Find out whether this path exists.
    CheckPathExists(String),
    /// Prepare, in this directory, the models kept beside a configured path: the voice
    /// activity, speaker and punctuation models for the workflow, the punctuation model
    /// for dictation (`auxiliary_models` says how).
    PrepareBeside(String),
    /// Read the status stored under this key.
    LoadStoredStatus(String),
    /// Find out whether this path exists and holds the models.
    CheckStoredModels(String),
    /// Find out whether this path holds the models.
    CheckModels(String),
    /// Store `status`, then download into `target_dir` by sending `request`.
    Download { status: ModelStatus, target_dir: String, request: SidecarRequest },
    /// Store `status`, whether or not that succeeds, then fail with `error`.
    RecordFailure { status: ModelStatus, error: String },
    /// Store `status`, then finish with what the store gives back, under the selected
    /// model's name.
    StoreReady(ModelStatus),
    /// Finish with this outcome.
    Finish(Result<ModelStatus, String>),
}

/// The event the stage waits for.
pub open spec fn expects(stage: PreparationStage, event: PreparationEvent) -> bool {
    match stage {
        PreparationStage::ConfiguredPath { .. } => event is PathExists,
        PreparationStage::BesideConfigured { .. } => event is BesidePrepared,
        PreparationStage::Stored => event is StoredStatus,
        PreparationStage::StoredModels { .. } => event is ModelsReady,
        PreparationStage::TargetModels { .. } => event is ModelsReady,
        PreparationStage::Downloading => event is Downloaded,
        PreparationStage::DownloadedModels { .. } => event is ModelsReady,
        PreparationStage::Finished => false,
    }
}

/// `request` asks the sidecar to download the kind's models of the selected model from
/// the configured source into `target`, under a fresh id.
pub open spec fn download_request(
    kind: ModelKind,
    settings: AppSettings,
    target: Seq<char>,
    request: SidecarRequest,
) -> bool {
    &&& request.id@.len() == 36
    &&& request.request_type@ == (if kind == ModelKind::Workflow {
        "prepare_model"@
    } else {
        "prepare_dictation_models"@
    })
    &&& request.payload@.len() == 3
    &&& text_field(
        request.payload@[0],
        "repo"@,
        resolved_repo(settings.asr_model_repo@, settings.asr_model_source@),
    )
    &&& text_field(request.payload@[1], "target_dir"@, target)
    &&& text_field(request.payload@[2], "source"@, settings.asr_model_source@)
}

/// The preparation waits for the download, and the action records the download as
/// under way (keeping `previous_path`) and starts it into the selected model's
/// directory.
pub open spec fn downloads(
    kind: ModelKind,
    settings: AppSettings,
    models_dir: Seq<char>,
    previous_path: Option<Seq<char>>,
    r: (ModelPreparation, PreparationAction),
) -> bool {
    &&& r.0.kind == kind
    &&& r.0.stage is Downloading
    &&& r.1 matches PreparationAction::Download { status, target_dir: t, request }
    &&& status@ == downloading(kind, settings, previous_path)
    &&& t@ == target_dir(models_dir, settings)
    &&& download_request(kind, settings, t@, request)
}

/// The status a reused stored model is given: for the workflow, the stored status
/// under the selected model's name; for dictation, ready with its own message, keeping
/// the stored path and time.
pub open spec fn reused(kind: ModelKind, settings: AppSettings, stored: StatusView) -> StatusView {
    let repo = resolved_repo(settings.asr_model_repo@, settings.asr_model_source@);
    if kind == ModelKind::Workflow {
        StatusView { repo: repo, ..stored }
    } else {
        StatusView {
            repo: repo,
            status: "ready"@,
            path: stored.path,
            message: Some("FunASR dictation models are ready"@),
            updated_at: stored.updated_at,
        }
    }
}

/// The error where the sidecar reports no model path.
pub open spec fn missing_model_path(kind: ModelKind) -> Seq<char> {
    if kind == ModelKind::Workflow {
        "Model download response missing model_path"@
    } else {
        "Dictation model download response missing model_path"@
    }
}

/// At most how many more steps the preparation takes from this stage.
pub open spec fn steps_left(stage: PreparationStage) -> nat {
    match stage {
        PreparationStage::ConfiguredPath { .. } => 2,
        PreparationStage::BesideConfigured { .. } => 1,
        PreparationStage::Stored => 5,
        PreparationStage::StoredModels { .. } => 4,
        PreparationStage::TargetModels { .. } => 3,
        PreparationStage::Downloading => 2,
        PreparationStage::DownloadedModels { .. } => 1,
        PreparationStage::Finished => 0,
    }
}

/// The action ends the preparation: it finishes, or records a status and finishes.
pub open spec fn is_final(action: PreparationAction) -> bool {
    action is Finish || action is RecordFailure || action is StoreReady
}

/// The preparation is over, with this action.
pub open spec fn finishes(r: (ModelPreparation, PreparationAction), kind: ModelKind) -> bool {
    r.0.kind == kind && r.0.stage is Finished
}

/// Starts preparing `kind`'s models: a configured path is checked first, else the
/// stored status is read.
pub fn start_model_preparation(kind: ModelKind, settings: &AppSettings) -> (r: (
    ModelPreparation,
    PreparationAction,
))
    ensures
        r.0.kind == kind,
        !(r.0.stage is Finished),
        !is_final(r.1),
        match configured_path(*settings) {
            Some(p) => {
                &&& r.0.stage matches PreparationStage::ConfiguredPath { path }
                &&& path@ == p
                &&& r.1 matches PreparationAction::CheckPathExists(q)
                &&& q@ == p
            },
            None => {
                &&& r.0.stage is Stored
                &&& r.1 matches PreparationAction::LoadStoredStatus(key)
                &&& key@ == status_key(*settings)
            },
        },
{
    match crate::model_status::configured_model_path(settings) {
        Some(p) => {
            let q = owned(p.as_str());
            (
                ModelPreparation { kind, stage: PreparationStage::ConfiguredPath { path: p } },
                PreparationAction::CheckPathExists(q),
            )
        },
        None => (
            ModelPreparation { kind, stage: PreparationStage::Stored },
            PreparationAction::LoadStoredStatus(model_status_repo_key(settings)),
        ),
    }
}

fn begin_download(
    kind: ModelKind,
    settings: &AppSettings,
    models_dir: &str,
    previous_path: Option<String>,
) -> (r: (ModelPreparation, PreparationAction))
    ensures
        downloads(kind, *settings, models_dir@, opt_views(previous_path), r),
{
    let status = downloading_model_status(kind, settings, previous_path);
    let target = repo_model_target_dir(models_dir, settings);
    let repo = resolved_asr_model_repo(settings);
    let id = new_uuid();
    let request = match kind {
        ModelKind::Workflow => prepare_model_request(
            id.as_str(),
            repo.as_str(),
            target.as_str(),
            settings.asr_model_source.as_str(),
        ),
        ModelKind::Dictation => prepare_dictation_models_request(
            id.as_str(),
            repo.as_str(),
            target.as_str(),
            settings.asr_model_source.as_str(),
        ),
    };
    (
        ModelPreparation { kind, stage: PreparationStage::Downloading },
        PreparationAction::Download { status, target_dir: target, request },
    )
}

fn reused_status(kind: ModelKind, settings: &AppSettings, stored: ModelStatus) -> (s: ModelStatus)
    ensures
        s@ == reused(kind, *settings, stored@),
{
    match kind {
        ModelKind::Workflow => ModelStatus {
            repo: resolved_asr_model_repo(settings),
            status: stored.status,
            path: stored.path,
            message: stored.message,
            updated_at: stored.updated_at,
        },
        ModelKind::Dictation => ModelStatus {
            repo: resolved_asr_model_repo(settings),
            status: owned("ready"),
            path: stored.path,
            message: Some(owned("FunASR dictation models are ready")),
            updated_at: stored.updated_at,
        },
    }
}

/// Hands what the caller found out to the preparation: gives back the preparation as
/// it stands after it, and what to do next. `settings` and `models_dir` are those the
/// preparation started with.
pub fn advance_model_preparation(
    prep: ModelPreparation,
    settings: &AppSettings,
    models_dir: &str,
    event: PreparationEvent,
) -> (r: (ModelPreparation, PreparationAction))
    requires
        expects(prep.stage, event),
    ensures
        r.0.kind == prep.kind,
        steps_left(r.0.stage) < steps_left(prep.stage),
        (r.0.stage is Finished) == is_final(r.1),
        match prep.stage {
            PreparationStage::ConfiguredPath { path } => match event {
                PreparationEvent::PathExists(true) => {
                    &&& r.0.stage matches PreparationStage::BesideConfigured { path: q }
                    &&& q@ == path@
                    &&& r.1 matches PreparationAction::PrepareBeside(root)
                    &&& root@ == join_path(models_dir@, FUNASR_CUSTOM_AUXILIARY_DIR@)
                },
                _ => {
                    &&& finishes(r, prep.kind)
                    &&& r.1 matches PreparationAction::Finish(o)
                    &&& outcome_views(o) == configured_outcome(
                        prep.kind,
                        resolved_repo(settings.asr_model_repo@, settings.asr_model_source@),
                        path@,
                        false,
                    )
                },
            },
            PreparationStage::BesideConfigured { path } => {
                &&& finishes(r, prep.kind)
                &&& r.1 matches PreparationAction::Finish(o)
                &&& match event {
                    PreparationEvent::BesidePrepared(Err(e)) => outcome_views(o) == Err::<
                        StatusView,
                        Seq<char>,
                    >(e@),
                    _ => outcome_views(o) == configured_outcome(
                        prep.kind,
                        resolved_repo(settings.asr_model_repo@, settings.asr_model_source@),
                        path@,
                        true,
                    ),
                }
            },
            PreparationStage::Stored => match event {
                PreparationEvent::StoredStatus(s) => match s.path {
                    Some(p) => if prep.kind == ModelKind::Dictation || s.status@ == "ready"@ {
                        &&& r.0.stage matches PreparationStage::StoredModels { stored }
                        &&& stored@ == s@
                        &&& r.1 matches PreparationAction::CheckStoredModels(q)
                        &&& q@ == p@
                    } else {
                        downloads(prep.kind, *settings, models_dir@, Some(p@), r)
                    },
                    None => if prep.kind == ModelKind::Dictation {
                        &&& r.0.stage matches PreparationStage::TargetModels { previous_path }
                        &&& previous_path is None
                        &&& r.1 matches PreparationAction::CheckModels(q)
                        &&& q@ == target_dir(models_dir@, *settings)
                    } else {
                        downloads(prep.kind, *settings, models_dir@, None, r)
                    },
                },
                _ => false,
            },
            PreparationStage::StoredModels { stored } => match event {
                PreparationEvent::ModelsReady(true) => {
                    &&& finishes(r, prep.kind)
                    &&& r.1 matches PreparationAction::Finish(Ok(s))
                    &&& s@ == reused(prep.kind, *settings, stored@)
                },
                _ => if prep.kind == ModelKind::Dictation {
                    &&& r.0.stage matches PreparationStage::TargetModels { previous_path }
                    &&& opt_views(previous_path) == stored@.path
                    &&& r.1 matches PreparationAction::CheckModels(q)
                    &&& q@ == target_dir(models_dir@, *settings)
                } else {
                    downloads(prep.kind, *settings, models_dir@, stored@.path, r)
                },
            },
            PreparationStage::TargetModels { previous_path } => match event {
                PreparationEvent::ModelsReady(true) => {
                    &&& finishes(r, prep.kind)
                    &&& r.1 matches PreparationAction::StoreReady(s)
                    &&& s@ == ready_download(
                        prep.kind,
                        *settings,
                        target_dir(models_dir@, *settings),
                    )
                },
                _ => downloads(prep.kind, *settings, models_dir@, opt_views(previous_path), r),
            },
            PreparationStage::Downloading => match event {
                PreparationEvent::Downloaded(Err(e)) => {
                    &&& finishes(r, prep.kind)
                    &&& r.1 matches PreparationAction::RecordFailure { status, error }
                    &&& error@ == e@
                    &&& status@ == failed_download(prep.kind, *settings, e@)
                },
                PreparationEvent::Downloaded(Ok(None)) => {
                    &&& finishes(r, prep.kind)
                    &&& r.1 matches PreparationAction::Finish(Err(e))
                    &&& e@ == missing_model_path(prep.kind)
                },
                PreparationEvent::Downloaded(Ok(Some(mp))) => if prep.kind == ModelKind::Workflow {
                    &&& finishes(r, prep.kind)
                    &&& r.1 matches PreparationAction::StoreReady(s)
                    &&& s@ == ready_download(prep.kind, *settings, mp@)
                } else {
                    &&& r.0.stage matches PreparationStage::DownloadedModels { model_path }
                    &&& model_path@ == mp@
                    &&& r.1 matches PreparationAction::CheckModels(q)
                    &&& q@ == mp@
                },
                _ => false,
            },
            PreparationStage::DownloadedModels { model_path } => {
                &&& finishes(r, prep.kind)
                &&& match event {
                    PreparationEvent::ModelsReady(true) => {
                        &&& r.1 matches PreparationAction::StoreReady(s)
                        &&& s@ == ready_download(prep.kind, *settings, model_path@)
                    },
                    _ => {
                        &&& r.1 matches PreparationAction::Finish(Err(e))
                        &&& e@ == "FunASR dictation model download finished without ready model paths"@
                    },
                }
            },
            PreparationStage::Finished => false,
        },
{
    let kind = prep.kind;
    match prep.stage {
        PreparationStage::ConfiguredPath { path } => {
            let exists = match event {
                PreparationEvent::PathExists(b) => b,
                _ => false,
            };
            if exists {
                (
                    ModelPreparation { kind, stage: PreparationStage::BesideConfigured { path } },
                    PreparationAction::PrepareBeside(custom_auxiliary_model_root(models_dir)),
                )
            } else {
                let outcome = configured_model_outcome(kind, settings, path.as_str(), false);
                (
                    ModelPreparation { kind, stage: PreparationStage::Finished },
                    PreparationAction::Finish(outcome),
                )
            }
        },
        PreparationStage::BesideConfigured { path } => {
            let outcome = match event {
                PreparationEvent::BesidePrepared(Err(e)) => Err(e),
                _ => configured_model_outcome(kind, settings, path.as_str(), true),
            };
            (
                ModelPreparation { kind, stage: PreparationStage::Finished },
                PreparationAction::Finish(outcome),
            )
        },
        PreparationStage::Stored => {
            let stored = match event {
                PreparationEvent::StoredStatus(s) => s,
                _ => {
                    return (
                        ModelPreparation { kind, stage: PreparationStage::Finished },
                        PreparationAction::Finish(Err(owned(""))),
                    );
                },
            };
            let check = match &stored.path {
                Some(p) => if kind == ModelKind::Dictation || str_is(stored.status.as_str(), "ready") {
                    Some(owned(p.as_str()))
                } else {
                    None
                },
                None => None,
            };
            match check {
                Some(q) => (
                    ModelPreparation { kind, stage: PreparationStage::StoredModels { stored } },
                    PreparationAction::CheckStoredModels(q),
                ),
                None => {
                    if kind == ModelKind::Dictation {
                        (
                            ModelPreparation {
                                kind,
                                stage: PreparationStage::TargetModels { previous_path: None },
                            },
                            PreparationAction::CheckModels(
                                repo_model_target_dir(models_dir, settings),
                            ),
                        )
                    } else {
                        begin_download(kind, settings, models_dir, stored.path)
                    }
                },
            }
        },
        PreparationStage::StoredModels { stored } => {
            let ready = match event {
                PreparationEvent::ModelsReady(b) => b,
                _ => false,
            };
            if ready {
                (
                    ModelPreparation { kind, stage: PreparationStage::Finished },
                    PreparationAction::Finish(Ok(reused_status(kind, settings, stored))),
                )
            } else if kind == ModelKind::Dictation {
                (
                    ModelPreparation {
                        kind,
                        stage: PreparationStage::TargetModels { previous_path: stored.path },
                    },
                    PreparationAction::CheckModels(repo_model_target_dir(models_dir, settings)),
                )
            } else {
                begin_download(kind, settings, models_dir, stored.path)
            }
        },
        PreparationStage::TargetModels { previous_path } => {
            let ready = match event {
                PreparationEvent::ModelsReady(b) => b,
                _ => false,
            };
            if ready {
                let target = repo_model_target_dir(models_dir, settings);
                (
                    ModelPreparation { kind, stage: PreparationStage::Finished },
                    PreparationAction::StoreReady(
                        ready_model_status(kind, settings, target.as_str()),
                    ),
                )
            } else {
                begin_download(kind, settings, models_dir, previous_path)
            }
        },
        PreparationStage::Downloading => {
            let outcome = match event {
                PreparationEvent::Downloaded(r) => r,
                _ => Err(owned("")),
            };
            match outcome {
                Err(e) => {
                    let status = failed_download_status(kind, settings, e.as_str());
                    (
                        ModelPreparation { kind, stage: PreparationStage::Finished },
                        PreparationAction::RecordFailure { status, error: e },
                    )
                },
                Ok(None) => {
                    let e = match kind {
                        ModelKind::Workflow => owned("Model download response missing model_path"),
                        ModelKind::Dictation => owned(
                            "Dictation model download response missing model_path",
                        ),
                    };
                    (
                        ModelPreparation { kind, stage: PreparationStage::Finished },
                        PreparationAction::Finish(Err(e)),
                    )
                },
                Ok(Some(mp)) => {
                    if kind == ModelKind::Workflow {
                        (
                            ModelPreparation { kind, stage: PreparationStage::Finished },
                            PreparationAction::StoreReady(
                                ready_model_status(kind, settings, mp.as_str()),
                            ),
                        )
                    } else {
                        let q = owned(mp.as_str());
                        (
                            ModelPreparation {
                                kind,
                                stage: PreparationStage::DownloadedModels { model_path: mp },
                            },
                            PreparationAction::CheckModels(q),
                        )
                    }
                },
            }
        },
        PreparationStage::DownloadedModels { model_path } => {
            let ready = match event {
                PreparationEvent::ModelsReady(b) => b,
                _ => false,
            };
            let action = if ready {
                PreparationAction::StoreReady(ready_model_status(kind, settings, model_path.as_str()))
            } else {
                PreparationAction::Finish(
                    Err(owned("FunASR dictation model download finished without ready model paths")),
                )
            };
            (ModelPreparation { kind, stage: PreparationStage::Finished }, action)
        },
        PreparationStage::Finished => (
            ModelPreparation { kind, stage: PreparationStage::Finished },
            PreparationAction::Finish(Err(owned(""))),
        ),
    }
}

} // verus!
