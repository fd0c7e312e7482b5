//! The status of the speech models and the decisions taken while preparing them: a
//! configured model path is used as it is, a stored ready model is reused, anything
//! else is downloaded, and each outcome is recorded with its message.
use vstd::prelude::*;

use crate::models::{resolved_asr_model_repo, resolved_repo, source_label, status_key, model_source_label, model_status_repo_key};
use crate::settings::AppSettings;
use crate::text::{
    append_chars, chars_of, has_prefix, opt_views, owned, starts_with, str_is, string_from_chars,
    trim, trim_chars,
};

verus! {

broadcast use vstd::string::group_string_axioms;

/// The status of a model: which model, `ready`, `missing`, `downloading`, `failed` or
/// `cancelled`, where it lies, a message, and when it was stored.
pub struct ModelStatus {
    pub repo: String,
    pub status: String,
    pub path: Option<String>,
    pub message: Option<String>,
    pub updated_at: Option<String>,
}

/// Which models are being prepared: the full transcription workflow, or the smaller set
/// that dictation needs.
#[derive(PartialEq, Eq, Structural, Clone, Copy, Debug)]
pub enum ModelKind {
    Workflow,
    Dictation,
}

/// The name of the set of models in messages.
pub open spec fn kind_name(kind: ModelKind) -> Seq<char> {
    match kind {
        ModelKind::Workflow => "workflow"@,
        ModelKind::Dictation => "dictation"@,
    }
}

fn kind_name_exec(kind: ModelKind) -> (s: &'static str)
    ensures
        s@ == kind_name(kind),
{
    match kind {
        ModelKind::Workflow => "workflow",
        ModelKind::Dictation => "dictation",
    }
}

/// The configured model path, where one is set (not blank).
pub open spec fn configured_path(settings: AppSettings) -> Option<Seq<char>> {
    match settings.asr_model_path {
        Some(p) => if trim(p@).len() > 0 {
            Some(p@)
        } else {
            None
        },
        None => None,
    }
}

/// The configured model path, where one is set.
pub fn configured_model_path(settings: &AppSettings) -> (r: Option<String>)
    ensures
        opt_views(r) == configured_path(*settings),
{
    match &settings.asr_model_path {
        Some(p) => if trim_chars(&chars_of(p.as_str())).len() > 0 {
            Some(p.clone())
        } else {
            None
        },
        None => None,
    }
}

/// The views of a model status.
pub struct StatusView {
    pub repo: Seq<char>,
    pub status: Seq<char>,
    pub path: Option<Seq<char>>,
    pub message: Option<Seq<char>>,
    pub updated_at: Option<Seq<char>>,
}

impl View for ModelStatus {
    type V = StatusView;

    open spec fn view(&self) -> StatusView {
        StatusView {
            repo: self.repo@,
            status: self.status@,
            path: opt_views(self.path),
            message: opt_views(self.message),
            updated_at: opt_views(self.updated_at),
        }
    }
}

/// The outcome of preparing models with a configured path: ready where the path
/// exists, else the error that it does not.
pub open spec fn configured_outcome(
    kind: ModelKind,
    repo: Seq<char>,
    path: Seq<char>,
    exists: bool,
) -> Result<StatusView, Seq<char>> {
    if exists {
        Ok(
            StatusView {
                repo: repo,
                status: "ready"@,
                path: Some(path),
                message: Some(
                    if kind == ModelKind::Workflow {
                        "Using configured local model path"@
                    } else {
                        "Using configured local model path for dictation"@
                    },
                ),
                updated_at: None,
            },
        )
    } else {
        Err("Configured ASR model path does not exist: "@ + path)
    }
}

/// The views of a status result.
pub open spec fn outcome_views(r: Result<ModelStatus, String>) -> Result<StatusView, Seq<char>> {
    match r {
        Ok(s) => Ok(s@),
        Err(e) => Err(e@),
    }
}

/// The outcome of preparing models with a configured path that does or does not
/// exist. (Where it exists, the auxiliary models are prepared beside it first.)
pub fn configured_model_outcome(
    kind: ModelKind,
    settings: &AppSettings,
    path: &str,
    exists: bool,
) -> (r: Result<ModelStatus, String>)
    ensures
        outcome_views(r) == configured_outcome(
            kind,
            resolved_repo(settings.asr_model_repo@, settings.asr_model_source@),
            path@,
            exists,
        ),
{
    if exists {
        let message = match kind {
            ModelKind::Workflow => owned("Using configured local model path"),
            ModelKind::Dictation => owned("Using configured local model path for dictation"),
        };
        Ok(
            ModelStatus {
                repo: resolved_asr_model_repo(settings),
                status: owned("ready"),
                path: Some(owned(path)),
                message: Some(message),
                updated_at: None,
            },
        )
    } else {
        let mut m = chars_of("Configured ASR model path does not exist: ");
        append_chars(&mut m, &chars_of(path));
        Err(string_from_chars(&m))
    }
}

/// Whether the stored model can be used as it is: its path holds ready models (and, for
/// the workflow, it was stored as ready).
pub open spec fn reusable(kind: ModelKind, stored_status: Seq<char>, path_ready: bool) -> bool {
    path_ready && (kind == ModelKind::Dictation || stored_status == "ready"@)
}

/// Whether the stored model can be used as it is. `path_ready` says whether the stored
/// path exists and holds the models the kind needs.
pub fn stored_model_reusable(kind: ModelKind, stored: &ModelStatus, path_ready: bool) -> (b: bool)
    ensures
        b == reusable(kind, stored.status@, path_ready),
{
    path_ready && (kind == ModelKind::Dictation || str_is(stored.status.as_str(), "ready"))
}

/// The status recorded while models download: under the stored key, keeping the
/// previous path, with a message naming the source.
pub open spec fn downloading(
    kind: ModelKind,
    settings: AppSettings,
    previous_path: Option<Seq<char>>,
) -> StatusView {
    StatusView {
        repo: status_key(settings),
        status: "downloading"@,
        path: previous_path,
        message: Some(
            "Downloading FunASR "@ + kind_name(kind) + " models from "@ + source_label(
                settings.asr_model_source@,
            ),
        ),
        updated_at: None,
    }
}

/// The status recorded while models download.
pub fn downloading_model_status(
    kind: ModelKind,
    settings: &AppSettings,
    previous_path: Option<String>,
) -> (s: ModelStatus)
    ensures
        s@ == downloading(kind, *settings, opt_views(previous_path)),
{
    let mut m = chars_of("Downloading FunASR ");
    append_chars(&mut m, &chars_of(kind_name_exec(kind)));
    append_chars(&mut m, &chars_of(" models from "));
    append_chars(&mut m, &chars_of(model_source_label(settings.asr_model_source.as_str())));
    ModelStatus {
        repo: model_status_repo_key(settings),
        status: owned("downloading"),
        path: previous_path,
        message: Some(string_from_chars(&m)),
        updated_at: None,
    }
}

/// Whether a download error says the user cancelled it.
pub open spec fn is_cancellation(error: Seq<char>) -> bool {
    has_prefix(error, "MODEL_DOWNLOAD_CANCELLED"@)
}

/// The status recorded when a download ends in an error: `cancelled` with its message
/// where the user cancelled it, else `failed` with the error.
pub open spec fn failed_download(kind: ModelKind, settings: AppSettings, error: Seq<char>) -> StatusView {
    StatusView {
        repo: status_key(settings),
        status: if is_cancellation(error) {
            "cancelled"@
        } else {
            "failed"@
        },
        path: None,
        message: Some(
            if is_cancellation(error) {
                "FunASR "@ + kind_name(kind) + " model download cancelled"@
            } else {
                error
            },
        ),
        updated_at: None,
    }
}

/// The status recorded when a download ends in an error.
pub fn failed_download_status(kind: ModelKind, settings: &AppSettings, error: &str) -> (s:
    ModelStatus)
    ensures
        s@ == failed_download(kind, *settings, error@),
{
    let cancelled = starts_with(&chars_of(error), &chars_of("MODEL_DOWNLOAD_CANCELLED"));
    let message = if cancelled {
        let mut m = chars_of("FunASR ");
        append_chars(&mut m, &chars_of(kind_name_exec(kind)));
        append_chars(&mut m, &chars_of(" model download cancelled"));
        string_from_chars(&m)
    } else {
        owned(error)
    };
    ModelStatus {
        repo: model_status_repo_key(settings),
        status: owned(if cancelled { "cancelled" } else { "failed" }),
        path: None,
        message: Some(message),
        updated_at: None,
    }
}

/// The status recorded once models are ready at `model_path`.
pub open spec fn ready_download(kind: ModelKind, settings: AppSettings, model_path: Seq<char>) -> StatusView {
    StatusView {
        repo: status_key(settings),
        status: "ready"@,
        path: Some(model_path),
        message: Some("FunASR "@ + kind_name(kind) + " models are ready"@),
        updated_at: None,
    }
}

/// The status recorded once models are ready at `model_path`.
pub fn ready_model_status(kind: ModelKind, settings: &AppSettings, model_path: &str) -> (s:
    ModelStatus)
    ensures
        s@ == ready_download(kind, *settings, model_path@),
{
    let mut m = chars_of("FunASR ");
    append_chars(&mut m, &chars_of(kind_name_exec(kind)));
    append_chars(&mut m, &chars_of(" models are ready"));
    ModelStatus {
        repo: model_status_repo_key(settings),
        status: owned("ready"),
        path: Some(owned(model_path)),
        message: Some(string_from_chars(&m)),
        updated_at: None,
    }
}

/// The status shown for a configured model path: ready where the path exists with its
/// auxiliary models, else missing, with a message telling which.
pub open spec fn custom_path_view(
    settings: AppSettings,
    path: Seq<char>,
    exists: bool,
    auxiliary_ready: bool,
) -> StatusView {
    StatusView {
        repo: resolved_repo(settings.asr_model_repo@, settings.asr_model_source@),
        status: if exists && auxiliary_ready {
            "ready"@
        } else {
            "missing"@
        },
        path: Some(path),
        message: Some(
            if exists && auxiliary_ready {
                "Using configured local model path"@
            } else if exists {
                "ASR workflow auxiliary models are not downloaded"@
            } else {
                "Configured local model path does not exist"@
            },
        ),
        updated_at: None,
    }
}

/// The status shown for a configured model path.
pub fn custom_path_status(
    settings: &AppSettings,
    path: &str,
    exists: bool,
    auxiliary_ready: bool,
) -> (s: ModelStatus)
    ensures
        s@ == custom_path_view(*settings, path@, exists, auxiliary_ready),
{
    let ready = exists && auxiliary_ready;
    let message = if ready {
        owned("Using configured local model path")
    } else if exists {
        owned("ASR workflow auxiliary models are not downloaded")
    } else {
        owned("Configured local model path does not exist")
    };
    ModelStatus {
        repo: resolved_asr_model_repo(settings),
        status: owned(if ready { "ready" } else { "missing" }),
        path: Some(owned(path)),
        message: Some(message),
        updated_at: None,
    }
}

/// What becomes of a stored status when it is shown: shown as it is, or stored again
/// first because it changed.
pub enum StoredStatusOutcome {
    /// Show this status.
    Show(ModelStatus),
    /// Store this status, then show what the store gives back under the selected model.
    StoreAndShow(ModelStatus),
}

/// What becomes of a stored status when it is shown: a download in progress names its
/// source; a model stored as ready whose path is gone, or whose auxiliary models are
/// missing, becomes missing with a message and is stored again under the status key;
/// anything else is shown as it is. What is shown names the selected model.
pub open spec fn stored_view(
    settings: AppSettings,
    stored: StatusView,
    path_exists: bool,
    auxiliary_ready: bool,
) -> (bool, StatusView) {
    let repo = resolved_repo(settings.asr_model_repo@, settings.asr_model_source@);
    if stored.path is Some && stored.status == "ready"@ && (!path_exists || !auxiliary_ready) {
        (
            true,
            StatusView {
                status: "missing"@,
                message: Some(
                    if !path_exists {
                        "Previously downloaded model path is missing"@
                    } else {
                        "ASR workflow auxiliary models are not downloaded"@
                    },
                ),
                repo: status_key(settings),
                ..stored
            },
        )
    } else if stored.status == "downloading"@ {
        (
            false,
            StatusView {
                repo: repo,
                message: Some(
                    "Downloading FunASR workflow models from "@ + source_label(
                        settings.asr_model_source@,
                    ),
                ),
                ..stored
            },
        )
    } else {
        (false, StatusView { repo: repo, ..stored })
    }
}

fn copy_opt(v: &Option<String>) -> (r: Option<String>)
    ensures
        opt_views(r) == opt_views(*v),
{
    match v {
        Some(s) => Some(s.clone()),
        None => None,
    }
}

/// What becomes of a stored status when it is shown. `path_exists` and
/// `auxiliary_ready` say whether the stored path exists and holds the auxiliary models.
pub fn stored_status_view(
    settings: &AppSettings,
    stored: &ModelStatus,
    path_exists: bool,
    auxiliary_ready: bool,
) -> (r: StoredStatusOutcome)
    ensures
        ({
            let expected = stored_view(*settings, stored@, path_exists, auxiliary_ready);
            match r {
                StoredStatusOutcome::Show(s) => !expected.0 && s@ == expected.1,
                StoredStatusOutcome::StoreAndShow(s) => expected.0 && s@ == expected.1,
            }
        }),
{
    let ready = str_is(stored.status.as_str(), "ready");
    if stored.path.is_some() && ready && (!path_exists || !auxiliary_ready) {
        let note = if !path_exists {
            owned("Previously downloaded model path is missing")
        } else {
            owned("ASR workflow auxiliary models are not downloaded")
        };
        return StoredStatusOutcome::StoreAndShow(
            ModelStatus {
                repo: model_status_repo_key(settings),
                status: owned("missing"),
                path: copy_opt(&stored.path),
                message: Some(note),
                updated_at: copy_opt(&stored.updated_at),
            },
        );
    }
    let message = if str_is(stored.status.as_str(), "downloading") {
        let mut m = chars_of("Downloading FunASR workflow models from ");
        append_chars(&mut m, &chars_of(model_source_label(settings.asr_model_source.as_str())));
        Some(string_from_chars(&m))
    } else {
        copy_opt(&stored.message)
    };
    StoredStatusOutcome::Show(
        ModelStatus {
            repo: resolved_asr_model_repo(settings),
            status: stored.status.clone(),
            path: copy_opt(&stored.path),
            message,
            updated_at: copy_opt(&stored.updated_at),
        },
    )
}

} // verus!
