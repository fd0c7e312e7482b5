//! Speech models: which model a configuration selects, the key its status is stored
//! under, and where the model and its auxiliary models (voice activity, speaker,
//! punctuation) lie.
use vstd::prelude::*;

use crate::settings::AppSettings;
use crate::text::{
    append_chars, chars_of, join_path, join_path_exec, owned, replace, replace_exec, str_is,
    string_from_chars, trim, trim_chars,
};

verus! {

broadcast use vstd::string::group_string_axioms;

/// The directory inside a model directory that holds its auxiliary models.
pub const FUNASR_AUXILIARY_DIR: &'static str = ".voice_vibe_aux";

/// The directory of the auxiliary models used with a custom model path.
pub const FUNASR_CUSTOM_AUXILIARY_DIR: &'static str = "FunASR-Workflow__auxiliary";

/// The model of the transcription workflow.
pub const FUNASR_WORKFLOW_DEFAULT_REPO: &'static str = "paraformer-zh";

/// The model older versions used.
pub const FUNASR_LEGACY_NANO_REPO: &'static str = "mlx-community/Fun-ASR-Nano-2512-fp16";

/// The set of models a download-size estimate covers.
#[derive(PartialEq, Eq, Structural, Clone, Copy, Debug)]
pub enum DownloadSizeProfile {
    Pipeline,
    Dictation,
    Auxiliary,
    Punctuation,
}

impl DownloadSizeProfile {
    /// The name of the profile as the sidecar knows it.
    pub open spec fn name(self) -> Seq<char> {
        match self {
            DownloadSizeProfile::Pipeline => "pipeline"@,
            DownloadSizeProfile::Dictation => "dictation"@,
            DownloadSizeProfile::Auxiliary => "auxiliary"@,
            DownloadSizeProfile::Punctuation => "punctuation"@,
        }
    }

    /// The name of the profile as the sidecar knows it.
    pub fn as_str(self) -> (s: &'static str)
        ensures
            s@ == self.name(),
    {
        match self {
            DownloadSizeProfile::Pipeline => "pipeline",
            DownloadSizeProfile::Dictation => "dictation",
            DownloadSizeProfile::Auxiliary => "auxiliary",
            DownloadSizeProfile::Punctuation => "punctuation",
        }
    }
}

/// The model a configuration selects: the configured one (trimmed), except that a
/// blank one, and the legacy model on ModelScope or Hugging Face, select the workflow
/// model (as does the workflow model itself on ModelScope).
pub open spec fn resolved_repo(configured_repo: Seq<char>, source: Seq<char>) -> Seq<char> {
    let c = trim(configured_repo);
    if c.len() == 0 {
        FUNASR_WORKFLOW_DEFAULT_REPO@
    } else if source == "modelscope"@ && (c == FUNASR_WORKFLOW_DEFAULT_REPO@ || c
        == FUNASR_LEGACY_NANO_REPO@) {
        FUNASR_WORKFLOW_DEFAULT_REPO@
    } else if source == "huggingface"@ && c == FUNASR_LEGACY_NANO_REPO@ {
        FUNASR_WORKFLOW_DEFAULT_REPO@
    } else {
        c
    }
}

/// The model a configuration selects.
pub fn resolved_asr_model_repo(settings: &AppSettings) -> (r: String)
    ensures
        r@ == resolved_repo(settings.asr_model_repo@, settings.asr_model_source@),
{
    let c = trim_chars(&chars_of(settings.asr_model_repo.as_str()));
    let configured = string_from_chars(&c);
    let source = settings.asr_model_source.as_str();
    if c.len() == 0 {
        owned(FUNASR_WORKFLOW_DEFAULT_REPO)
    } else if str_is(source, "modelscope") && (str_is(
        configured.as_str(),
        FUNASR_WORKFLOW_DEFAULT_REPO,
    ) || str_is(configured.as_str(), FUNASR_LEGACY_NANO_REPO)) {
        owned(FUNASR_WORKFLOW_DEFAULT_REPO)
    } else if str_is(source, "huggingface") && str_is(configured.as_str(), FUNASR_LEGACY_NANO_REPO) {
        owned(FUNASR_WORKFLOW_DEFAULT_REPO)
    } else {
        configured
    }
}

/// The key the status of the selected model is stored under: `<source>::<model>`.
pub open spec fn status_key(settings: AppSettings) -> Seq<char> {
    settings.asr_model_source@ + "::"@ + resolved_repo(
        settings.asr_model_repo@,
        settings.asr_model_source@,
    )
}

/// The key the status of the selected model is stored under.
pub fn model_status_repo_key(settings: &AppSettings) -> (r: String)
    ensures
        r@ == status_key(*settings),
{
    let mut out = chars_of(settings.asr_model_source.as_str());
    append_chars(&mut out, &chars_of("::"));
    let repo = resolved_asr_model_repo(settings);
    append_chars(&mut out, &chars_of(repo.as_str()));
    string_from_chars(&out)
}

/// The directory the selected model is downloaded to inside `models_dir`:
/// `<source>__<model>`, with every `/` of the model written as `__`.
pub open spec fn target_dir(models_dir: Seq<char>, settings: AppSettings) -> Seq<char> {
    join_path(
        models_dir,
        settings.asr_model_source@ + "__"@ + replace(
            resolved_repo(settings.asr_model_repo@, settings.asr_model_source@),
            "/"@,
            "__"@,
        ),
    )
}

/// The directory the selected model is downloaded to.
pub fn repo_model_target_dir(models_dir: &str, settings: &AppSettings) -> (r: String)
    ensures
        r@ == target_dir(models_dir@, *settings),
{
    let mut name = chars_of(settings.asr_model_source.as_str());
    append_chars(&mut name, &chars_of("__"));
    let repo = resolved_asr_model_repo(settings);
    let slash = chars_of("/");
    proof {
        reveal_strlit("/");
    }
    let escaped = replace_exec(&chars_of(repo.as_str()), &slash, &chars_of("__"));
    append_chars(&mut name, &escaped);
    join_path_exec(models_dir, &name)
}

/// The directory of the auxiliary models used with a custom model path.
pub fn custom_auxiliary_model_root(models_dir: &str) -> (r: String)
    ensures
        r@ == join_path(models_dir@, FUNASR_CUSTOM_AUXILIARY_DIR@),
{
    join_path_exec(models_dir, &chars_of(FUNASR_CUSTOM_AUXILIARY_DIR))
}

/// Whether the configuration names a custom model path.
pub open spec fn has_custom_model_path(settings: AppSettings) -> bool {
    match settings.asr_model_path {
        Some(p) => trim(p@).len() > 0,
        None => false,
    }
}

fn custom_model_path_set(settings: &AppSettings) -> (b: bool)
    ensures
        b == has_custom_model_path(*settings),
{
    match &settings.asr_model_path {
        Some(p) => trim_chars(&chars_of(p.as_str())).len() > 0,
        None => false,
    }
}

/// Where downloads for the configuration go: the custom auxiliary directory where a
/// custom model path is set, else the selected model's directory.
pub open spec fn download_root(models_dir: Seq<char>, settings: AppSettings) -> Seq<char> {
    if has_custom_model_path(settings) {
        join_path(models_dir, FUNASR_CUSTOM_AUXILIARY_DIR@)
    } else {
        target_dir(models_dir, settings)
    }
}

/// Where downloads for the configuration go.
pub fn model_download_root_for_settings(models_dir: &str, settings: &AppSettings) -> (r: String)
    ensures
        r@ == download_root(models_dir@, *settings),
{
    if custom_model_path_set(settings) {
        custom_auxiliary_model_root(models_dir)
    } else {
        repo_model_target_dir(models_dir, settings)
    }
}

/// The auxiliary model directories for a model: their root (the custom auxiliary
/// directory where a custom model path is set, else the model's own auxiliary
/// directory) and its voice activity, speaker and punctuation model directories.
pub open spec fn auxiliary_paths(models_dir: Seq<char>, settings: AppSettings, model_path: Seq<char>) -> (
    Seq<char>,
    Seq<char>,
    Seq<char>,
    Seq<char>,
) {
    let root = if has_custom_model_path(settings) {
        join_path(models_dir, FUNASR_CUSTOM_AUXILIARY_DIR@)
    } else {
        join_path(model_path, FUNASR_AUXILIARY_DIR@)
    };
    (
        root,
        join_path(root, "fsmn-vad"@),
        join_path(root, "campplus"@),
        join_path(root, "ct-punc-c"@),
    )
}

/// The auxiliary model directories for a model.
pub fn auxiliary_model_paths_for_queue(
    models_dir: &str,
    settings: &AppSettings,
    model_path: &str,
) -> (r: (String, String, String, String))
    ensures
        (r.0@, r.1@, r.2@, r.3@) == auxiliary_paths(models_dir@, *settings, model_path@),
{
    let root = if custom_model_path_set(settings) {
        custom_auxiliary_model_root(models_dir)
    } else {
        join_path_exec(model_path, &chars_of(FUNASR_AUXILIARY_DIR))
    };
    let vad = join_path_exec(root.as_str(), &chars_of("fsmn-vad"));
    let speaker = join_path_exec(root.as_str(), &chars_of("campplus"));
    let punc = join_path_exec(root.as_str(), &chars_of("ct-punc-c"));
    (root, vad, speaker, punc)
}

/// The name shown for a model source.
pub open spec fn source_label(source: Seq<char>) -> Seq<char> {
    if source == "modelscope"@ {
        "ModelScope"@
    } else if source == "huggingface"@ {
        "Hugging Face"@
    } else {
        source
    }
}

/// The name shown for a model source.
pub fn model_source_label(source: &str) -> (r: &str)
    ensures
        r@ == source_label(source@),
{
    if str_is(source, "modelscope") {
        "ModelScope"
    } else if str_is(source, "huggingface") {
        "Hugging Face"
    } else {
        source
    }
}

/// The views of a list of (directory, file name) pairs.
pub open spec fn pair_views(v: Seq<(String, String)>) -> Seq<(Seq<char>, Seq<char>)> {
    v.map_values(|p: (String, String)| (p.0@, p.1@))
}

/// The weight files whose presence shows that the auxiliary models in `root` are
/// downloaded: each is a (directory, file name) pair, the directory to be present and the
/// file inside it; the voice activity, speaker and punctuation models, in that order.
pub open spec fn root_weights(root: Seq<char>) -> Seq<(Seq<char>, Seq<char>)> {
    seq![
        (join_path(root, "fsmn-vad"@), "model.pt"@),
        (join_path(root, "campplus"@), "campplus_cn_common.bin"@),
        (join_path(root, "ct-punc-c"@), "model.pt"@),
    ]
}

/// The weight files of the workflow's auxiliary models for a model.
pub open spec fn auxiliary_weights(models_dir: Seq<char>, settings: AppSettings, model_path: Seq<char>) -> Seq<
    (Seq<char>, Seq<char>),
> {
    root_weights(auxiliary_paths(models_dir, settings, model_path).0)
}

/// The weight files whose presence shows that the dictation models are downloaded: the
/// speech model's own and the punctuation model's.
pub open spec fn dictation_weights(models_dir: Seq<char>, settings: AppSettings, model_path: Seq<char>) -> Seq<
    (Seq<char>, Seq<char>),
> {
    let p = auxiliary_paths(models_dir, settings, model_path);
    seq![(model_path, "model.pt"@), (p.3, "model.pt"@)]
}

/// The weight files of the auxiliary models in `root`, in the order they are checked.
pub fn root_weight_files(root: &str) -> (r: Vec<(String, String)>)
    ensures
        pair_views(r@) == root_weights(root@),
{
    let mut r: Vec<(String, String)> = Vec::new();
    r.push((join_path_exec(root, &chars_of("fsmn-vad")), owned("model.pt")));
    r.push((join_path_exec(root, &chars_of("campplus")), owned("campplus_cn_common.bin")));
    r.push((join_path_exec(root, &chars_of("ct-punc-c")), owned("model.pt")));
    assert(pair_views(r@) =~= root_weights(root@));
    r
}

/// The weight files the workflow's auxiliary models need, in the order they are checked.
pub fn auxiliary_weight_files(models_dir: &str, settings: &AppSettings, model_path: &str) -> (r: Vec<
    (String, String),
>)
    ensures
        pair_views(r@) == auxiliary_weights(models_dir@, *settings, model_path@),
{
    let (root, _vad, _speaker, _punc) = auxiliary_model_paths_for_queue(models_dir, settings, model_path);
    root_weight_files(root.as_str())
}

/// The weight files dictation needs, in the order they are checked.
pub fn dictation_weight_files(models_dir: &str, settings: &AppSettings, model_path: &str) -> (r: Vec<
    (String, String),
>)
    ensures
        pair_views(r@) == dictation_weights(models_dir@, *settings, model_path@),
{
    let (_root, _vad, _speaker, punc) = auxiliary_model_paths_for_queue(models_dir, settings, model_path);
    let mut r: Vec<(String, String)> = Vec::new();
    r.push((owned(model_path), owned("model.pt")));
    r.push((punc, owned("model.pt")));
    assert(pair_views(r@) =~= dictation_weights(models_dir@, *settings, model_path@));
    r
}

/// The model directories dictation may use, in the order they are tried, each taken only
/// where it exists and holds the dictation weights: the configured path alone where one
/// is set; else the path stored with the model's status, where there is one, and then
/// the download directory.
pub open spec fn dictation_candidates(models_dir: Seq<char>, settings: AppSettings, stored_path: Option<
    Seq<char>,
>) -> Seq<Seq<char>> {
    if has_custom_model_path(settings) {
        seq![settings.asr_model_path->Some_0@]
    } else {
        match stored_path {
            Some(p) => seq![p, target_dir(models_dir, settings)],
            None => seq![target_dir(models_dir, settings)],
        }
    }
}

/// The model directories dictation may use, in the order they are tried.
pub fn dictation_model_candidates(models_dir: &str, settings: &AppSettings, stored_path: Option<&str>) -> (r:
    Vec<String>)
    ensures
        r@.map_values(|s: String| s@) == dictation_candidates(
            models_dir@,
            *settings,
            match stored_path {
                Some(p) => Some(p@),
                None => None,
            },
        ),
{
    let mut r: Vec<String> = Vec::new();
    if custom_model_path_set(settings) {
        match &settings.asr_model_path {
            Some(p) => r.push(p.clone()),
            None => {},
        }
    } else {
        match stored_path {
            Some(p) => r.push(owned(p)),
            None => {},
        }
        r.push(repo_model_target_dir(models_dir, settings));
    }
    proof {
        let ghost sp = match stored_path {
            Some(p) => Some(p@),
            None => None,
        };
        assert(r@.map_values(|s: String| s@) =~= dictation_candidates(models_dir@, *settings, sp));
    }
    r
}

} // verus!
