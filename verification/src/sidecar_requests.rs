//! Requests handed to the Python sidecar. A request is a JSON object with an id, a
//! type and a payload; here it is a value of the library's own, which the
//! application writes out as JSON.
use vstd::prelude::*;

use crate::assistant::{
    chat_completions_base_url, chat_completions_base_url_spec, opt_view, AssistantMessage,
    AssistantSession,
};
use crate::note_roots::NoteRoot;
use crate::recording::new_uuid;
use crate::settings::AppSettings;
use crate::text::{owned, str_is};

verus! {

broadcast use vstd::string::group_string_axioms;

/// A JSON value of a request.
#[derive(Debug, PartialEq)]
pub enum RequestValue {
    Null,
    Flag(bool),
    Text(String),
    Integer(i64),
    /// A decimal number, kept as the text it was configured with.
    Decimal(String),
    List(Vec<RequestValue>),
    Object(Vec<RequestField>),
}

/// One member of a JSON object.
#[derive(Debug, PartialEq)]
pub struct RequestField {
    pub key: String,
    pub value: RequestValue,
}

/// A request for the sidecar: `{"id": .., "type": .., "payload": {..}}`.
#[derive(Debug, PartialEq)]
pub struct SidecarRequest {
    pub id: String,
    pub request_type: String,
    pub payload: Vec<RequestField>,
}

/// `v` is the string `s`.
pub open spec fn is_text(v: RequestValue, s: Seq<char>) -> bool {
    v matches RequestValue::Text(t) && t@ == s
}

/// `f` is the member `key: "s"`.
pub open spec fn text_field(f: RequestField, key: Seq<char>, s: Seq<char>) -> bool {
    f.key@ == key && is_text(f.value, s)
}

/// `f` is the member `key: b`.
pub open spec fn flag_field(f: RequestField, key: Seq<char>, b: bool) -> bool {
    f.key@ == key && f.value == RequestValue::Flag(b)
}

/// `r` has the given id and type.
pub open spec fn heads(r: SidecarRequest, id: Seq<char>, kind: Seq<char>) -> bool {
    r.id@ == id && r.request_type@ == kind
}

/// Position `i` is the first member of `fields` named `key`.
pub open spec fn first_with_key(fields: Seq<RequestField>, key: Seq<char>, i: int) -> bool {
    &&& 0 <= i < fields.len()
    &&& fields[i].key@ == key
    &&& forall|j: int| 0 <= j < i ==> (#[trigger] fields[j]).key@ != key
}

fn text_entry(key: &str, value: &str) -> (f: RequestField)
    ensures
        text_field(f, key@, value@),
{
    RequestField { key: owned(key), value: RequestValue::Text(owned(value)) }
}

fn flag_entry(key: &str, value: bool) -> (f: RequestField)
    ensures
        flag_field(f, key@, value),
{
    RequestField { key: owned(key), value: RequestValue::Flag(value) }
}

/// The value of the first member of `fields` named `key`.
fn find_field<'a>(fields: &'a Vec<RequestField>, key: &str) -> (r: Option<&'a RequestValue>)
    ensures
        match r {
            Some(v) => exists|i: int| first_with_key(fields@, key@, i) && *v == fields@[i].value,
            None => forall|i: int| 0 <= i < fields@.len() ==> (#[trigger] fields@[i]).key@ != key@,
        },
{
    let mut i: usize = 0;
    while i < fields.len()
        invariant
            i <= fields@.len(),
            forall|j: int| 0 <= j < i ==> (#[trigger] fields@[j]).key@ != key@,
        decreases fields.len() - i,
    {
        if str_is(fields[i].key.as_str(), key) {
            assert(first_with_key(fields@, key@, i as int));
            return Some(&fields[i].value);
        }
        i += 1;
    }
    None
}

impl RequestValue {
    /// The string this value holds, if it is one.
    pub fn as_text(&self) -> (r: Option<&str>)
        ensures
            match self {
                RequestValue::Text(t) => r matches Some(s) && s@ == t@,
                _ => r is None,
            },
    {
        match self {
            RequestValue::Text(t) => Some(t.as_str()),
            _ => None,
        }
    }

    /// The boolean this value holds, if it is one.
    pub fn as_flag(&self) -> (r: Option<bool>)
        ensures
            match self {
                RequestValue::Flag(b) => r == Some(*b),
                _ => r is None,
            },
    {
        match self {
            RequestValue::Flag(b) => Some(*b),
            _ => None,
        }
    }

    /// The member `key` of this value, if it is an object that has one.
    pub fn field(&self, key: &str) -> (r: Option<&RequestValue>)
        ensures
            match self {
                RequestValue::Object(fields) => match r {
                    Some(v) => exists|i: int| first_with_key(fields@, key@, i) && *v == fields@[i].value,
                    None => forall|i: int|
                        0 <= i < fields@.len() ==> (#[trigger] fields@[i]).key@ != key@,
                },
                _ => r is None,
            },
    {
        match self {
            RequestValue::Object(fields) => find_field(fields, key),
            _ => None,
        }
    }
}

impl SidecarRequest {
    /// The payload member `key`.
    pub fn payload_field(&self, key: &str) -> (r: Option<&RequestValue>)
        ensures
            match r {
                Some(v) => exists|i: int|
                    first_with_key(self.payload@, key@, i) && *v == self.payload@[i].value,
                None => forall|i: int|
                    0 <= i < self.payload@.len() ==> (#[trigger] self.payload@[i]).key@ != key@,
            },
    {
        find_field(&self.payload, key)
    }
}

/// Asks the sidecar to download an ASR model.
pub fn prepare_model_request(id: &str, repo: &str, target_dir: &str, source: &str) -> (r:
    SidecarRequest)
    ensures
        heads(r, id@, "prepare_model"@),
        r.payload@.len() == 3,
        text_field(r.payload@[0], "repo"@, repo@),
        text_field(r.payload@[1], "target_dir"@, target_dir@),
        text_field(r.payload@[2], "source"@, source@),
{
    let mut payload: Vec<RequestField> = Vec::new();
    payload.push(text_entry("repo", repo));
    payload.push(text_entry("target_dir", target_dir));
    payload.push(text_entry("source", source));
    SidecarRequest { id: owned(id), request_type: owned("prepare_model"), payload }
}

/// Asks the sidecar to download the auxiliary (VAD, speaker, punctuation) models.
pub fn prepare_auxiliary_models_request(id: &str, target_dir: &str, source: &str) -> (r:
    SidecarRequest)
    ensures
        heads(r, id@, "prepare_auxiliary_models"@),
        r.payload@.len() == 2,
        text_field(r.payload@[0], "target_dir"@, target_dir@),
        text_field(r.payload@[1], "source"@, source@),
{
    let mut payload: Vec<RequestField> = Vec::new();
    payload.push(text_entry("target_dir", target_dir));
    payload.push(text_entry("source", source));
    SidecarRequest { id: owned(id), request_type: owned("prepare_auxiliary_models"), payload }
}

/// Asks the sidecar to download the punctuation model alone.
pub fn prepare_punctuation_model_request(id: &str, target_dir: &str, source: &str) -> (r:
    SidecarRequest)
    ensures
        heads(r, id@, "prepare_punctuation_model"@),
        r.payload@.len() == 2,
        text_field(r.payload@[0], "target_dir"@, target_dir@),
        text_field(r.payload@[1], "source"@, source@),
{
    let mut payload: Vec<RequestField> = Vec::new();
    payload.push(text_entry("target_dir", target_dir));
    payload.push(text_entry("source", source));
    SidecarRequest { id: owned(id), request_type: owned("prepare_punctuation_model"), payload }
}

/// Asks the sidecar to download the models dictation needs.
pub fn prepare_dictation_models_request(id: &str, repo: &str, target_dir: &str, source: &str) -> (r:
    SidecarRequest)
    ensures
        heads(r, id@, "prepare_dictation_models"@),
        r.payload@.len() == 3,
        text_field(r.payload@[0], "repo"@, repo@),
        text_field(r.payload@[1], "target_dir"@, target_dir@),
        text_field(r.payload@[2], "source"@, source@),
{
    let mut payload: Vec<RequestField> = Vec::new();
    payload.push(text_entry("repo", repo));
    payload.push(text_entry("target_dir", target_dir));
    payload.push(text_entry("source", source));
    SidecarRequest { id: owned(id), request_type: owned("prepare_dictation_models"), payload }
}

/// Asks the sidecar how much a model download for `profile` would fetch.
pub fn estimate_model_download_size_request(id: &str, repo: &str, source: &str, profile: &str) -> (r:
    SidecarRequest)
    ensures
        heads(r, id@, "estimate_model_download_size"@),
        r.payload@.len() == 3,
        text_field(r.payload@[0], "repo"@, repo@),
        text_field(r.payload@[1], "source"@, source@),
        text_field(r.payload@[2], "profile"@, profile@),
{
    let mut payload: Vec<RequestField> = Vec::new();
    payload.push(text_entry("repo", repo));
    payload.push(text_entry("source", source));
    payload.push(text_entry("profile", profile));
    SidecarRequest {
        id: owned(id),
        request_type: owned("estimate_model_download_size"),
        payload,
    }
}

/// The optional model paths of a transcription request that are given, as
/// (member name, path) pairs.
pub open spec fn model_path_entries(
    vad_model_path: Option<Seq<char>>,
    speaker_model_path: Option<Seq<char>>,
    punc_model_path: Option<Seq<char>>,
) -> Seq<(Seq<char>, Seq<char>)> {
    (match vad_model_path {
        Some(p) => seq![("vad_model_path"@, p)],
        None => Seq::empty(),
    }) + (match speaker_model_path {
        Some(p) => seq![("speaker_model_path"@, p)],
        None => Seq::empty(),
    }) + (match punc_model_path {
        Some(p) => seq![("punc_model_path"@, p)],
        None => Seq::empty(),
    })
}

/// The members of `payload` from position `start` on are exactly `entries`.
pub open spec fn text_fields_from(
    payload: Seq<RequestField>,
    start: int,
    entries: Seq<(Seq<char>, Seq<char>)>,
) -> bool {
    &&& payload.len() == start + entries.len()
    &&& forall|i: int|
        0 <= i < entries.len() ==> text_field(
            #[trigger] payload[start + i],
            entries[i].0,
            entries[i].1,
        )
}

fn push_optional_path(
    payload: &mut Vec<RequestField>,
    key: &str,
    path: Option<&str>,
    Ghost(start): Ghost<int>,
    Ghost(done): Ghost<Seq<(Seq<char>, Seq<char>)>>,
)
    requires
        text_fields_from(old(payload)@, start, done),
        0 <= start,
    ensures
        final(payload)@.subrange(0, start) == old(payload)@.subrange(0, start),
        text_fields_from(
            final(payload)@,
            start,
            done + match opt_view(path) {
                Some(p) => seq![(key@, p)],
                None => Seq::empty(),
            },
        ),
{
    let ghost before = payload@;
    if let Some(p) = path {
        payload.push(text_entry(key, p));
        proof {
            let all = done + seq![(key@, p@)];
            assert forall|i: int| 0 <= i < all.len() implies text_field(
                #[trigger] payload@[start + i],
                all[i].0,
                all[i].1,
            ) by {
                if i < done.len() {
                    assert(payload@[start + i] == before[start + i]);
                }
            }
            assert(payload@.subrange(0, start) =~= before.subrange(0, start));
        }
    } else {
        assert(done + Seq::<(Seq<char>, Seq<char>)>::empty() =~= done);
    }
}

/// A transcription request. The model paths that are not given are left out of the
/// payload.
#[allow(clippy::too_many_arguments)]
pub fn transcribe_request_with_profile(
    id: &str,
    audio_path: &str,
    normalized_path: &str,
    model_path: &str,
    ffmpeg_path: &str,
    use_gpu: bool,
    vad_model_path: Option<&str>,
    speaker_model_path: Option<&str>,
    punc_model_path: Option<&str>,
    profile: &str,
    audio_already_normalized: bool,
) -> (r: SidecarRequest)
    ensures
        heads(r, id@, "transcribe"@),
        text_field(r.payload@[0], "audio_path"@, audio_path@),
        text_field(r.payload@[1], "normalized_path"@, normalized_path@),
        text_field(r.payload@[2], "model_path"@, model_path@),
        text_field(r.payload@[3], "ffmpeg_path"@, ffmpeg_path@),
        flag_field(r.payload@[4], "use_gpu"@, use_gpu),
        text_field(r.payload@[5], "profile"@, profile@),
        flag_field(r.payload@[6], "audio_already_normalized"@, audio_already_normalized),
        text_fields_from(
            r.payload@,
            7,
            model_path_entries(
                opt_view(vad_model_path),
                opt_view(speaker_model_path),
                opt_view(punc_model_path),
            ),
        ),
{
    let mut payload: Vec<RequestField> = Vec::new();
    payload.push(text_entry("audio_path", audio_path));
    payload.push(text_entry("normalized_path", normalized_path));
    payload.push(text_entry("model_path", model_path));
    payload.push(text_entry("ffmpeg_path", ffmpeg_path));
    payload.push(flag_entry("use_gpu", use_gpu));
    payload.push(text_entry("profile", profile));
    payload.push(flag_entry("audio_already_normalized", audio_already_normalized));
    let ghost fixed = payload@;
    let ghost none = Seq::<(Seq<char>, Seq<char>)>::empty();
    push_optional_path(&mut payload, "vad_model_path", vad_model_path, Ghost(7), Ghost(none));
    let ghost done1 = none + match opt_view(vad_model_path) {
        Some(p) => seq![("vad_model_path"@, p)],
        None => Seq::empty(),
    };
    push_optional_path(
        &mut payload,
        "speaker_model_path",
        speaker_model_path,
        Ghost(7),
        Ghost(done1),
    );
    let ghost done2 = done1 + match opt_view(speaker_model_path) {
        Some(p) => seq![("speaker_model_path"@, p)],
        None => Seq::empty(),
    };
    push_optional_path(&mut payload, "punc_model_path", punc_model_path, Ghost(7), Ghost(done2));
    proof {
        assert(payload@.subrange(0, 7) == fixed);
        assert(payload@[0] == fixed[0] && payload@[1] == fixed[1] && payload@[2] == fixed[2]);
        assert(payload@[3] == fixed[3] && payload@[4] == fixed[4] && payload@[5] == fixed[5]);
        assert(payload@[6] == fixed[6]);
        assert(done2 + match opt_view(punc_model_path) {
            Some(p) => seq![("punc_model_path"@, p)],
            None => Seq::empty(),
        } =~= model_path_entries(
            opt_view(vad_model_path),
            opt_view(speaker_model_path),
            opt_view(punc_model_path),
        ));
    }
    SidecarRequest { id: owned(id), request_type: owned("transcribe"), payload }
}

/// A meeting transcription request with every auxiliary model given.
#[allow(clippy::too_many_arguments)]
pub fn transcribe_request(
    id: &str,
    audio_path: &str,
    normalized_path: &str,
    model_path: &str,
    ffmpeg_path: &str,
    use_gpu: bool,
    vad_model_path: &str,
    speaker_model_path: &str,
    punc_model_path: &str,
) -> (r: SidecarRequest)
    ensures
        heads(r, id@, "transcribe"@),
        r.payload@.len() == 10,
        text_field(r.payload@[0], "audio_path"@, audio_path@),
        text_field(r.payload@[1], "normalized_path"@, normalized_path@),
        text_field(r.payload@[2], "model_path"@, model_path@),
        text_field(r.payload@[3], "ffmpeg_path"@, ffmpeg_path@),
        flag_field(r.payload@[4], "use_gpu"@, use_gpu),
        text_field(r.payload@[5], "profile"@, "meeting_full"@),
        flag_field(r.payload@[6], "audio_already_normalized"@, false),
        text_field(r.payload@[7], "vad_model_path"@, vad_model_path@),
        text_field(r.payload@[8], "speaker_model_path"@, speaker_model_path@),
        text_field(r.payload@[9], "punc_model_path"@, punc_model_path@),
{
    let r = transcribe_request_with_profile(
        id,
        audio_path,
        normalized_path,
        model_path,
        ffmpeg_path,
        use_gpu,
        Some(vad_model_path),
        Some(speaker_model_path),
        Some(punc_model_path),
        "meeting_full",
        false,
    );
    proof {
        let entries = model_path_entries(
            Some(vad_model_path@),
            Some(speaker_model_path@),
            Some(punc_model_path@),
        );
        assert(entries =~= seq![
            ("vad_model_path"@, vad_model_path@),
            ("speaker_model_path"@, speaker_model_path@),
            ("punc_model_path"@, punc_model_path@),
        ]);
        assert(text_field(r.payload@[7int + 0int], entries[0].0, entries[0].1));
        assert(text_field(r.payload@[7int + 1int], entries[1].0, entries[1].1));
        assert(text_field(r.payload@[7int + 2int], entries[2].0, entries[2].1));
    }
    r
}

/// `v` is the object of a note root: `{"workspace_folder": .., "notes_dir": ..}`.
pub open spec fn root_value(v: RequestValue, root: NoteRoot) -> bool {
    v matches RequestValue::Object(fs) && fs@.len() == 2 && text_field(
        fs@[0],
        "workspace_folder"@,
        root.workspace_folder@,
    ) && text_field(fs@[1], "notes_dir"@, root.notes_dir@)
}

/// `v` is the object of a history message: `{"role": .., "content": ..}`.
pub open spec fn message_value(v: RequestValue, m: AssistantMessage) -> bool {
    v matches RequestValue::Object(fs) && fs@.len() == 2 && text_field(fs@[0], "role"@, m.role@)
        && text_field(fs@[1], "content"@, m.content@)
}

/// `v` is the list of the objects of `roots`, in order.
pub open spec fn roots_value(v: RequestValue, roots: Seq<NoteRoot>) -> bool {
    v matches RequestValue::List(items) && items@.len() == roots.len() && forall|i: int|
        0 <= i < roots.len() ==> root_value(#[trigger] items@[i], roots[i])
}

/// `v` is the list of the objects of `messages`, in order.
pub open spec fn history_value(v: RequestValue, messages: Seq<AssistantMessage>) -> bool {
    v matches RequestValue::List(items) && items@.len() == messages.len() && forall|i: int|
        0 <= i < messages.len() ==> message_value(#[trigger] items@[i], messages[i])
}

/// `v` is the string `s` when there is one, else `null`.
pub open spec fn optional_text_value(v: RequestValue, s: Option<Seq<char>>) -> bool {
    match s {
        Some(t) => is_text(v, t),
        None => v == RequestValue::Null,
    }
}

/// `v` is the object of the model settings handed to the assistant.
pub open spec fn llm_value(v: RequestValue, settings: AppSettings, api_key: Seq<char>) -> bool {
    v matches RequestValue::Object(fs) && {
        &&& fs@.len() == 7
        &&& text_field(fs@[0], "provider"@, settings.llm_provider@)
        &&& text_field(
            fs@[1],
            "base_url"@,
            chat_completions_base_url_spec(settings.llm_base_url@),
        )
        &&& text_field(fs@[2], "model"@, settings.llm_model@)
        &&& text_field(fs@[3], "api_key"@, api_key)
        &&& fs@[4].key@ == "temperature"@
        &&& fs@[4].value matches RequestValue::Decimal(t) && t@ == settings.llm_temperature@
        &&& fs@[5].key@ == "max_tokens"@
        &&& fs@[5].value == RequestValue::Integer(settings.llm_max_tokens)
        &&& fs@[6].key@ == "timeout_seconds"@
        &&& fs@[6].value == RequestValue::Integer(settings.llm_timeout_seconds)
    }
}

fn root_entry(root: &NoteRoot) -> (v: RequestValue)
    ensures
        root_value(v, *root),
{
    let mut fields: Vec<RequestField> = Vec::new();
    fields.push(text_entry("workspace_folder", root.workspace_folder.as_str()));
    fields.push(text_entry("notes_dir", root.notes_dir.as_str()));
    RequestValue::Object(fields)
}

fn message_entry(message: &AssistantMessage) -> (v: RequestValue)
    ensures
        message_value(v, *message),
{
    let mut fields: Vec<RequestField> = Vec::new();
    fields.push(text_entry("role", message.role.as_str()));
    fields.push(text_entry("content", message.content.as_str()));
    RequestValue::Object(fields)
}

fn roots_list(roots: &[NoteRoot]) -> (v: RequestValue)
    ensures
        roots_value(v, roots@),
{
    let mut items: Vec<RequestValue> = Vec::new();
    let mut i: usize = 0;
    while i < roots.len()
        invariant
            i <= roots@.len(),
            items@.len() == i,
            forall|j: int| 0 <= j < i ==> root_value(#[trigger] items@[j], roots@[j]),
        decreases roots.len() - i,
    {
        items.push(root_entry(&roots[i]));
        i += 1;
    }
    RequestValue::List(items)
}

fn history_list(history: &[AssistantMessage]) -> (v: RequestValue)
    ensures
        history_value(v, history@),
{
    let mut items: Vec<RequestValue> = Vec::new();
    let mut i: usize = 0;
    while i < history.len()
        invariant
            i <= history@.len(),
            items@.len() == i,
            forall|j: int| 0 <= j < i ==> message_value(#[trigger] items@[j], history@[j]),
        decreases history.len() - i,
    {
        items.push(message_entry(&history[i]));
        i += 1;
    }
    RequestValue::List(items)
}

fn llm_entry(settings: &AppSettings, api_key: &str) -> (v: RequestValue)
    ensures
        llm_value(v, *settings, api_key@),
{
    let base_url = chat_completions_base_url(
        settings.llm_provider.as_str(),
        settings.llm_base_url.as_str(),
    );
    let mut fields: Vec<RequestField> = Vec::new();
    fields.push(text_entry("provider", settings.llm_provider.as_str()));
    fields.push(text_entry("base_url", base_url.as_str()));
    fields.push(text_entry("model", settings.llm_model.as_str()));
    fields.push(text_entry("api_key", api_key));
    fields.push(
        RequestField {
            key: owned("temperature"),
            value: RequestValue::Decimal(owned(settings.llm_temperature.as_str())),
        },
    );
    fields.push(
        RequestField {
            key: owned("max_tokens"),
            value: RequestValue::Integer(settings.llm_max_tokens),
        },
    );
    fields.push(
        RequestField {
            key: owned("timeout_seconds"),
            value: RequestValue::Integer(settings.llm_timeout_seconds),
        },
    );
    RequestValue::Object(fields)
}

/// A question for the notes assistant, with its session, scope, the note folders it
/// may read, the recent history and the model settings. The request id is a fresh
/// random UUID.
#[allow(clippy::too_many_arguments)]
pub fn build_sidecar_request(
    session: &AssistantSession,
    question: &str,
    scope: &str,
    workspace_folder: Option<&str>,
    workspace_roots: &[NoteRoot],
    history: &[AssistantMessage],
    session_db_path: &str,
    session_reset_to_history: bool,
    settings: &AppSettings,
    api_key: &str,
    prompt: &str,
    web_enabled: bool,
    max_turns: &str,
) -> (r: SidecarRequest)
    ensures
        r.id@.len() == 36,
        r.request_type@ == "ask_local_notes"@,
        r.payload@.len() == 12,
        text_field(r.payload@[0], "session_id"@, session.id@),
        text_field(r.payload@[1], "session_db_path"@, session_db_path@),
        flag_field(r.payload@[2], "session_reset_to_history"@, session_reset_to_history),
        text_field(r.payload@[3], "question"@, question@),
        text_field(r.payload@[4], "scope"@, scope@),
        r.payload@[5].key@ == "workspace_folder"@,
        optional_text_value(r.payload@[5].value, opt_view(workspace_folder)),
        r.payload@[6].key@ == "workspace_roots"@,
        roots_value(r.payload@[6].value, workspace_roots@),
        r.payload@[7].key@ == "history"@,
        history_value(r.payload@[7].value, history@),
        r.payload@[8].key@ == "llm"@,
        llm_value(r.payload@[8].value, *settings, api_key@),
        text_field(r.payload@[9], "prompt"@, prompt@),
        flag_field(r.payload@[10], "web_enabled"@, web_enabled),
        text_field(r.payload@[11], "max_turns"@, max_turns@),
{
    let mut payload: Vec<RequestField> = Vec::new();
    payload.push(text_entry("session_id", session.id.as_str()));
    payload.push(text_entry("session_db_path", session_db_path));
    payload.push(flag_entry("session_reset_to_history", session_reset_to_history));
    payload.push(text_entry("question", question));
    payload.push(text_entry("scope", scope));
    let folder_value = match workspace_folder {
        Some(f) => RequestValue::Text(owned(f)),
        None => RequestValue::Null,
    };
    payload.push(RequestField { key: owned("workspace_folder"), value: folder_value });
    payload.push(RequestField { key: owned("workspace_roots"), value: roots_list(workspace_roots) });
    payload.push(RequestField { key: owned("history"), value: history_list(history) });
    payload.push(RequestField { key: owned("llm"), value: llm_entry(settings, api_key) });
    payload.push(text_entry("prompt", prompt));
    payload.push(flag_entry("web_enabled", web_enabled));
    payload.push(text_entry("max_turns", max_turns));
    SidecarRequest { id: new_uuid(), request_type: owned("ask_local_notes"), payload }
}

} // verus!
