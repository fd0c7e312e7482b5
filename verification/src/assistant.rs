//! The local-notes assistant: request validation, titles, source checks and the
//! Markdown notes written from answers and sessions.
use vstd::prelude::*;

use crate::text::{
    all_ws, append_chars, chars_eq, chars_of, decimal, decimal_chars, has_prefix, is_blank,
    is_whitespace, is_ws, join, join_chars, owned, split_whitespace, starts_with, str_is,
    string_from_chars, sub_chars, trim, trim_chars, trim_end_matches, trim_end_matches_exec,
    ends_with, has_suffix, views, words,
};
use crate::workspace::{strict_folder_spec, strict_workspace_folder};

verus! {

broadcast use vstd::string::group_string_axioms;

/// Longest accepted question, in characters.
pub const MAX_QUESTION_CHARS: usize = 4_000;

/// Messages of history sent with a question.
pub const HISTORY_LIMIT: usize = 20;

/// Longest accepted request id.
pub const MAX_REQUEST_ID_LEN: usize = 120;

/// A source the assistant cites: a note range, or a web page.
pub struct AssistantSource {
    pub id: String,
    pub note_id: String,
    pub title: String,
    pub workspace_folder: Option<String>,
    pub start_line: Option<u64>,
    pub end_line: Option<u64>,
    pub source_type: Option<String>,
    pub url: Option<String>,
}

/// A stored question or answer.
pub struct AssistantMessage {
    pub id: String,
    pub session_id: String,
    pub role: String,
    pub content: String,
    pub scope: String,
    pub workspace_folder: Option<String>,
    pub provider: Option<String>,
    pub model: Option<String>,
    pub sources: Vec<AssistantSource>,
    pub created_at: String,
}

/// A conversation with the assistant.
pub struct AssistantSession {
    pub id: String,
    pub title: String,
    pub created_at: String,
    pub updated_at: String,
}

/// The `maxTurns` field of a request, as the frontend sent it.
pub enum MaxTurnsValue {
    /// A JSON number, in its decimal rendering.
    Number(String),
    /// A JSON string.
    Text(String),
    /// Any other JSON value.
    Other,
}

fn trimmed(s: &str) -> (out: Vec<char>)
    ensures
        out@ == trim(s@),
{
    trim_chars(&chars_of(s))
}

/// Validates a question: trimmed, non-empty, at most `MAX_QUESTION_CHARS` characters.
pub fn validate_question(question: &str) -> (r: Result<String, String>)
    ensures
        trim(question@).len() == 0 ==> (r matches Err(e) && e@ == "question is required"@),
        trim(question@).len() > MAX_QUESTION_CHARS ==> (r matches Err(e) && e@
            == "question is too long; maximum is 4000 characters"@),
        0 < trim(question@).len() <= MAX_QUESTION_CHARS ==> (r matches Ok(q) && q@ == trim(
            question@,
        )),
{
    let q = trimmed(question);
    if q.len() == 0 {
        return Err(owned("question is required"));
    }
    if q.len() > MAX_QUESTION_CHARS {
        return Err(owned("question is too long; maximum is 4000 characters"));
    }
    Ok(string_from_chars(&q))
}

/// A request-id character: ASCII letter or digit, `-` or `_`.
pub open spec fn request_id_char(c: char) -> bool {
    ('a' <= c && c <= 'z') || ('A' <= c && c <= 'Z') || ('0' <= c && c <= '9') || c == '-' || c
        == '_'
}

/// A request id may only hold ASCII letters, digits, `-` and `_`, at most 120 of them.
pub open spec fn request_id_ok(s: Seq<char>) -> bool {
    s.len() <= MAX_REQUEST_ID_LEN && forall|i: int|
        0 <= i < s.len() ==> request_id_char(#[trigger] s[i])
}

/// Validates a stream request id (trimmed; required; ASCII letters, digits, `-`, `_`;
/// at most 120 bytes, which for these characters is 120 characters).
pub fn validate_request_id(request_id: Option<&str>) -> (r: Result<String, String>)
    ensures
        match request_id {
            None => r matches Err(e) && e@ == "requestId is required"@,
            Some(s) => if trim(s@).len() == 0 {
                r matches Err(e) && e@ == "requestId is required"@
            } else if !request_id_ok(trim(s@)) {
                r matches Err(e) && e@ == "requestId is invalid"@
            } else {
                r matches Ok(id) && id@ == trim(s@)
            },
        },
{
    let s = match request_id {
        None => return Err(owned("requestId is required")),
        Some(s) => s,
    };
    let id = trimmed(s);
    if id.len() == 0 {
        return Err(owned("requestId is required"));
    }
    if id.len() > MAX_REQUEST_ID_LEN {
        return Err(owned("requestId is invalid"));
    }
    let mut i: usize = 0;
    while i < id.len()
        invariant
            i <= id@.len(),
            id@ == trim(s@),
            request_id == Some(s),
            forall|k: int| 0 <= k < i ==> request_id_char(#[trigger] id@[k]),
        decreases id.len() - i,
    {
        let c = id[i];
        let ok = ('a' <= c && c <= 'z') || ('A' <= c && c <= 'Z') || ('0' <= c && c <= '9') || c
            == '-' || c == '_';
        if !ok {
            proof {
                assert(!request_id_char(id@[i as int]));
                assert(!request_id_ok(id@));
            }
            return Err(owned("requestId is invalid"));
        }
        i += 1;
    }
    Ok(string_from_chars(&id))
}

/// All characters are ASCII digits.
pub open spec fn all_digits(s: Seq<char>) -> bool {
    forall|i: int| 0 <= i < s.len() ==> '0' <= #[trigger] s[i] && s[i] <= '9'
}

/// All characters are `0`.
pub open spec fn all_zeros(s: Seq<char>) -> bool {
    forall|i: int| 0 <= i < s.len() ==> #[trigger] s[i] == '0'
}

/// `s.trim_start_matches('0')`.
pub open spec fn strip_leading_zeros(s: Seq<char>) -> Seq<char>
    decreases s.len(),
{
    if s.len() > 0 && s[0] == '0' {
        strip_leading_zeros(s.drop_first())
    } else {
        s
    }
}

/// What the text of a `maxTurns` value is accepted as: a positive decimal integer of
/// any size, without leading zeros.
pub open spec fn max_turns_text_spec(raw: Seq<char>) -> Result<Seq<char>, Seq<char>> {
    let t = trim(raw);
    if t.len() == 0 || !all_digits(t) || all_zeros(t) {
        Err("maxTurns must be a positive integer"@)
    } else {
        Ok(strip_leading_zeros(t))
    }
}

/// What a `maxTurns` value is accepted as; `16` when absent.
pub open spec fn max_turns_spec(value: Option<MaxTurnsValue>) -> Result<Seq<char>, Seq<char>> {
    match value {
        None => Ok("16"@),
        Some(MaxTurnsValue::Number(n)) => max_turns_text_spec(n@),
        Some(MaxTurnsValue::Text(t)) => max_turns_text_spec(t@),
        Some(MaxTurnsValue::Other) => Err("maxTurns must be a positive integer"@),
    }
}

/// Validates the assistant's turn limit.
pub fn validate_max_turns(max_turns: Option<MaxTurnsValue>) -> (r: Result<String, String>)
    ensures
        match max_turns_spec(max_turns) {
            Ok(v) => r matches Ok(s) && s@ == v,
            Err(m) => r matches Err(e) && e@ == m,
        },
{
    match max_turns {
        None => Ok(owned("16")),
        Some(MaxTurnsValue::Number(n)) => validate_max_turns_text(n.as_str()),
        Some(MaxTurnsValue::Text(t)) => validate_max_turns_text(t.as_str()),
        Some(MaxTurnsValue::Other) => Err(owned("maxTurns must be a positive integer")),
    }
}

fn validate_max_turns_text(raw: &str) -> (r: Result<String, String>)
    ensures
        match max_turns_text_spec(raw@) {
            Ok(v) => r matches Ok(s) && s@ == v,
            Err(m) => r matches Err(e) && e@ == m,
        },
{
    let t = trimmed(raw);
    if t.len() == 0 {
        return Err(owned("maxTurns must be a positive integer"));
    }
    let mut i: usize = 0;
    let mut zeros = true;
    while i < t.len()
        invariant
            i <= t@.len(),
            t@ == trim(raw@),
            all_digits(t@.subrange(0, i as int)),
            zeros == all_zeros(t@.subrange(0, i as int)),
        decreases t.len() - i,
    {
        let c = t[i];
        if !('0' <= c && c <= '9') {
            proof {
                assert(t@[i as int] == c);
                assert(!('0' <= t@[i as int] && t@[i as int] <= '9'));
                assert(!all_digits(t@));
            }
            return Err(owned("maxTurns must be a positive integer"));
        }
        if c != '0' {
            zeros = false;
        }
        proof {
            assert(all_digits(t@.subrange(0, i + 1))) by {
                assert forall|k: int| 0 <= k < i + 1 implies '0' <= #[trigger] t@.subrange(
                    0,
                    i + 1,
                )[k] && t@.subrange(0, i + 1)[k] <= '9' by {
                    if k < i {
                        assert(t@.subrange(0, i + 1)[k] == t@.subrange(0, i as int)[k]);
                    }
                }
            }
            if zeros {
                assert forall|k: int| 0 <= k < i + 1 implies #[trigger] t@.subrange(0, i + 1)[k]
                    == '0' by {
                    if k < i {
                        assert(t@.subrange(0, i + 1)[k] == t@.subrange(0, i as int)[k]);
                    }
                }
            } else {
                if c == '0' {
                    assert(!all_zeros(t@.subrange(0, i as int)));
                    let w = choose|k: int|
                        0 <= k < i && #[trigger] t@.subrange(0, i as int)[k] != '0';
                    assert(t@.subrange(0, i + 1)[w] == t@.subrange(0, i as int)[w]);
                } else {
                    assert(t@.subrange(0, i + 1)[i as int] == c);
                }
            }
        }
        i += 1;
    }
    proof {
        assert(t@.subrange(0, t@.len() as int) =~= t@);
    }
    if zeros {
        return Err(owned("maxTurns must be a positive integer"));
    }
    let mut start: usize = 0;
    while start < t.len() && t[start] == '0'
        invariant
            start <= t@.len(),
            strip_leading_zeros(t@) == strip_leading_zeros(t@.subrange(start as int, t@.len() as int)),
        decreases t.len() - start,
    {
        proof {
            assert(t@.subrange(start as int, t@.len() as int).drop_first() =~= t@.subrange(
                start + 1,
                t@.len() as int,
            ));
        }
        start += 1;
    }
    Ok(string_from_chars(&sub_chars(&t, start, t.len())))
}

/// Which scopes need which arguments.
pub open spec fn assistant_scope_spec(scope: Seq<char>, workspace_folder: Option<Seq<char>>) -> Result<
    (),
    Seq<char>,
> {
    let s = trim(scope);
    if s == "current"@ {
        match workspace_folder {
            Some(w) if trim(w).len() > 0 => Ok(()),
            _ => Err("workspaceFolder is required for current scope"@),
        }
    } else if s == "global"@ {
        Ok(())
    } else {
        Err("assistant scope must be current or global"@)
    }
}

/// The view of an optional string slice.
pub open spec fn opt_view(v: Option<&str>) -> Option<Seq<char>> {
    match v {
        Some(s) => Some(s@),
        None => None,
    }
}

/// The `current` scope needs a workspace folder; `global` needs nothing; no other
/// scope exists.
pub fn validate_assistant_scope(scope: &str, workspace_folder: Option<&str>) -> (r: Result<
    (),
    String,
>)
    ensures
        match assistant_scope_spec(scope@, opt_view(workspace_folder)) {
            Ok(_) => r is Ok,
            Err(m) => r matches Err(e) && e@ == m,
        },
{
    let s = trimmed(scope);
    proof {
        reveal_strlit("current");
        reveal_strlit("global");
    }
    if chars_eq(&s, &chars_of("current")) {
        let ok = match workspace_folder {
            Some(w) => trimmed(w).len() > 0,
            None => false,
        };
        if !ok {
            return Err(owned("workspaceFolder is required for current scope"));
        }
        Ok(())
    } else if chars_eq(&s, &chars_of("global")) {
        Ok(())
    } else {
        Err(owned("assistant scope must be current or global"))
    }
}

/// The trimmed workspace folder, when one is given and not blank.
pub open spec fn given_folder(workspace_folder: Option<String>) -> Option<Seq<char>> {
    match workspace_folder {
        Some(w) => if trim(w@).len() > 0 {
            Some(trim(w@))
        } else {
            None
        },
        None => None,
    }
}

/// Validates a scope with its workspace folder; the folder, when given, must be a
/// canonical workspace folder name. Returns the trimmed folder.
pub fn validate_scope_and_workspace(scope: &str, workspace_folder: Option<String>) -> (r: Result<
    Option<String>,
    String,
>)
    ensures
        assistant_scope_spec(scope@, given_folder(workspace_folder)) matches Err(m) ==> (r matches Err(
            e,
        ) && e@ == m),
        assistant_scope_spec(scope@, given_folder(workspace_folder)) is Ok ==> match given_folder(
            workspace_folder,
        ) {
            None => r matches Ok(f) && f is None,
            Some(w) => match strict_folder_spec(w) {
                Ok(_) => r matches Ok(f) && f matches Some(s) && s@ == w,
                Err(m) => r matches Err(e) && e@ == m,
            },
        },
{
    let folder: Option<String> = match workspace_folder {
        Some(w) => {
            let t = trimmed(w.as_str());
            if t.len() > 0 {
                Some(string_from_chars(&t))
            } else {
                None
            }
        },
        None => None,
    };
    proof {
        if folder is Some {
            lemma_trim_idempotent_view(folder->Some_0@);
        }
    }
    let folder_ref: Option<&str> = match &folder {
        Some(f) => Some(f.as_str()),
        None => None,
    };
    validate_assistant_scope(scope, folder_ref)?;
    match &folder {
        Some(f) => {
            strict_workspace_folder(f.as_str())?;
        },
        None => {},
    }
    Ok(folder)
}

proof fn lemma_trim_idempotent_view(s: Seq<char>)
    requires
        exists|x: Seq<char>| s == trim(x),
    ensures
        trim(s) == s,
{
    let x = choose|x: Seq<char>| s == trim(x);
    crate::text::lemma_trim(x);
    crate::text::lemma_trim_trimmed(s);
}

/// The LLM base URL and model must be configured.
pub fn validate_llm_settings(llm_base_url: &str, llm_model: &str) -> (r: Result<(), String>)
    ensures
        trim(llm_base_url@).len() == 0 ==> (r matches Err(e) && e@
            == "LLM_CONFIG_MISSING: llm_base_url is not configured"@),
        trim(llm_base_url@).len() > 0 && trim(llm_model@).len() == 0 ==> (r matches Err(e) && e@
            == "LLM_CONFIG_MISSING: llm_model is not configured"@),
        trim(llm_base_url@).len() > 0 && trim(llm_model@).len() > 0 ==> r is Ok,
{
    if trimmed(llm_base_url).len() == 0 {
        return Err(owned("LLM_CONFIG_MISSING: llm_base_url is not configured"));
    }
    if trimmed(llm_model).len() == 0 {
        return Err(owned("LLM_CONFIG_MISSING: llm_model is not configured"));
    }
    Ok(())
}

/// Whether any character of `s` is whitespace.
pub open spec fn has_ws(s: Seq<char>) -> bool {
    exists|i: int| 0 <= i < s.len() && is_ws(#[trigger] s[i])
}

fn contains_whitespace(s: &[char]) -> (b: bool)
    ensures
        b == has_ws(s@),
{
    let mut i: usize = 0;
    while i < s.len()
        invariant
            i <= s@.len(),
            forall|k: int| 0 <= k < i ==> !is_ws(#[trigger] s@[k]),
        decreases s.len() - i,
    {
        if is_whitespace(s[i]) {
            return true;
        }
        i += 1;
    }
    false
}

/// The URL accepted for opening in the system browser.
pub open spec fn external_url_spec(url: Seq<char>) -> Result<Seq<char>, Seq<char>> {
    let u = trim(url);
    if u.len() == 0 {
        Err("url is required"@)
    } else if !(has_prefix(u, "https://"@) || has_prefix(u, "http://"@)) {
        Err("only http and https URLs can be opened"@)
    } else if has_ws(u) {
        Err("url is invalid"@)
    } else {
        Ok(u)
    }
}

/// Only `http`/`https` URLs without whitespace may be opened.
pub fn validate_external_url(url: &str) -> (r: Result<String, String>)
    ensures
        match external_url_spec(url@) {
            Ok(u) => r matches Ok(s) && s@ == u,
            Err(m) => r matches Err(e) && e@ == m,
        },
{
    let u = trimmed(url);
    if u.len() == 0 {
        return Err(owned("url is required"));
    }
    if !(starts_with(&u, &chars_of("https://")) || starts_with(&u, &chars_of("http://"))) {
        return Err(owned("only http and https URLs can be opened"));
    }
    if contains_whitespace(&u) {
        return Err(owned("url is invalid"));
    }
    Ok(string_from_chars(&u))
}

/// A title: whitespace runs collapsed to single spaces, `未命名` when empty, cut to
/// `max_chars` characters followed by `...` when longer.
pub open spec fn compact_title_spec(value: Seq<char>, max_chars: nat) -> Seq<char> {
    let cleaned = trim(join(words(value), seq![' ']));
    let title = if cleaned.len() == 0 {
        "未命名"@
    } else {
        cleaned
    };
    if title.len() <= max_chars {
        title
    } else {
        title.subrange(0, max_chars as int) + "..."@
    }
}

/// Builds a short title from free text.
pub fn compact_title(value: &str, max_chars: usize) -> (out: String)
    ensures
        out@ == compact_title_spec(value@, max_chars as nat),
{
    let words = split_whitespace(&chars_of(value));
    let joined = join_chars(&words, &[' ']);
    let cleaned = trim_chars(&joined);
    proof {
        assert(seq![' '] =~= [' ']@);
    }
    let title = if cleaned.len() == 0 {
        chars_of("未命名")
    } else {
        cleaned
    };
    if title.len() <= max_chars {
        return string_from_chars(&title);
    }
    let mut out = sub_chars(&title, 0, max_chars);
    append_chars(&mut out, &chars_of("..."));
    string_from_chars(&out)
}

/// The title of a new assistant session: `AI问答 - ` and the question, compacted
/// to 28 characters.
pub fn session_title(question: &str) -> (out: String)
    ensures
        out@ == "AI问答 - "@ + compact_title_spec(question@, 28),
{
    let mut out = chars_of("AI问答 - ");
    let t = compact_title(question, 28);
    append_chars(&mut out, &chars_of(t.as_str()));
    string_from_chars(&out)
}

/// The label of a scope in notes: `全部空间` for `global`, `当前空间` otherwise.
pub open spec fn scope_label_spec(scope: Seq<char>) -> Seq<char> {
    if scope == "global"@ {
        "全部空间"@
    } else {
        "当前空间"@
    }
}

/// The label of a scope in notes.
pub fn scope_label(scope: &str) -> (out: &'static str)
    ensures
        out@ == scope_label_spec(scope@),
{
    if str_is(scope, "global") {
        "全部空间"
    } else {
        "当前空间"
    }
}

/// Prefixes an error message with a code unless it already starts with it.
pub fn structured_error(code: &str, message: String) -> (out: String)
    ensures
        has_prefix(message@, code@) ==> out@ == message@,
        !has_prefix(message@, code@) ==> out@ == code@ + ": "@ + message@,
{
    let m = chars_of(message.as_str());
    if starts_with(&m, &chars_of(code)) {
        return message;
    }
    let mut out = chars_of(code);
    append_chars(&mut out, &chars_of(": "));
    append_chars(&mut out, &m);
    string_from_chars(&out)
}

/// The base URL handed to the assistant sidecar: always ending in `/v1`.
pub open spec fn chat_completions_base_url_spec(base_url: Seq<char>) -> Seq<char> {
    let base = trim_end_matches(trim(base_url), "/"@);
    if has_suffix(base, "/chat/completions"@) {
        trim_end_matches(base.subrange(0, base.len() - "/chat/completions"@.len()), "/v1"@)
            + "/v1"@
    } else if has_suffix(base, "/v1"@) {
        base
    } else {
        base + "/v1"@
    }
}

/// Normalises a configured base URL to the `/v1` root the sidecar expects.
pub fn chat_completions_base_url(_provider: &str, base_url: &str) -> (out: String)
    ensures
        out@ == chat_completions_base_url_spec(base_url@),
{
    let base = trim_end_matches_exec(&trimmed(base_url), &chars_of("/"));
    let suffix = chars_of("/chat/completions");
    if ends_with(&base, &suffix) {
        let head = sub_chars(&base, 0, base.len() - suffix.len());
        let mut out = trim_end_matches_exec(&head, &chars_of("/v1"));
        append_chars(&mut out, &chars_of("/v1"));
        return string_from_chars(&out);
    }
    if ends_with(&base, &chars_of("/v1")) {
        return string_from_chars(&base);
    }
    let mut out = base;
    append_chars(&mut out, &chars_of("/v1"));
    string_from_chars(&out)
}

/// Normalising a base URL again changes nothing: the `/v1` root of a `/v1` root is the
/// root itself, and it always ends in `/v1`.
pub proof fn lemma_base_url_is_idempotent(base_url: Seq<char>)
    ensures
        has_suffix(chat_completions_base_url_spec(base_url), "/v1"@),
        chat_completions_base_url_spec(chat_completions_base_url_spec(base_url))
            == chat_completions_base_url_spec(base_url),
{
    reveal_strlit("/chat/completions");
    reveal_strlit("/v1");
    reveal_strlit("/");
    crate::text::lemma_trim(base_url);
    let t = trim(base_url);
    crate::text::lemma_trim_end_matches_prefix(t, "/"@);
    let base = trim_end_matches(t, "/"@);
    let u = chat_completions_base_url_spec(base_url);
    let v1 = "/v1"@;
    if has_suffix(base, "/chat/completions"@) {
        let head = base.subrange(0, base.len() - "/chat/completions"@.len());
        crate::text::lemma_trim_end_matches_prefix(head, v1);
        let h = trim_end_matches(head, v1);
        assert(u == h + v1);
        if h.len() > 0 {
            assert(h[0] == head[0]);
            assert(head[0] == base[0]);
            assert(base[0] == t[0]);
        }
    } else if has_suffix(base, v1) {
        assert(u == base);
    } else {
        assert(u == base + v1);
    }
    assert(has_suffix(u, v1)) by {
        if !has_suffix(base, "/chat/completions"@) && has_suffix(base, v1) {
        } else {
            assert(u.subrange(u.len() - 3, u.len() as int) =~= v1);
        }
    }
    assert(u.last() == '1') by {
        assert(u.last() == u.subrange(u.len() - 3, u.len() as int)[2]);
    }
    assert(u.len() > 0 && !is_ws(u[0])) by {
        if base.len() > 0 {
            assert(base[0] == t[0]);
        }
        if has_suffix(base, "/chat/completions"@) {
            let head = base.subrange(0, base.len() - "/chat/completions"@.len());
            let h = trim_end_matches(head, v1);
            if h.len() == 0 {
                assert(u[0] == '/');
            }
        } else if !has_suffix(base, v1) && base.len() == 0 {
            assert(u[0] == '/');
        }
    }
    assert(crate::text::is_trimmed(u));
    crate::text::lemma_trim_trimmed(u);
    assert(!has_suffix(u, "/"@)) by {
        if has_suffix(u, "/"@) {
            assert(u.subrange(u.len() - 1, u.len() as int)[0] == u.last());
        }
    }
    assert(trim_end_matches(u, "/"@) == u);
    assert(!has_suffix(u, "/chat/completions"@)) by {
        if has_suffix(u, "/chat/completions"@) {
            assert(u.subrange(u.len() - 17, u.len() as int)[16] == u.last());
        }
    }
}

/// A reused user message must belong to the session, be a user message, and hold the
/// same question.
pub open spec fn reused_message_spec(
    session_id: Seq<char>,
    message: AssistantMessage,
    question: Seq<char>,
) -> Result<(), Seq<char>> {
    if message.session_id@ != session_id {
        Err("reuseUserMessageId does not belong to session"@)
    } else if message.role@ != "user"@ {
        Err("reuseUserMessageId must reference a user message"@)
    } else if trim(message.content@) != trim(question) {
        Err("reuseUserMessageId content does not match question"@)
    } else {
        Ok(())
    }
}

/// Checks a message that a question is being re-asked from.
pub fn check_reused_user_message(
    session_id: &str,
    message: &AssistantMessage,
    question: &str,
) -> (r: Result<(), String>)
    ensures
        match reused_message_spec(session_id@, *message, question@) {
            Ok(_) => r is Ok,
            Err(m) => r matches Err(e) && e@ == m,
        },
{
    if !str_is(message.session_id.as_str(), session_id) {
        return Err(owned("reuseUserMessageId does not belong to session"));
    }
    if !str_is(message.role.as_str(), "user") {
        return Err(owned("reuseUserMessageId must reference a user message"));
    }
    if !chars_eq(&trimmed(message.content.as_str()), &trimmed(question)) {
        return Err(owned("reuseUserMessageId content does not match question"));
    }
    Ok(())
}

/// The kind of a source: its `source_type` (default `note`), trimmed.
pub open spec fn source_kind(s: AssistantSource) -> Seq<char> {
    trim(
        match s.source_type {
            Some(t) => t@,
            None => "note"@,
        },
    )
}

/// The URL of a web source: its `url` when not blank, else its `id`, trimmed.
pub open spec fn web_source_url(s: AssistantSource) -> Seq<char> {
    match s.url {
        Some(u) => if trim(u@).len() > 0 {
            trim(u@)
        } else {
            trim(s.id@)
        },
        None => trim(s.id@),
    }
}

/// A line range is invalid when it starts at 0 or ends before it starts.
pub open spec fn bad_line_range(s: AssistantSource) -> bool {
    match (s.start_line, s.end_line) {
        (Some(a), Some(b)) => a == 0 || b < a,
        _ => false,
    }
}

/// The check applied to each source the assistant sidecar returns.
pub open spec fn sidecar_source_check(s: AssistantSource) -> Result<(), Seq<char>> {
    let kind = source_kind(s);
    if kind == "web"@ {
        if external_url_spec(web_source_url(s)) is Err || trim(s.title@).len() == 0 {
            Err("ASSISTANT_SIDECAR_FAILED: invalid web source entry"@)
        } else {
            Ok(())
        }
    } else if kind == "note"@ || kind.len() == 0 {
        if trim(s.id@).len() == 0 || trim(s.note_id@).len() == 0 || trim(s.title@).len() == 0 {
            Err("ASSISTANT_SIDECAR_FAILED: invalid source entry"@)
        } else if bad_line_range(s) {
            Err("ASSISTANT_SIDECAR_FAILED: invalid source line range"@)
        } else {
            Ok(())
        }
    } else {
        Err("ASSISTANT_SIDECAR_FAILED: invalid source type"@)
    }
}

/// The check applied to each source of a message being stored.
pub open spec fn stored_source_check(s: AssistantSource) -> Result<(), Seq<char>> {
    let kind = source_kind(s);
    if kind == "web"@ {
        if trim(s.id@).len() == 0 || trim(s.title@).len() == 0 {
            Err("assistant web source id and title are required"@)
        } else if !(has_prefix(web_source_url(s), "https://"@) || has_prefix(
            web_source_url(s),
            "http://"@,
        )) {
            Err("assistant web source url must be http or https"@)
        } else {
            Ok(())
        }
    } else if kind == "note"@ || kind.len() == 0 {
        if trim(s.id@).len() == 0 || trim(s.note_id@).len() == 0 || trim(s.title@).len() == 0 {
            Err("assistant source id, note_id and title are required"@)
        } else if bad_line_range(s) {
            Err("assistant source line range is invalid"@)
        } else {
            Ok(())
        }
    } else {
        Err("assistant source type must be note or web"@)
    }
}

/// The first failing check over a list of sources.
pub open spec fn sources_check(sources: Seq<AssistantSource>, stored: bool) -> Result<(), Seq<char>>
    decreases sources.len(),
{
    if sources.len() == 0 {
        Ok(())
    } else {
        let c = if stored {
            stored_source_check(sources[0])
        } else {
            sidecar_source_check(sources[0])
        };
        match c {
            Err(e) => Err(e),
            Ok(_) => sources_check(sources.drop_first(), stored),
        }
    }
}

fn source_kind_exec(s: &AssistantSource) -> (k: Vec<char>)
    ensures
        k@ == source_kind(*s),
{
    match &s.source_type {
        Some(t) => trimmed(t.as_str()),
        None => trimmed("note"),
    }
}

fn web_source_url_exec(s: &AssistantSource) -> (u: Vec<char>)
    ensures
        u@ == web_source_url(*s),
{
    match &s.url {
        Some(u) => {
            let t = trimmed(u.as_str());
            if t.len() > 0 {
                t
            } else {
                trimmed(s.id.as_str())
            }
        },
        None => trimmed(s.id.as_str()),
    }
}

fn bad_line_range_exec(s: &AssistantSource) -> (b: bool)
    ensures
        b == bad_line_range(*s),
{
    match (s.start_line, s.end_line) {
        (Some(a), Some(b)) => a == 0 || b < a,
        _ => false,
    }
}

fn check_source(s: &AssistantSource, stored: bool) -> (r: Result<(), String>)
    ensures
        match (if stored {
            stored_source_check(*s)
        } else {
            sidecar_source_check(*s)
        }) {
            Ok(_) => r is Ok,
            Err(m) => r matches Err(e) && e@ == m,
        },
{
    let kind = source_kind_exec(s);
    proof {
        reveal_strlit("web");
        reveal_strlit("note");
    }
    if chars_eq(&kind, &chars_of("web")) {
        let url = web_source_url_exec(s);
        let title_blank = trimmed(s.title.as_str()).len() == 0;
        if stored {
            if trimmed(s.id.as_str()).len() == 0 || title_blank {
                return Err(owned("assistant web source id and title are required"));
            }
            if !(starts_with(&url, &chars_of("https://")) || starts_with(&url, &chars_of("http://"))) {
                return Err(owned("assistant web source url must be http or https"));
            }
            Ok(())
        } else {
            let url_string = string_from_chars(&url);
            if validate_external_url(url_string.as_str()).is_err() || title_blank {
                return Err(owned("ASSISTANT_SIDECAR_FAILED: invalid web source entry"));
            }
            Ok(())
        }
    } else if chars_eq(&kind, &chars_of("note")) || kind.len() == 0 {
        if trimmed(s.id.as_str()).len() == 0 || trimmed(s.note_id.as_str()).len() == 0 || trimmed(
            s.title.as_str(),
        ).len() == 0 {
            if stored {
                return Err(owned("assistant source id, note_id and title are required"));
            } else {
                return Err(owned("ASSISTANT_SIDECAR_FAILED: invalid source entry"));
            }
        }
        if bad_line_range_exec(s) {
            if stored {
                return Err(owned("assistant source line range is invalid"));
            } else {
                return Err(owned("ASSISTANT_SIDECAR_FAILED: invalid source line range"));
            }
        }
        Ok(())
    } else {
        if stored {
            Err(owned("assistant source type must be note or web"))
        } else {
            Err(owned("ASSISTANT_SIDECAR_FAILED: invalid source type"))
        }
    }
}

fn check_sources(sources: &[AssistantSource], stored: bool) -> (r: Result<(), String>)
    ensures
        match sources_check(sources@, stored) {
            Ok(_) => r is Ok,
            Err(m) => r matches Err(e) && e@ == m,
        },
{
    let mut i: usize = 0;
    assert(sources@.subrange(0, sources@.len() as int) =~= sources@);
    while i < sources.len()
        invariant
            i <= sources@.len(),
            sources_check(sources@, stored) == sources_check(
                sources@.subrange(i as int, sources@.len() as int),
                stored,
            ),
        decreases sources.len() - i,
    {
        proof {
            let rest = sources@.subrange(i as int, sources@.len() as int);
            assert(rest[0] == sources@[i as int]);
            assert(rest.drop_first() =~= sources@.subrange(i + 1, sources@.len() as int));
        }
        check_source(&sources[i], stored)?;
        i += 1;
    }
    Ok(())
}

/// Validates the sources the assistant sidecar returned with an answer; the first
/// invalid one decides the error.
pub fn validate_sidecar_sources(sources: &[AssistantSource]) -> (r: Result<(), String>)
    ensures
        match sources_check(sources@, false) {
            Ok(_) => r is Ok,
            Err(m) => r matches Err(e) && e@ == m,
        },
{
    check_sources(sources, false)
}

/// The checks a message passes before it is stored.
pub open spec fn assistant_message_spec(
    role: Seq<char>,
    content: Seq<char>,
    scope: Seq<char>,
    workspace_folder: Option<Seq<char>>,
    sources: Seq<AssistantSource>,
) -> Result<(), Seq<char>> {
    if !(trim(role) == "user"@ || trim(role) == "assistant"@) {
        Err("assistant message role must be user or assistant"@)
    } else if trim(content).len() == 0 {
        Err("assistant message content is required"@)
    } else {
        match assistant_scope_spec(scope, workspace_folder) {
            Err(e) => Err(e),
            Ok(_) => sources_check(sources, true),
        }
    }
}

/// Validates a message before it is stored: role, content, scope and sources.
pub fn validate_assistant_message(
    role: &str,
    content: &str,
    scope: &str,
    workspace_folder: Option<&str>,
    sources: &[AssistantSource],
) -> (r: Result<(), String>)
    ensures
        match assistant_message_spec(role@, content@, scope@, opt_view(workspace_folder), sources@) {
            Ok(_) => r is Ok,
            Err(m) => r matches Err(e) && e@ == m,
        },
{
    let r = trimmed(role);
    proof {
        reveal_strlit("user");
        reveal_strlit("assistant");
    }
    if !(chars_eq(&r, &chars_of("user")) || chars_eq(&r, &chars_of("assistant"))) {
        return Err(owned("assistant message role must be user or assistant"));
    }
    if trimmed(content).len() == 0 {
        return Err(owned("assistant message content is required"));
    }
    validate_assistant_scope(scope, workspace_folder)?;
    check_sources(sources, true)
}

/// One line of the source list of a note.
pub open spec fn source_row(s: AssistantSource) -> Seq<char> {
    if s.source_type matches Some(t) && t@ == "web"@ {
        let url = match s.url {
            Some(u) => trim(u@),
            None => trim(s.id@),
        };
        "- ["@ + trim(s.title@) + "]("@ + url + ")"@
    } else {
        let workspace = match s.workspace_folder {
            Some(w) => w@,
            None => "-"@,
        };
        let suffix = match (s.start_line, s.end_line) {
            (Some(a), Some(b)) => if a == b {
                " / L"@ + decimal(a as nat)
            } else {
                " / L"@ + decimal(a as nat) + "-L"@ + decimal(b as nat)
            },
            _ => Seq::empty(),
        };
        "- "@ + trim(s.title@) + "（"@ + workspace + " / "@ + trim(s.note_id@) + suffix + "）"@
    }
}

/// The rows of a source list.
pub open spec fn source_rows(sources: Seq<AssistantSource>) -> Seq<Seq<char>> {
    Seq::new(sources.len(), |i: int| source_row(sources[i]))
}

/// The `引用来源` section of a note.
pub open spec fn sources_markdown_spec(sources: Seq<AssistantSource>) -> Seq<char> {
    if sources.len() == 0 {
        "## 引用来源\n\n未找到可引用来源。"@
    } else {
        "## 引用来源\n\n"@ + join(source_rows(sources), "\n"@)
    }
}

fn source_row_exec(s: &AssistantSource) -> (out: Vec<char>)
    ensures
        out@ == source_row(*s),
{
    let is_web = match &s.source_type {
        Some(t) => str_is(t.as_str(), "web"),
        None => false,
    };
    if is_web {
        let url = match &s.url {
            Some(u) => trimmed(u.as_str()),
            None => trimmed(s.id.as_str()),
        };
        let mut out = chars_of("- [");
        append_chars(&mut out, &trimmed(s.title.as_str()));
        append_chars(&mut out, &chars_of("]("));
        append_chars(&mut out, &url);
        append_chars(&mut out, &chars_of(")"));
        return out;
    }
    let workspace = match &s.workspace_folder {
        Some(w) => chars_of(w.as_str()),
        None => chars_of("-"),
    };
    let mut out = chars_of("- ");
    append_chars(&mut out, &trimmed(s.title.as_str()));
    append_chars(&mut out, &chars_of("（"));
    append_chars(&mut out, &workspace);
    append_chars(&mut out, &chars_of(" / "));
    append_chars(&mut out, &trimmed(s.note_id.as_str()));
    let ghost before = out@;
    match (s.start_line, s.end_line) {
        (Some(a), Some(b)) => {
            append_chars(&mut out, &chars_of(" / L"));
            append_chars(&mut out, &decimal_chars(a));
            if a != b {
                append_chars(&mut out, &chars_of("-L"));
                append_chars(&mut out, &decimal_chars(b));
            }
        },
        _ => {
            proof {
                assert(before + Seq::<char>::empty() =~= before);
            }
        },
    }
    append_chars(&mut out, &chars_of("）"));
    out
}

fn sources_markdown_chars(sources: &[AssistantSource]) -> (out: Vec<char>)
    ensures
        out@ == sources_markdown_spec(sources@),
{
    if sources.len() == 0 {
        return chars_of("## 引用来源\n\n未找到可引用来源。");
    }
    let mut rows: Vec<Vec<char>> = Vec::new();
    let mut i: usize = 0;
    while i < sources.len()
        invariant
            i <= sources@.len(),
            views(rows@) == source_rows(sources@.subrange(0, i as int)),
        decreases sources.len() - i,
    {
        let row = source_row_exec(&sources[i]);
        proof {
            crate::text::lemma_views_push(rows@, row);
            assert forall|k: int| 0 <= k < i implies source_rows(sources@.subrange(0, i + 1))[k]
                == source_rows(sources@.subrange(0, i as int))[k] by {
                assert(sources@.subrange(0, i + 1)[k] == sources@.subrange(0, i as int)[k]);
            }
            assert(source_rows(sources@.subrange(0, i + 1)) =~= source_rows(
                sources@.subrange(0, i as int),
            ).push(row@));
        }
        rows.push(row);
        i += 1;
    }
    proof {
        assert(sources@.subrange(0, sources@.len() as int) =~= sources@);
    }
    let mut out = chars_of("## 引用来源\n\n");
    append_chars(&mut out, &join_chars(&rows, &chars_of("\n")));
    out
}

/// The `引用来源` section listing the sources of an answer.
pub fn sources_markdown(sources: &[AssistantSource]) -> (out: String)
    ensures
        out@ == sources_markdown_spec(sources@),
{
    string_from_chars(&sources_markdown_chars(sources))
}

/// The note saved from one answer.
pub open spec fn answer_note_spec(
    question: Seq<char>,
    answer: Seq<char>,
    scope: Seq<char>,
    sources: Seq<AssistantSource>,
    created_at: Seq<char>,
) -> Seq<char> {
    "# AI问答\n\n## 问题\n\n"@ + trim(question) + "\n\n## 回答\n\n"@ + trim(answer)
        + "\n\n## 元信息\n\n- 范围："@ + scope_label_spec(scope) + "\n- 时间："@ + created_at
        + "\n\n"@ + sources_markdown_spec(sources)
}

/// The Markdown note saved from one answer.
pub fn answer_note_markdown(
    question: &str,
    answer: &str,
    scope: &str,
    sources: &[AssistantSource],
    created_at: Option<&str>,
) -> (out: String)
    ensures
        out@ == answer_note_spec(
            question@,
            answer@,
            scope@,
            sources@,
            match created_at {
                Some(c) => c@,
                None => Seq::empty(),
            },
        ),
{
    let mut out = chars_of("# AI问答\n\n## 问题\n\n");
    append_chars(&mut out, &trimmed(question));
    append_chars(&mut out, &chars_of("\n\n## 回答\n\n"));
    append_chars(&mut out, &trimmed(answer));
    append_chars(&mut out, &chars_of("\n\n## 元信息\n\n- 范围："));
    append_chars(&mut out, &chars_of(scope_label(scope)));
    append_chars(&mut out, &chars_of("\n- 时间："));
    match created_at {
        Some(c) => append_chars(&mut out, &chars_of(c)),
        None => {
            append_chars(&mut out, &chars_of(""));
            proof {
                reveal_strlit("");
            }
        },
    }
    append_chars(&mut out, &chars_of("\n\n"));
    append_chars(&mut out, &sources_markdown_chars(sources));
    string_from_chars(&out)
}

/// The part of a session note for one message.
pub open spec fn session_message_piece(m: AssistantMessage) -> Seq<char> {
    if m.role@ == "user"@ {
        "## 问题\n\n"@ + trim(m.content@) + "\n\n"@
    } else {
        "## 回答\n\n"@ + trim(m.content@) + "\n\n"@ + "### 元信息\n\n"@ + "- 范围："@
            + scope_label_spec(m.scope@) + "\n- 时间："@ + m.created_at@ + "\n\n"@
            + sources_markdown_spec(m.sources@) + "\n\n"@
    }
}

/// The parts of a session note for its messages.
pub open spec fn session_message_pieces(messages: Seq<AssistantMessage>) -> Seq<Seq<char>> {
    Seq::new(messages.len(), |i: int| session_message_piece(messages[i]))
}

/// The note saved from a whole session.
pub open spec fn session_note_spec(session: AssistantSession, messages: Seq<AssistantMessage>) -> Seq<
    char,
> {
    crate::text::trim_end(
        "# "@ + session.title@ + "\n\n- 创建时间："@ + session.created_at@ + "\n- 更新时间："@
            + session.updated_at@ + "\n\n"@ + crate::text::concat_all(
            session_message_pieces(messages),
        ),
    )
}

/// The Markdown note saved from a whole session: its questions and answers in order,
/// with each answer's scope, time and sources.
pub fn session_note_markdown(session: &AssistantSession, messages: &[AssistantMessage]) -> (out:
    String)
    ensures
        out@ == session_note_spec(*session, messages@),
{
    let mut head = chars_of("# ");
    append_chars(&mut head, &chars_of(session.title.as_str()));
    append_chars(&mut head, &chars_of("\n\n- 创建时间："));
    append_chars(&mut head, &chars_of(session.created_at.as_str()));
    append_chars(&mut head, &chars_of("\n- 更新时间："));
    append_chars(&mut head, &chars_of(session.updated_at.as_str()));
    append_chars(&mut head, &chars_of("\n\n"));
    let mut body: Vec<char> = Vec::new();
    let mut i: usize = 0;
    proof {
        assert(session_message_pieces(messages@.subrange(0, 0)) =~= Seq::<Seq<char>>::empty());
    }
    while i < messages.len()
        invariant
            i <= messages@.len(),
            body@ == crate::text::concat_all(session_message_pieces(messages@.subrange(0, i as int))),
        decreases messages.len() - i,
    {
        let m = &messages[i];
        let ghost before = body@;
        if str_is(m.role.as_str(), "user") {
            append_chars(&mut body, &chars_of("## 问题\n\n"));
            append_chars(&mut body, &trimmed(m.content.as_str()));
            append_chars(&mut body, &chars_of("\n\n"));
        } else {
            append_chars(&mut body, &chars_of("## 回答\n\n"));
            append_chars(&mut body, &trimmed(m.content.as_str()));
            append_chars(&mut body, &chars_of("\n\n"));
            append_chars(&mut body, &chars_of("### 元信息\n\n"));
            append_chars(&mut body, &chars_of("- 范围："));
            append_chars(&mut body, &chars_of(scope_label(m.scope.as_str())));
            append_chars(&mut body, &chars_of("\n- 时间："));
            append_chars(&mut body, &chars_of(m.created_at.as_str()));
            append_chars(&mut body, &chars_of("\n\n"));
            append_chars(&mut body, &sources_markdown_chars(m.sources.as_slice()));
            append_chars(&mut body, &chars_of("\n\n"));
        }
        proof {
            assert(session_message_pieces(messages@.subrange(0, i + 1)) =~= session_message_pieces(
                messages@.subrange(0, i as int),
            ).push(session_message_piece(messages@[i as int])));
            crate::text::lemma_concat_all_push(
                session_message_pieces(messages@.subrange(0, i as int)),
                session_message_piece(messages@[i as int]),
            );
            assert(body@ =~= before + session_message_piece(messages@[i as int]));
        }
        i += 1;
    }
    proof {
        assert(messages@.subrange(0, messages@.len() as int) =~= messages@);
    }
    append_chars(&mut head, &body);
    string_from_chars(&crate::text::trim_end_chars(&head))
}


/// `chrono::Utc::now().to_rfc3339()`: the current time as an RFC 3339 timestamp. The
/// clock is not known here, so nothing is stated of it.
#[verifier::external_body]
pub fn now_iso() -> String {
    chrono::Utc::now().to_rfc3339()
}

/// The title of a new session: the given one, trimmed, or "AI问答会话" where it is
/// absent or blank.
pub open spec fn new_session_title(title: Option<Seq<char>>) -> Seq<char> {
    match title {
        Some(t) => if trim(t).len() == 0 {
            "AI问答会话"@
        } else {
            trim(t)
        },
        None => "AI问答会话"@,
    }
}

/// A new assistant session, to be stored: a fresh random id, the given title (trimmed,
/// or the default one) and the current time as its creation and update time.
pub fn create_assistant_session(title: Option<String>) -> (s: AssistantSession)
    ensures
        s.title@ == new_session_title(
            match title {
                Some(t) => Some(t@),
                None => None,
            },
        ),
        s.id@.len() == 36,
        s.created_at@ == s.updated_at@,
{
    let id = crate::recording::new_uuid();
    let title = match title {
        Some(t) => {
            let trimmed = trim_chars(&chars_of(t.as_str()));
            if trimmed.len() == 0 {
                owned("AI问答会话")
            } else {
                string_from_chars(&trimmed)
            }
        },
        None => owned("AI问答会话"),
    };
    let now = now_iso();
    let updated_at = now.clone();
    AssistantSession { id, title, created_at: now, updated_at }
}

/// Which session a request uses.
pub enum SessionChoice {
    /// The stored session with this id.
    Existing(String),
    /// A session created for the request, to be stored.
    Created(AssistantSession),
}

/// The session a request uses: the stored one with the given id (trimmed) where the
/// request names one, else a new session with the given title.
pub fn get_or_create_assistant_session(session_id: Option<&str>, title: Option<String>) -> (c:
    SessionChoice)
    ensures
        match session_id {
            Some(id) => trim(id@).len() > 0 ==> (c matches SessionChoice::Existing(k) && k@ == trim(
                id@,
            )),
            None => true,
        },
        (match session_id {
            Some(id) => trim(id@).len() == 0,
            None => true,
        }) ==> (c matches SessionChoice::Created(s) && s.title@ == new_session_title(
            match title {
                Some(t) => Some(t@),
                None => None,
            },
        ) && s.id@.len() == 36 && s.created_at@ == s.updated_at@),
{
    match session_id {
        Some(id) => {
            let trimmed = trim_chars(&chars_of(id));
            if trimmed.len() > 0 {
                return SessionChoice::Existing(string_from_chars(&trimmed));
            }
        },
        None => {},
    }
    SessionChoice::Created(create_assistant_session(title))
}


/// A new assistant run as requested, its fields trimmed.
pub struct RunRequest {
    pub request_id: String,
    pub session_id: String,
    pub scope: String,
    pub workspace_folder: String,
    pub question: String,
    pub max_turns: String,
}

/// What a request for a new run is refused with, checked in this order: a blank
/// request id, session id, workspace, question or turn limit, then the scope.
pub open spec fn run_request_error(
    request_id: Seq<char>,
    session_id: Seq<char>,
    scope: Seq<char>,
    workspace_folder: Seq<char>,
    question: Seq<char>,
    max_turns: Seq<char>,
) -> Option<Seq<char>> {
    if trim(request_id).len() == 0 {
        Some("requestId is required"@)
    } else if trim(session_id).len() == 0 {
        Some("sessionId is required"@)
    } else if trim(workspace_folder).len() == 0 {
        Some("workspaceFolder is required for assistant runs"@)
    } else if trim(question).len() == 0 {
        Some("assistant run question is required"@)
    } else if trim(max_turns).len() == 0 {
        Some("assistant run maxTurns is required"@)
    } else if !(trim(scope) == "current"@ || trim(scope) == "global"@) {
        Some("assistant scope must be current or global"@)
    } else {
        None
    }
}

/// Checks a request for a new run, giving back its fields trimmed. The session must
/// still exist and the workspace have no running run; that is checked against the
/// stored runs.
pub fn check_assistant_run_request(
    request_id: &str,
    session_id: &str,
    scope: &str,
    workspace_folder: &str,
    question: &str,
    max_turns: &str,
) -> (r: Result<RunRequest, String>)
    ensures
        match run_request_error(
            request_id@,
            session_id@,
            scope@,
            workspace_folder@,
            question@,
            max_turns@,
        ) {
            Some(m) => r matches Err(e) && e@ == m,
            None => r matches Ok(q) && q.request_id@ == trim(request_id@) && q.session_id@ == trim(
                session_id@,
            ) && q.scope@ == trim(scope@) && q.workspace_folder@ == trim(workspace_folder@)
                && q.question@ == trim(question@) && q.max_turns@ == trim(max_turns@),
        },
{
    let request_id = string_from_chars(&trim_chars(&chars_of(request_id)));
    let session_id = string_from_chars(&trim_chars(&chars_of(session_id)));
    let scope = string_from_chars(&trim_chars(&chars_of(scope)));
    let workspace_folder = string_from_chars(&trim_chars(&chars_of(workspace_folder)));
    let question = string_from_chars(&trim_chars(&chars_of(question)));
    let max_turns = string_from_chars(&trim_chars(&chars_of(max_turns)));
    if chars_of(request_id.as_str()).len() == 0 {
        return Err(owned("requestId is required"));
    }
    if chars_of(session_id.as_str()).len() == 0 {
        return Err(owned("sessionId is required"));
    }
    if chars_of(workspace_folder.as_str()).len() == 0 {
        return Err(owned("workspaceFolder is required for assistant runs"));
    }
    if chars_of(question.as_str()).len() == 0 {
        return Err(owned("assistant run question is required"));
    }
    if chars_of(max_turns.as_str()).len() == 0 {
        return Err(owned("assistant run maxTurns is required"));
    }
    if !(str_is(scope.as_str(), "current") || str_is(scope.as_str(), "global")) {
        return Err(owned("assistant scope must be current or global"));
    }
    Ok(RunRequest { request_id, session_id, scope, workspace_folder, question, max_turns })
}

/// The id of the prompt template a request uses: the given one, trimmed, or the
/// built-in local notes template where none is given.
pub open spec fn prompt_template_key_spec(id: Option<Seq<char>>) -> Seq<char> {
    match id {
        Some(i) => if trim(i).len() == 0 {
            "builtin-local-notes-qa"@
        } else {
            trim(i)
        },
        None => "builtin-local-notes-qa"@,
    }
}

/// The id of the prompt template a request uses.
pub fn prompt_template_key(prompt_template_id: Option<&str>) -> (r: String)
    ensures
        r@ == prompt_template_key_spec(
            match prompt_template_id {
                Some(i) => Some(i@),
                None => None,
            },
        ),
{
    match prompt_template_id {
        Some(i) => {
            let t = trim_chars(&chars_of(i));
            if t.len() == 0 {
                owned("builtin-local-notes-qa")
            } else {
                string_from_chars(&t)
            }
        },
        None => owned("builtin-local-notes-qa"),
    }
}

/// A prompt template is usable when its prompt is not blank.
pub fn check_prompt_template(prompt: &str) -> (r: Result<(), String>)
    ensures
        trim(prompt@).len() == 0 <==> (r matches Err(e) && e@
            == "assistant prompt template prompt is empty"@),
        trim(prompt@).len() > 0 <==> r is Ok,
{
    if trim_chars(&chars_of(prompt)).len() == 0 {
        Err(owned("assistant prompt template prompt is empty"))
    } else {
        Ok(())
    }
}

} // verus!
