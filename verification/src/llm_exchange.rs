//! One exchange with the language model: the chat completion request it is sent, how
//! long the caller waits for it, and the text taken from its reply.
use vstd::prelude::*;

use crate::json_text::{
    json_compact, json_compact_text, json_error_of, json_pointer_string, json_str_at,
    json_syntax_error,
};
use crate::settings::AppSettings;
use crate::sidecar_requests::{text_field, RequestField, RequestValue};
use crate::text::{append_chars, chars_of, opt_views, owned, string_from_chars, trim, trim_chars};

verus! {

broadcast use vstd::string::group_string_axioms;

/// The instructions the model is given with every prompt.
pub const SYSTEM_PROMPT: &'static str = "你是一个严谨的会议整理助手。只依据用户提供的转写文本输出，无法确定的信息明确写未知。";

/// Where, in the JSON reply, the text of a chat completion is.
pub const MESSAGE_CONTENT_POINTER: &'static str = "/choices/0/message/content";

/// Where, in the JSON reply, the text of a plain completion is.
pub const TEXT_POINTER: &'static str = "/choices/0/text";

/// `v` is the message `{"role": role, "content": content}`.
pub open spec fn role_message(v: RequestValue, role: Seq<char>, content: Seq<char>) -> bool {
    v matches RequestValue::Object(fs) && fs@.len() == 2 && text_field(fs@[0], "role"@, role)
        && text_field(fs@[1], "content"@, content)
}

/// `v` is the body of a chat completion request for `prompt`: the configured model, the
/// system instructions and the prompt as the two messages, and the configured
/// temperature and token limit.
pub open spec fn chat_body(v: RequestValue, settings: AppSettings, prompt: Seq<char>) -> bool {
    v matches RequestValue::Object(fs) && {
        &&& fs@.len() == 4
        &&& text_field(fs@[0], "model"@, settings.llm_model@)
        &&& fs@[1].key@ == "messages"@
        &&& fs@[1].value matches RequestValue::List(ms) && {
            &&& ms@.len() == 2
            &&& role_message(ms@[0], "system"@, SYSTEM_PROMPT@)
            &&& role_message(ms@[1], "user"@, prompt)
        }
        &&& fs@[2].key@ == "temperature"@
        &&& fs@[2].value matches RequestValue::Decimal(t) && t@ == settings.llm_temperature@
        &&& fs@[3].key@ == "max_tokens"@
        &&& fs@[3].value == RequestValue::Integer(settings.llm_max_tokens)
    }
}

fn message(role: &str, content: &str) -> (v: RequestValue)
    ensures
        role_message(v, role@, content@),
{
    let mut fields: Vec<RequestField> = Vec::new();
    fields.push(RequestField { key: owned("role"), value: RequestValue::Text(owned(role)) });
    fields.push(RequestField { key: owned("content"), value: RequestValue::Text(owned(content)) });
    RequestValue::Object(fields)
}

/// The body of the chat completion request for `prompt`.
pub fn chat_completion_body(settings: &AppSettings, prompt: &str) -> (v: RequestValue)
    ensures
        chat_body(v, *settings, prompt@),
{
    let mut messages: Vec<RequestValue> = Vec::new();
    messages.push(message("system", SYSTEM_PROMPT));
    messages.push(message("user", prompt));
    let mut fields: Vec<RequestField> = Vec::new();
    fields.push(
        RequestField {
            key: owned("model"),
            value: RequestValue::Text(owned(settings.llm_model.as_str())),
        },
    );
    fields.push(RequestField { key: owned("messages"), value: RequestValue::List(messages) });
    fields.push(
        RequestField {
            key: owned("temperature"),
            value: RequestValue::Decimal(owned(settings.llm_temperature.as_str())),
        },
    );
    fields.push(
        RequestField {
            key: owned("max_tokens"),
            value: RequestValue::Integer(settings.llm_max_tokens),
        },
    );
    RequestValue::Object(fields)
}

/// How many seconds the caller waits for the model: the configured timeout, at least one.
pub fn request_timeout_secs(settings: &AppSettings) -> (secs: u64)
    ensures
        secs == if settings.llm_timeout_seconds < 1 {
            1
        } else {
            settings.llm_timeout_seconds as int
        },
{
    if settings.llm_timeout_seconds < 1 {
        1
    } else {
        settings.llm_timeout_seconds as u64
    }
}

/// The text of a reply, from the chat completion's message content, else the plain
/// completion's text: trimmed, and not empty. `raw` is the reply, quoted where it holds
/// neither.
pub open spec fn reply_content(
    message_content: Option<Seq<char>>,
    text: Option<Seq<char>>,
    raw: Seq<char>,
) -> Result<Seq<char>, Seq<char>> {
    let found = match message_content {
        Some(c) => Some(c),
        None => text,
    };
    match found {
        None => Err("LLM response did not include message content: "@ + raw),
        Some(c) => if trim(c).len() == 0 {
            Err("LLM returned empty content"@)
        } else {
            Ok(trim(c))
        },
    }
}

/// The views of a text result.
pub open spec fn result_views(r: Result<String, String>) -> Result<Seq<char>, Seq<char>> {
    match r {
        Ok(s) => Ok(s@),
        Err(e) => Err(e@),
    }
}

/// The text of a reply, from what it holds at the two places a completion's text can be.
pub fn content_from_reply(message_content: Option<String>, text: Option<String>, raw: &str) -> (r:
    Result<String, String>)
    ensures
        result_views(r) == reply_content(opt_views(message_content), opt_views(text), raw@),
{
    let found = match message_content {
        Some(c) => Some(c),
        None => text,
    };
    match found {
        None => {
            let mut m = chars_of("LLM response did not include message content: ");
            append_chars(&mut m, &chars_of(raw));
            Err(string_from_chars(&m))
        },
        Some(c) => {
            let t = trim_chars(&chars_of(c.as_str()));
            if t.len() == 0 {
                Err(owned("LLM returned empty content"))
            } else {
                Ok(string_from_chars(&t))
            }
        },
    }
}

/// The outcome of an exchange whose reply body is `raw`: a body that is not JSON is an
/// error naming why; an HTTP status that is not a success is an error naming it and the
/// reply (as JSON writes it back); otherwise the text of the reply.
pub fn chat_completion_content(success: bool, status: &str, raw: &str) -> (r: Result<
    String,
    String,
>)
    ensures
        json_compact(raw@) is None ==> (r matches Err(e) && e@ == "Failed to parse LLM response: "@
            + json_syntax_error(raw@)->Some_0),
        json_compact(raw@) matches Some(reply) ==> {
            &&& !success ==> (r matches Err(e) && e@ == "LLM returned HTTP "@ + status@ + ": "@
                + reply)
            &&& success ==> result_views(r) == reply_content(
                json_pointer_string(raw@, MESSAGE_CONTENT_POINTER@),
                json_pointer_string(raw@, TEXT_POINTER@),
                reply,
            )
        },
{
    let reply = match json_compact_text(raw) {
        Some(reply) => reply,
        None => {
            let mut m = chars_of("Failed to parse LLM response: ");
            match json_error_of(raw) {
                Some(e) => append_chars(&mut m, &chars_of(e.as_str())),
                None => {
                    proof {
                        assert(false);
                    }
                },
            }
            return Err(string_from_chars(&m));
        },
    };
    if !success {
        let mut m = chars_of("LLM returned HTTP ");
        append_chars(&mut m, &chars_of(status));
        append_chars(&mut m, &chars_of(": "));
        append_chars(&mut m, &chars_of(reply.as_str()));
        return Err(string_from_chars(&m));
    }
    let message_content = json_str_at(raw, MESSAGE_CONTENT_POINTER);
    let text = match message_content {
        Some(_) => None,
        None => json_str_at(raw, TEXT_POINTER),
    };
    proof {
        if message_content is Some {
            assert(reply_content(opt_views(message_content), opt_views(text), reply@) == reply_content(
                opt_views(message_content),
                json_pointer_string(raw@, TEXT_POINTER@),
                reply@,
            ));
        }
    }
    content_from_reply(message_content, text, reply.as_str())
}

} // verus!
