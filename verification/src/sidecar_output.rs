//! What a run of the Python sidecar leaves behind. Its exit, its standard output and
//! its standard error become the reply the caller reads, or the error it reports. A
//! reply is the last line of JSON on the standard output; a streaming run also writes
//! event lines before its final reply.
use vstd::prelude::*;

use crate::json_text::{
    json_bool_at, json_error_of, json_field_exists, json_has_field, json_pointer_bool,
    json_pointer_string, json_str_at, json_syntax_error,
};
use crate::runtime::{reply_error, reply_error_message};
use crate::text::{
    append_chars, chars_of, has_prefix, join, join_chars, opt_views, owned, split_lines,
    starts_with, string_from_chars, string_views, text_lines, trim, trim_chars, trim_start,
    trim_start_chars, views,
};

verus! {

broadcast use vstd::string::group_string_axioms;

/// The last of `lines` that starts, after its leading whitespace, with `{`.
pub open spec fn last_json_line(lines: Seq<Seq<char>>) -> Option<Seq<char>>
    decreases lines.len(),
{
    if lines.len() == 0 {
        None
    } else if has_prefix(trim_start(lines.last()), "{"@) {
        Some(lines.last())
    } else {
        last_json_line(lines.drop_last())
    }
}

/// The reply line of a run's standard output, or the error that it has none.
pub open spec fn final_json_line_spec(stdout: Seq<char>) -> Result<Seq<char>, Seq<char>> {
    match last_json_line(text_lines(stdout)) {
        Some(l) => Ok(l),
        None => Err("Sidecar returned no JSON response. stdout="@ + trim(stdout)),
    }
}

/// The reply line of a run's standard output: its last line of JSON.
pub fn final_json_line(stdout: &str) -> (r: Result<String, String>)
    ensures
        match final_json_line_spec(stdout@) {
            Ok(l) => r matches Ok(x) && x@ == l,
            Err(m) => r matches Err(e) && e@ == m,
        },
{
    let lines = split_lines(&chars_of(stdout));
    let ghost ls = views(lines@);
    let open = chars_of("{");
    let mut i: usize = lines.len();
    assert(ls.take(i as int) =~= ls);
    while i > 0
        invariant
            i <= lines@.len(),
            ls == views(lines@),
            ls == text_lines(stdout@),
            open@ == "{"@,
            last_json_line(ls) == last_json_line(ls.take(i as int)),
        decreases i,
    {
        proof {
            assert(ls.take(i as int).drop_last() =~= ls.take(i - 1));
            assert(ls.take(i as int).last() == lines@[i - 1]@);
        }
        if starts_with(&trim_start_chars(&lines[i - 1]), &open) {
            proof {
                assert(has_prefix(trim_start(ls.take(i as int).last()), "{"@));
                assert(last_json_line(ls.take(i as int)) == Some(lines@[i - 1]@));
            }
            return Ok(string_from_chars(&lines[i - 1]));
        }
        i -= 1;
    }
    let mut m = chars_of("Sidecar returned no JSON response. stdout=");
    append_chars(&mut m, &trim_chars(&chars_of(stdout)));
    Err(string_from_chars(&m))
}

/// The error a reply line reports: none unless its `ok` is `false`; then its error code
/// (`SIDECAR_ERROR` where absent), a colon and its error message (`Python sidecar
/// failed` where absent).
pub open spec fn line_error(line: Seq<char>) -> Option<Seq<char>> {
    reply_error(
        json_pointer_bool(line, "/ok"@),
        json_pointer_string(line, "/error/code"@),
        json_pointer_string(line, "/error/message"@),
        "Python sidecar failed"@,
    )
}

/// The error a reply line reports.
pub fn reply_line_error(line: &str) -> (r: Option<String>)
    ensures
        opt_views(r) == line_error(line@),
{
    let ok = json_bool_at(line, "/ok");
    let code = json_str_at(line, "/error/code");
    let message = json_str_at(line, "/error/message");
    let code_ref = match &code {
        Some(c) => Some(c.as_str()),
        None => None,
    };
    let message_ref = match &message {
        Some(m) => Some(m.as_str()),
        None => None,
    };
    reply_error_message(ok, code_ref, message_ref, "Python sidecar failed")
}

/// What a failed run's output tells: both streams, one of them, or that there was none.
pub open spec fn exit_details(stdout: Seq<char>, stderr: Seq<char>) -> Seq<char> {
    let o = trim(stdout);
    let e = trim(stderr);
    if o.len() > 0 && e.len() > 0 {
        "stdout="@ + o + "; stderr="@ + e
    } else if o.len() > 0 {
        o
    } else if e.len() > 0 {
        e
    } else {
        "no output"@
    }
}

/// The error of a run that exited with a failure `status`.
pub open spec fn exit_error(status: Seq<char>, stdout: Seq<char>, stderr: Seq<char>) -> Seq<char> {
    "Sidecar exited with status "@ + status + ": "@ + exit_details(stdout, stderr)
}

fn exit_error_exec(status: &str, stdout: &str, stderr: &str) -> (r: String)
    ensures
        r@ == exit_error(status@, stdout@, stderr@),
{
    let o = trim_chars(&chars_of(stdout));
    let e = trim_chars(&chars_of(stderr));
    let mut m = chars_of("Sidecar exited with status ");
    append_chars(&mut m, &chars_of(status));
    append_chars(&mut m, &chars_of(": "));
    if o.len() > 0 && e.len() > 0 {
        append_chars(&mut m, &chars_of("stdout="));
        append_chars(&mut m, &o);
        append_chars(&mut m, &chars_of("; stderr="));
        append_chars(&mut m, &e);
    } else if o.len() > 0 {
        append_chars(&mut m, &o);
    } else if e.len() > 0 {
        append_chars(&mut m, &e);
    } else {
        append_chars(&mut m, &chars_of("no output"));
    }
    string_from_chars(&m)
}

/// The outcome of a run: a failed run reports the error its reply gives, else its exit
/// and output; a successful run needs a reply line that is JSON and reports no error.
pub open spec fn run_outcome(
    success: bool,
    status: Seq<char>,
    stdout: Seq<char>,
    stderr: Seq<char>,
) -> Result<Seq<char>, Seq<char>> {
    let line = final_json_line_spec(stdout);
    if !success {
        match line {
            Ok(l) => if json_syntax_error(l) is None && line_error(l) is Some {
                Err(line_error(l)->0)
            } else {
                Err(exit_error(status, stdout, stderr))
            },
            Err(_) => Err(exit_error(status, stdout, stderr)),
        }
    } else {
        match line {
            Err(m) => Err(m),
            Ok(l) => match json_syntax_error(l) {
                Some(e) => Err("Invalid sidecar JSON response: "@ + e + "; line="@ + l),
                None => match line_error(l) {
                    Some(e) => Err(e),
                    None => Ok(l),
                },
            },
        }
    }
}

/// The views of a text result.
pub open spec fn text_result(r: Result<String, String>) -> Result<Seq<char>, Seq<char>> {
    match r {
        Ok(s) => Ok(s@),
        Err(e) => Err(e@),
    }
}

/// The outcome of a run, from whether it exited successfully, its exit status as
/// displayed, and its two output streams: the reply line, or the error.
pub fn sidecar_outcome(success: bool, status: &str, stdout: &str, stderr: &str) -> (r: Result<
    String,
    String,
>)
    ensures
        text_result(r) == run_outcome(success, status@, stdout@, stderr@),
{
    let line = final_json_line(stdout);
    if !success {
        if let Ok(l) = &line {
            if json_error_of(l.as_str()).is_none() {
                if let Some(e) = reply_line_error(l.as_str()) {
                    return Err(e);
                }
            }
        }
        return Err(exit_error_exec(status, stdout, stderr));
    }
    let l = line?;
    if let Some(e) = json_error_of(l.as_str()) {
        let mut m = chars_of("Invalid sidecar JSON response: ");
        append_chars(&mut m, &chars_of(e.as_str()));
        append_chars(&mut m, &chars_of("; line="));
        append_chars(&mut m, &chars_of(l.as_str()));
        return Err(string_from_chars(&m));
    }
    if let Some(e) = reply_line_error(l.as_str()) {
        return Err(e);
    }
    Ok(l)
}

/// What one line of a streaming run is.
pub enum StreamLine {
    /// A blank line, passed over.
    Blank,
    /// A line of text, kept for the error report.
    Text(String),
    /// An event to hand on as it comes (a JSON object with an `event` field).
    Event(String),
    /// A reply (any other JSON line); the last one is the run's reply.
    Reply(String),
    /// A line that starts like JSON but is not: the run fails with this error.
    Invalid(String),
}

/// What one line of a streaming run is: the line trimmed, classified as blank, text, an
/// event, a reply, or invalid JSON.
pub fn stream_line(line: &str) -> (r: StreamLine)
    ensures
        ({
            let t = trim(line@);
            &&& t.len() == 0 ==> r is Blank
            &&& t.len() > 0 && !has_prefix(t, "{"@) ==> (r matches StreamLine::Text(x) && x@ == t)
            &&& t.len() > 0 && has_prefix(t, "{"@) ==> match json_syntax_error(t) {
                Some(e) => r matches StreamLine::Invalid(x) && x@ == "Invalid sidecar JSONL event: "@
                    + e + "; line="@ + t,
                None => if json_field_exists(t, "event"@) {
                    r matches StreamLine::Event(x) && x@ == t
                } else {
                    r matches StreamLine::Reply(x) && x@ == t
                },
            }
        }),
{
    let t = trim_chars(&chars_of(line));
    if t.len() == 0 {
        return StreamLine::Blank;
    }
    let text = string_from_chars(&t);
    if !starts_with(&t, &chars_of("{")) {
        return StreamLine::Text(text);
    }
    if let Some(e) = json_error_of(text.as_str()) {
        let mut m = chars_of("Invalid sidecar JSONL event: ");
        append_chars(&mut m, &chars_of(e.as_str()));
        append_chars(&mut m, &chars_of("; line="));
        append_chars(&mut m, &t);
        return StreamLine::Invalid(string_from_chars(&m));
    }
    if json_has_field(text.as_str(), "event") {
        StreamLine::Event(text)
    } else {
        StreamLine::Reply(text)
    }
}

/// The outcome of a streaming run, from its exit, the text lines it wrote (trimmed and
/// not blank), its standard error and its last reply line.
pub open spec fn stream_outcome(
    success: bool,
    status: Seq<char>,
    lines: Seq<Seq<char>>,
    stderr: Seq<char>,
    reply: Option<Seq<char>>,
) -> Result<Seq<char>, Seq<char>> {
    let stdout = join(lines, "\n"@);
    if !success {
        match reply {
            Some(l) => match line_error(l) {
                Some(e) => Err(e),
                None => Err(exit_error(status, stdout, stderr)),
            },
            None => Err(exit_error(status, stdout, stderr)),
        }
    } else {
        match reply {
            None => Err("Sidecar returned no final JSON response. stdout="@ + stdout),
            Some(l) => match line_error(l) {
                Some(e) => Err(e),
                None => Ok(l),
            },
        }
    }
}

/// The outcome of a streaming run: the reply line, or the error.
pub fn streaming_outcome(
    success: bool,
    status: &str,
    lines: &Vec<String>,
    stderr: &str,
    reply: Option<String>,
) -> (r: Result<String, String>)
    ensures
        text_result(r) == stream_outcome(success, status@, string_views(lines@), stderr@, opt_views(reply)),
{
    let mut parts: Vec<Vec<char>> = Vec::new();
    let mut i: usize = 0;
    while i < lines.len()
        invariant
            i <= lines@.len(),
            views(parts@) == string_views(lines@.subrange(0, i as int)),
        decreases lines.len() - i,
    {
        let c = chars_of(lines[i].as_str());
        proof {
            crate::text::lemma_views_push(parts@, c);
        }
        parts.push(c);
        proof {
            assert(string_views(lines@.subrange(0, i + 1)) =~= string_views(
                lines@.subrange(0, i as int),
            ).push(lines@[i as int]@));
        }
        i += 1;
    }
    proof {
        assert(lines@.subrange(0, lines@.len() as int) =~= lines@);
    }
    let stdout_chars = join_chars(&parts, &chars_of("\n"));
    let stdout = string_from_chars(&stdout_chars);
    if !success {
        if let Some(l) = &reply {
            if let Some(e) = reply_line_error(l.as_str()) {
                return Err(e);
            }
        }
        return Err(exit_error_exec(status, stdout.as_str(), stderr));
    }
    match reply {
        None => {
            let mut m = chars_of("Sidecar returned no final JSON response. stdout=");
            append_chars(&mut m, &stdout_chars);
            Err(string_from_chars(&m))
        },
        Some(l) => match reply_line_error(l.as_str()) {
            Some(e) => Err(e),
            None => Ok(l),
        },
    }
}

} // verus!
