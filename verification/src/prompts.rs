//! Prompts sent to the chat-completions model: summary templates, long-text
//! segments, merge rounds and voice-input refinement.
use vstd::prelude::*;

use crate::chunking::MERGE_BATCH_SEPARATOR;
use crate::text::{
    append_chars, chars_of, owned, contains, contains_exec, decimal, decimal_chars, ends_with,
    has_prefix, has_suffix, is_trimmed, occurs_at, find_from, replace_from, is_ws, join, join_chars, lemma_string_views_push,
    lemma_trim, lemma_trim_end_matches_prefix, lemma_trim_trimmed, replace, replace_exec,
    string_from_chars, string_views, trim, trim_chars, trim_end_matches, trim_end_matches_exec,
    views,
};

verus! {

broadcast use vstd::string::group_string_axioms;

/// Where a summary template takes the transcript.
pub open spec fn render_template_spec(template: Seq<char>, transcript: Seq<char>) -> Seq<char> {
    if contains(template, "{{ transcript }}"@) {
        replace(template, "{{ transcript }}"@, transcript)
    } else if contains(template, "{{transcript}}"@) {
        replace(template, "{{transcript}}"@, transcript)
    } else {
        template + "\n\n转写文本：\n"@ + transcript
    }
}

/// Replacing the first occurrence of a non-empty pattern puts the replacement where the
/// pattern was: the text before it, then the replacement.
proof fn lemma_replace_puts_replacement(s: Seq<char>, p: Seq<char>, r: Seq<char>) -> (i: int)
    requires
        p.len() > 0,
        contains(s, p),
    ensures
        0 <= i <= s.len(),
        has_prefix(replace(s, p, r), s.subrange(0, i) + r),
        contains(replace(s, p, r), r),
{
    crate::text::lemma_find_from(s, p, 0);
    let w = choose|j: int| occurs_at(s, p, j);
    assert(occurs_at(s, p, w));
    let i = find_from(s, p, 0)->Some_0;
    let out = replace(s, p, r);
    assert(out == s.subrange(0, i) + r + replace_from(s, p, r, i + p.len()));
    assert(out.subrange(0, i + r.len()) =~= s.subrange(0, i) + r);
    assert(out.subrange(i, i + r.len()) =~= r);
    assert(occurs_at(out, r, i));
    i
}

/// A rendered summary prompt always holds the whole transcript. A template with a
/// placeholder keeps its text up to the first placeholder, followed by the transcript;
/// a template without one is followed by a blank line, the label "转写文本：" and the
/// transcript, which ends the prompt.
pub proof fn lemma_rendered_template_holds_transcript(template: Seq<char>, transcript: Seq<char>)
    ensures
        contains(render_template_spec(template, transcript), transcript),
        contains(template, "{{ transcript }}"@) ==> exists|i: int|
            0 <= i <= template.len() && has_prefix(
                render_template_spec(template, transcript),
                #[trigger] template.subrange(0, i) + transcript,
            ),
        !contains(template, "{{ transcript }}"@) && contains(template, "{{transcript}}"@)
            ==> exists|i: int|
            0 <= i <= template.len() && has_prefix(
                render_template_spec(template, transcript),
                #[trigger] template.subrange(0, i) + transcript,
            ),
        !contains(template, "{{ transcript }}"@) && !contains(template, "{{transcript}}"@) ==> {
            &&& render_template_spec(template, transcript) == template + "\n\n转写文本：\n"@
                + transcript
            &&& has_suffix(render_template_spec(template, transcript), transcript)
        },
{
    reveal_strlit("{{ transcript }}");
    reveal_strlit("{{transcript}}");
    let out = render_template_spec(template, transcript);
    if contains(template, "{{ transcript }}"@) {
        let i = lemma_replace_puts_replacement(template, "{{ transcript }}"@, transcript);
        assert(has_prefix(out, template.subrange(0, i) + transcript));
    } else if contains(template, "{{transcript}}"@) {
        let i = lemma_replace_puts_replacement(template, "{{transcript}}"@, transcript);
        assert(has_prefix(out, template.subrange(0, i) + transcript));
    } else {
        let k = out.len() - transcript.len();
        assert(out.subrange(k, out.len() as int) =~= transcript);
        assert(occurs_at(out, transcript, k));
    }
}

/// Fills a summary template with the transcript: the `{{ transcript }}` (or
/// `{{transcript}}`) placeholder is replaced, or the transcript is appended.
pub fn render_template(template: &str, transcript: &str) -> (out: String)
    ensures
        out@ == render_template_spec(template@, transcript@),
        contains(out@, transcript@),
        !contains(template@, "{{ transcript }}"@) && !contains(template@, "{{transcript}}"@)
            ==> out@ == template@ + "\n\n转写文本：\n"@ + transcript@,
{
    proof {
        lemma_rendered_template_holds_transcript(template@, transcript@);
    }
    let t = chars_of(template);
    let tr = chars_of(transcript);
    let out = render_template_chars(&t, &tr);
    string_from_chars(&out)
}

/// `render_template` on characters.
pub fn render_template_chars(t: &[char], tr: &[char]) -> (out: Vec<char>)
    ensures
        out@ == render_template_spec(t@, tr@),
        contains(out@, tr@),
        !contains(t@, "{{ transcript }}"@) && !contains(t@, "{{transcript}}"@) ==> out@ == t@
            + "\n\n转写文本：\n"@ + tr@,
{
    proof {
        lemma_rendered_template_holds_transcript(t@, tr@);
    }
    let spaced = chars_of("{{ transcript }}");
    let tight = chars_of("{{transcript}}");
    proof {
        reveal_strlit("{{ transcript }}");
        reveal_strlit("{{transcript}}");
    }
    if contains_exec(t, &spaced) {
        replace_exec(t, &spaced, tr)
    } else if contains_exec(t, &tight) {
        replace_exec(t, &tight, tr)
    } else {
        let mut out = chars_of("");
        proof {
            reveal_strlit("");
        }
        append_chars(&mut out, t);
        append_chars(&mut out, &chars_of("\n\n转写文本：\n"));
        append_chars(&mut out, tr);
        out
    }
}

/// The refinement prompt for a voice-input transcript.
pub open spec fn render_voice_input_prompt_spec(template: Seq<char>, transcript: Seq<char>) -> Seq<
    char,
> {
    let t = trim(template);
    let body = trim(transcript);
    if t.len() == 0 {
        "请整理下面的语音输入文本，只输出最终文本：\n\n"@ + transcript
    } else if contains(t, "{{ transcript }}"@) {
        replace(t, "{{ transcript }}"@, body)
    } else if contains(t, "{{transcript}}"@) {
        replace(t, "{{transcript}}"@, body)
    } else if contains(t, "{{ text }}"@) {
        replace(t, "{{ text }}"@, body)
    } else if contains(t, "{{text}}"@) {
        replace(t, "{{text}}"@, body)
    } else {
        t + "\n\n转写文本：\n"@ + body
    }
}

/// Builds the refinement prompt: the trimmed template with its first matching
/// placeholder replaced by the trimmed transcript, or a default instruction.
pub fn render_voice_input_prompt(template: &str, transcript: &str) -> (out: String)
    ensures
        out@ == render_voice_input_prompt_spec(template@, transcript@),
{
    let t = trim_chars(&chars_of(template));
    let raw = chars_of(transcript);
    let body = trim_chars(&raw);
    let mut out: Vec<char>;
    if t.len() == 0 {
        out = chars_of("请整理下面的语音输入文本，只输出最终文本：\n\n");
        append_chars(&mut out, &raw);
        return string_from_chars(&out);
    }
    let a = chars_of("{{ transcript }}");
    let b = chars_of("{{transcript}}");
    let c = chars_of("{{ text }}");
    let d = chars_of("{{text}}");
    proof {
        reveal_strlit("{{ transcript }}");
        reveal_strlit("{{transcript}}");
        reveal_strlit("{{ text }}");
        reveal_strlit("{{text}}");
    }
    if contains_exec(&t, &a) {
        out = replace_exec(&t, &a, &body);
    } else if contains_exec(&t, &b) {
        out = replace_exec(&t, &b, &body);
    } else if contains_exec(&t, &c) {
        out = replace_exec(&t, &c, &body);
    } else if contains_exec(&t, &d) {
        out = replace_exec(&t, &d, &body);
    } else {
        out = t;
        append_chars(&mut out, &chars_of("\n\n转写文本：\n"));
        append_chars(&mut out, &body);
    }
    string_from_chars(&out)
}

/// The prompt for one segment of a long transcript (`number` counts from 1).
pub open spec fn segment_prompt_spec(
    template: Seq<char>,
    segment: Seq<char>,
    number: nat,
    count: nat,
) -> Seq<char> {
    render_template_spec(template, segment) + "\n\n这是长文本的第 "@ + decimal(number) + "/"@
        + decimal(count) + " 段。请只总结本段中和模板相关的事实，不要补充未出现的信息。"@
}

/// Builds the prompt that summarises segment `number` of `count`.
pub fn segment_prompt(template: &str, segment: &str, number: usize, count: usize) -> (out: String)
    ensures
        out@ == segment_prompt_spec(template@, segment@, number as nat, count as nat),
{
    let mut out = render_template_chars(&chars_of(template), &chars_of(segment));
    append_chars(&mut out, &chars_of("\n\n这是长文本的第 "));
    append_chars(&mut out, &decimal_chars(number as u64));
    append_chars(&mut out, &chars_of("/"));
    append_chars(&mut out, &decimal_chars(count as u64));
    append_chars(&mut out, &chars_of(" 段。请只总结本段中和模板相关的事实，不要补充未出现的信息。"));
    string_from_chars(&out)
}

/// A heading line with a number followed by `content` on the next line.
pub open spec fn numbered_entry(heading: Seq<char>, number: nat, content: Seq<char>) -> Seq<char> {
    heading + decimal(number) + "\n"@ + content
}

fn numbered_entry_exec(heading: &str, number: usize, content: &str) -> (out: String)
    ensures
        out@ == numbered_entry(heading@, number as nat, content@),
{
    let mut out = chars_of(heading);
    append_chars(&mut out, &decimal_chars(number as u64));
    append_chars(&mut out, &chars_of("\n"));
    append_chars(&mut out, &chars_of(content));
    string_from_chars(&out)
}

/// The entry a segment summary takes in the merge input (`## 分段 N`).
pub fn segment_summary_entry(number: usize, content: &str) -> (out: String)
    ensures
        out@ == numbered_entry("## 分段 "@, number as nat, content@),
{
    numbered_entry_exec("## 分段 ", number, content)
}

/// The entry an intermediate merge result takes in the next round (`## 合并摘要 N`).
pub fn merged_summary_entry(number: usize, summary: &str) -> (out: String)
    ensures
        out@ == numbered_entry("## 合并摘要 "@, number as nat, summary@),
{
    numbered_entry_exec("## 合并摘要 ", number, summary)
}

/// The prompt of one merge request.
pub open spec fn merge_prompt_spec(
    template: Seq<char>,
    summaries: Seq<Seq<char>>,
    round: nat,
    batch_index: nat,
    batch_count: nat,
) -> Seq<char> {
    let scope = if batch_count == 1 {
        "请把下面多个分段摘要合并为一份完整 Markdown 结果，去重、保留关键事实、明确待办、风险和跨文件主题，不要逐文件简单罗列。"@
    } else {
        "请先把下面这一批分段摘要合并为中间 Markdown 摘要，去重并保留后续总合并必须使用的关键事实、明确待办和风险。"@
    };
    "你是一个严谨的会议纪要整理助手。"@ + scope + "\n\n合并轮次：第 "@ + decimal(round) + " 轮，第 "@
        + decimal(batch_index) + "/"@ + decimal(batch_count) + " 批。\n\n原始模板要求：\n"@
        + template + "\n\n分段摘要：\n"@ + join(summaries, "\n\n---\n\n"@)
}

/// A merge request asks for the final, complete result exactly when its round has a
/// single batch; a request for one of several batches asks for an intermediate summary.
pub proof fn lemma_merge_prompt_scope(
    template: Seq<char>,
    summaries: Seq<Seq<char>>,
    round: nat,
    batch_index: nat,
    batch_count: nat,
)
    ensures
        batch_count == 1 ==> has_prefix(
            merge_prompt_spec(template, summaries, round, batch_index, batch_count),
            "你是一个严谨的会议纪要整理助手。请把下面多个分段摘要合并为一份完整 Markdown 结果，去重、保留关键事实、明确待办、风险和跨文件主题，不要逐文件简单罗列。"@,
        ),
        batch_count != 1 ==> has_prefix(
            merge_prompt_spec(template, summaries, round, batch_index, batch_count),
            "你是一个严谨的会议纪要整理助手。请先把下面这一批分段摘要合并为中间 Markdown 摘要，去重并保留后续总合并必须使用的关键事实、明确待办和风险。"@,
        ),
        batch_count == 1 ==> !has_prefix(
            merge_prompt_spec(template, summaries, round, batch_index, batch_count),
            "你是一个严谨的会议纪要整理助手。请先把下面这一批分段摘要合并为中间 Markdown 摘要，去重并保留后续总合并必须使用的关键事实、明确待办和风险。"@,
        ),
        batch_count != 1 ==> !has_prefix(
            merge_prompt_spec(template, summaries, round, batch_index, batch_count),
            "你是一个严谨的会议纪要整理助手。请把下面多个分段摘要合并为一份完整 Markdown 结果，去重、保留关键事实、明确待办、风险和跨文件主题，不要逐文件简单罗列。"@,
        ),
{
    let out = merge_prompt_spec(template, summaries, round, batch_index, batch_count);
    let head = "你是一个严谨的会议纪要整理助手。"@;
    let fin = "请把下面多个分段摘要合并为一份完整 Markdown 结果，去重、保留关键事实、明确待办、风险和跨文件主题，不要逐文件简单罗列。"@;
    let mid = "请先把下面这一批分段摘要合并为中间 Markdown 摘要，去重并保留后续总合并必须使用的关键事实、明确待办和风险。"@;
    let full_fin = "你是一个严谨的会议纪要整理助手。请把下面多个分段摘要合并为一份完整 Markdown 结果，去重、保留关键事实、明确待办、风险和跨文件主题，不要逐文件简单罗列。"@;
    let full_int = "你是一个严谨的会议纪要整理助手。请先把下面这一批分段摘要合并为中间 Markdown 摘要，去重并保留后续总合并必须使用的关键事实、明确待办和风险。"@;
    reveal_strlit("你是一个严谨的会议纪要整理助手。");
    reveal_strlit("请把下面多个分段摘要合并为一份完整 Markdown 结果，去重、保留关键事实、明确待办、风险和跨文件主题，不要逐文件简单罗列。");
    reveal_strlit("请先把下面这一批分段摘要合并为中间 Markdown 摘要，去重并保留后续总合并必须使用的关键事实、明确待办和风险。");
    reveal_strlit("你是一个严谨的会议纪要整理助手。请把下面多个分段摘要合并为一份完整 Markdown 结果，去重、保留关键事实、明确待办、风险和跨文件主题，不要逐文件简单罗列。");
    reveal_strlit("你是一个严谨的会议纪要整理助手。请先把下面这一批分段摘要合并为中间 Markdown 摘要，去重并保留后续总合并必须使用的关键事实、明确待办和风险。");
    assert(full_fin =~= head + fin);
    assert(full_int =~= head + mid);
    let scope = if batch_count == 1 {
        fin
    } else {
        mid
    };
    assert(out.subrange(0, (head.len() + scope.len()) as int) =~= head + scope);
    let at = (head.len() + 1) as int;
    assert(full_fin[at] != full_int[at]);
}

/// Builds the request that merges one batch of summaries; the last batch of a round
/// that has only one asks for the final result.
pub fn merge_prompt(
    template: &str,
    summaries: &[String],
    round: usize,
    batch_index: usize,
    batch_count: usize,
) -> (out: String)
    ensures
        out@ == merge_prompt_spec(
            template@,
            string_views(summaries@),
            round as nat,
            batch_index as nat,
            batch_count as nat,
        ),
        batch_count == 1 ==> has_prefix(out@, "你是一个严谨的会议纪要整理助手。请把下面多个分段摘要合并为一份完整 Markdown 结果，去重、保留关键事实、明确待办、风险和跨文件主题，不要逐文件简单罗列。"@),
        batch_count != 1 ==> has_prefix(out@, "你是一个严谨的会议纪要整理助手。请先把下面这一批分段摘要合并为中间 Markdown 摘要，去重并保留后续总合并必须使用的关键事实、明确待办和风险。"@),
{
    proof {
        lemma_merge_prompt_scope(
            template@,
            string_views(summaries@),
            round as nat,
            batch_index as nat,
            batch_count as nat,
        );
    }
    let mut out = chars_of("你是一个严谨的会议纪要整理助手。");
    if batch_count == 1 {
        append_chars(
            &mut out,
            &chars_of(
                "请把下面多个分段摘要合并为一份完整 Markdown 结果，去重、保留关键事实、明确待办、风险和跨文件主题，不要逐文件简单罗列。",
            ),
        );
    } else {
        append_chars(
            &mut out,
            &chars_of(
                "请先把下面这一批分段摘要合并为中间 Markdown 摘要，去重并保留后续总合并必须使用的关键事实、明确待办和风险。",
            ),
        );
    }
    append_chars(&mut out, &chars_of("\n\n合并轮次：第 "));
    append_chars(&mut out, &decimal_chars(round as u64));
    append_chars(&mut out, &chars_of(" 轮，第 "));
    append_chars(&mut out, &decimal_chars(batch_index as u64));
    append_chars(&mut out, &chars_of("/"));
    append_chars(&mut out, &decimal_chars(batch_count as u64));
    append_chars(&mut out, &chars_of(" 批。\n\n原始模板要求：\n"));
    append_chars(&mut out, &chars_of(template));
    append_chars(&mut out, &chars_of("\n\n分段摘要：\n"));
    let parts = strings_to_chars(summaries);
    append_chars(&mut out, &join_chars(&parts, &chars_of(MERGE_BATCH_SEPARATOR)));
    string_from_chars(&out)
}

/// The characters of each string.
pub fn strings_to_chars(parts: &[String]) -> (out: Vec<Vec<char>>)
    ensures
        views(out@) == string_views(parts@),
{
    let mut out: Vec<Vec<char>> = Vec::new();
    let mut i: usize = 0;
    while i < parts.len()
        invariant
            i <= parts@.len(),
            views(out@) == string_views(parts@.subrange(0, i as int)),
        decreases parts.len() - i,
    {
        let c = chars_of(parts[i].as_str());
        proof {
            assert(views(out@.push(c)) =~= views(out@).push(c@));
            assert(string_views(parts@.subrange(0, i + 1)) =~= string_views(
                parts@.subrange(0, i as int),
            ).push(parts@[i as int]@));
        }
        out.push(c);
        i += 1;
    }
    proof {
        assert(parts@.subrange(0, parts@.len() as int) =~= parts@);
    }
    out
}

/// The chat-completions endpoint for a configured base URL.
pub open spec fn chat_completions_endpoint_spec(base_url: Seq<char>) -> Seq<char> {
    let base = trim_end_matches(trim(base_url), "/"@);
    if has_suffix(base, "/chat/completions"@) {
        base
    } else if has_suffix(base, "/v1"@) {
        base + "/chat/completions"@
    } else {
        base + "/v1/chat/completions"@
    }
}

/// Resolves the chat-completions endpoint from a base URL that may already name
/// `/v1` or the full endpoint; the provider does not change it.
pub fn chat_completions_endpoint(_provider: &str, base_url: &str) -> (out: String)
    ensures
        out@ == chat_completions_endpoint_spec(base_url@),
{
    let base = trim_end_matches_exec(&trim_chars(&chars_of(base_url)), &chars_of("/"));
    let mut out = chars_of("");
    proof {
        reveal_strlit("");
    }
    append_chars(&mut out, &base);
    if ends_with(&base, &chars_of("/chat/completions")) {
    } else if ends_with(&base, &chars_of("/v1")) {
        append_chars(&mut out, &chars_of("/chat/completions"));
    } else {
        append_chars(&mut out, &chars_of("/v1/chat/completions"));
    }
    string_from_chars(&out)
}

/// What a base URL becomes once trimmed and stripped of trailing slashes: trimmed, and
/// not ending in a slash.
proof fn lemma_stripped_base(base_url: Seq<char>)
    ensures
        ({
            let base = trim_end_matches(trim(base_url), "/"@);
            &&& base.len() > 0 ==> !is_ws(base[0])
            &&& base.len() <= trim(base_url).len()
            &&& base == trim(base_url).subrange(0, base.len() as int)
        }),
{
    lemma_trim(base_url);
    let t = trim(base_url);
    let k = lemma_trim_end_matches_prefix(t, "/"@);
    assert(trim_end_matches(t, "/"@).len() == k);
    if k > 0 {
        assert(t.subrange(0, k)[0] == t[0]);
    }
}

/// Resolving the chat-completions endpoint again changes nothing: the endpoint of an
/// endpoint is the endpoint itself, and it always ends in `/chat/completions`.
pub proof fn lemma_endpoint_is_idempotent(base_url: Seq<char>)
    ensures
        has_suffix(chat_completions_endpoint_spec(base_url), "/chat/completions"@),
        chat_completions_endpoint_spec(chat_completions_endpoint_spec(base_url))
            == chat_completions_endpoint_spec(base_url),
{
    reveal_strlit("/chat/completions");
    reveal_strlit("/v1/chat/completions");
    reveal_strlit("/v1");
    reveal_strlit("/");
    lemma_stripped_base(base_url);
    let base = trim_end_matches(trim(base_url), "/"@);
    let e = chat_completions_endpoint_spec(base_url);
    let suffix = "/chat/completions"@;
    if has_suffix(base, suffix) {
        assert(e == base);
    } else if has_suffix(base, "/v1"@) {
        assert(e == base + suffix);
        assert(e.subrange(e.len() - suffix.len(), e.len() as int) =~= suffix);
    } else {
        assert(e == base + "/v1/chat/completions"@);
        assert(e.subrange(e.len() - suffix.len(), e.len() as int) =~= suffix);
    }
    assert(has_suffix(e, suffix));
    assert(e.last() == 's') by {
        assert(e.last() == e.subrange(e.len() - suffix.len(), e.len() as int)[suffix.len() - 1]);
    }
    assert(e.len() > 0 && !is_ws(e[0])) by {
        if base.len() > 0 {
            assert(e[0] == base[0]);
        } else {
            assert(e[0] == '/');
        }
    }
    assert(is_trimmed(e));
    lemma_trim_trimmed(e);
    assert(!has_suffix(e, "/"@)) by {
        if has_suffix(e, "/"@) {
            assert(e.subrange(e.len() - 1, e.len() as int)[0] == e.last());
        }
    }
    assert(trim_end_matches(e, "/"@) == e);
}

/// A summary needs a non-blank transcript and a non-blank template.
pub fn check_summary_inputs(transcript: &str, template: &str) -> (r: Result<(), String>)
    ensures
        trim(transcript@).len() == 0 ==> (r matches Err(e) && e@ == "Transcript is empty"@),
        trim(transcript@).len() > 0 && trim(template@).len() == 0 ==> (r matches Err(e)
            && e@ == "Summary template is empty"@),
        trim(transcript@).len() > 0 && trim(template@).len() > 0 ==> r is Ok,
{
    if trim_chars(&chars_of(transcript)).len() == 0 {
        return Err(owned("Transcript is empty"));
    }
    if trim_chars(&chars_of(template)).len() == 0 {
        return Err(owned("Summary template is empty"));
    }
    Ok(())
}

/// A voice-input transcript must not be blank before it is refined.
pub fn check_voice_input_text(text: &str) -> (r: Result<(), String>)
    ensures
        trim(text@).len() == 0 ==> (r matches Err(e) && e@ == "语音输入转写结果为空"@),
        trim(text@).len() > 0 ==> r is Ok,
{
    if trim_chars(&chars_of(text)).len() == 0 {
        return Err(owned("语音输入转写结果为空"));
    }
    Ok(())
}

} // verus!
