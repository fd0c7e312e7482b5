//! Summarising a long text with a language model. A text that fits one request is
//! summarised by one call; a longer one is cut into segments, each segment is
//! summarised, and the segment summaries are merged in rounds of batches until one
//! round yields a single result. The calls themselves are made by the caller: this
//! module decides, after each answer, what to ask next or that the summary is done.
use vstd::prelude::*;

use crate::chunking::{
    all_pieces, batch_texts, batch_views, batches_bounded, batches_of, concat_batches, split_text,
    split_text_spec, texts_content, MAX_MERGE_INPUT_CHARS,
    MAX_SEGMENT_CHARS,
};
use crate::prompts::{
    check_summary_inputs, merge_prompt, merge_prompt_spec, merged_summary_entry, numbered_entry,
    render_template, render_template_spec, segment_prompt, segment_prompt_spec,
    segment_summary_entry,
};
use crate::json_text::{json_array_at, json_array_strings};
use crate::queue_jobs::{json_str_field, json_string_field};
use crate::text::{
    append_chars, chars_of, concat_all, is_ws, join, join_chars, lemma_strip_ws_add, opt_str,
    opt_views, owned, str_is, string_from_chars, string_views, strip_ws, trim, trim_chars, views,
};

verus! {

broadcast use vstd::string::group_string_axioms;

/// Where a summary stands.
pub enum SummaryPhase {
    /// The whole text is summarised by one call.
    Single,
    /// Segment `summaries.len()` of `segments` is being summarised.
    Segments { segments: Vec<String>, summaries: Vec<String> },
    /// Round `round` of merging: batch `merged.len()` of `batches` is being merged.
    Merging { round: usize, batches: Vec<Vec<String>>, merged: Vec<String> },
    /// The summary is done.
    Finished,
}

/// A summary under way: the template it follows, how many segments the text had, how
/// many answers of the model it has been handed so far, and where it stands.
pub struct SummaryRun {
    pub template: String,
    pub segment_count: usize,
    pub calls: usize,
    pub phase: SummaryPhase,
}

/// What the caller does next.
pub enum SummaryAction {
    /// Send this prompt to the model and hand its answer back.
    Call(String),
    /// The summary is done: its content, its strategy (`single_call` for a text of one
    /// segment, else `chunk_then_recursive_merge`), how many segments the text had, how
    /// many merge rounds it took and how many calls of the model it made.
    Finish {
        content: String,
        strategy: String,
        segment_count: usize,
        merge_rounds: usize,
        calls: usize,
    },
}

impl SummaryRun {
    /// The run is consistent: a single call stands for one segment; segments are being
    /// summarised one after another, each summary kept under its heading; a merge round has batches within the merge limit,
    /// and some are left to merge.
    pub open spec fn wf(self) -> bool {
        match self.phase {
            SummaryPhase::Single => self.segment_count == 1,
            SummaryPhase::Segments { segments, summaries } => segments@.len() == self.segment_count
                >= 2 && summaries@.len() < segments@.len() && forall|i: int|
                0 <= i < summaries@.len() ==> (#[trigger] summaries@[i])@.len() > 0 && !is_ws(
                    summaries@[i]@[0],
                ),
            SummaryPhase::Merging { round, batches, merged } => round >= 1 && batches@.len() > 0
                && merged@.len() < batches@.len() && batches_bounded(
                batches@,
                MAX_MERGE_INPUT_CHARS,
            ),
            SummaryPhase::Finished => true,
        }
    }
}

/// Starts summarising `transcript` with `template`: the run and the first prompt. A
/// blank text or template is refused; a text of one segment is summarised by one call on
/// the whole text, a longer one segment by segment.
pub fn start_summary(transcript: &str, template: &str) -> (r: Result<(SummaryRun, String), String>)
    ensures
        trim(transcript@).len() == 0 ==> (r matches Err(e) && e@ == "Transcript is empty"@),
        trim(transcript@).len() > 0 && trim(template@).len() == 0 ==> (r matches Err(e) && e@
            == "Summary template is empty"@),
        trim(transcript@).len() > 0 && trim(template@).len() > 0 ==> r is Ok,
        r matches Ok((run, prompt)) ==> {
            &&& run.wf()
            &&& run.template@ == template@
            &&& run.calls == 0
            &&& run.segment_count == split_text_spec(transcript@, MAX_SEGMENT_CHARS).len()
            &&& match run.phase {
                SummaryPhase::Single => prompt@ == render_template_spec(template@, transcript@),
                SummaryPhase::Segments { segments, summaries } => {
                    &&& summaries@.len() == 0
                    &&& string_views(segments@) == split_text_spec(transcript@, MAX_SEGMENT_CHARS)
                    &&& prompt@ == segment_prompt_spec(
                        template@,
                        segments@[0]@,
                        1,
                        segments@.len() as nat,
                    )
                    &&& crate::chunking::chunks_bounded(
                        string_views(segments@),
                        MAX_SEGMENT_CHARS,
                    )
                    &&& crate::chunking::same_content(string_views(segments@), transcript@)
                },
                _ => false,
            }
        },
{
    match check_summary_inputs(transcript, template) {
        Ok(()) => {},
        Err(e) => return Err(e),
    }
    let segments = split_text(transcript, MAX_SEGMENT_CHARS);
    let count = segments.len();
    if count == 1 {
        let prompt = render_template(template, transcript);
        return Ok(
            (
                SummaryRun {
                    template: owned(template),
                    segment_count: 1,
                    calls: 0,
                    phase: SummaryPhase::Single,
                },
                prompt,
            ),
        );
    }
    let prompt = segment_prompt(template, segments[0].as_str(), 1, count);
    let run = SummaryRun {
        template: owned(template),
        segment_count: count,
        calls: 0,
        phase: SummaryPhase::Segments { segments, summaries: Vec::new() },
    };
    Ok((run, prompt))
}

/// The numbered merge results of a round, as the next round merges them.
pub open spec fn numbered_merged(merged: Seq<Seq<char>>) -> Seq<Seq<char>> {
    Seq::new(merged.len(), |i: int| numbered_entry("## 合并摘要 "@, (i + 1) as nat, merged[i]))
}

proof fn lemma_content_of_entries(texts: Seq<String>)
    requires
        texts.len() > 0,
        forall|i: int| 0 <= i < texts.len() ==> (#[trigger] texts[i])@.len() > 0 && !is_ws(
            texts[i]@[0],
        ),
    ensures
        texts_content(texts).len() > 0,
    decreases texts.len(),
{
    let v = string_views(texts);
    let last = texts.last()@;
    assert(string_views(texts.drop_last()) =~= v.drop_last());
    assert(v.last() == last);
    lemma_strip_ws_add(concat_all(v.drop_last()), last);
    assert(strip_ws(last).len() > 0);
}

proof fn lemma_batches_nonempty(batches: Seq<Vec<String>>, texts: Seq<String>)
    requires
        strip_ws(concat_batches(batches)) == texts_content(texts),
        texts_content(texts).len() > 0,
    ensures
        batches.len() > 0,
{
    if batches.len() == 0 {
        assert(concat_batches(batches) =~= Seq::<char>::empty());
        assert(strip_ws(Seq::<char>::empty()) =~= Seq::<char>::empty());
    }
}

fn entry_starts_visible(heading: &str, number: usize, content: &str, entry: &String)
    requires
        heading@.len() > 0,
        heading@[0] == '#',
        entry@ == numbered_entry(heading@, number as nat, content@),
    ensures
        entry@.len() > 0,
        !is_ws(entry@[0]),
{
    assert(entry@[0] == heading@[0]);
}

/// Hands the model's answer to the run: gives back the run as it stands after it, and
/// what to do next. After a single call the summary is done. After a segment the next
/// segment is asked for, or, after the last, the first merge round starts. After a merge
/// batch the next batch is asked for; once a round is merged, a single result finishes
/// the summary and several results are merged again in a new round.
pub fn advance_summary(run: SummaryRun, answer: String) -> (r: (SummaryRun, SummaryAction))
    requires
        run.wf(),
        !(run.phase is Finished),
        run.phase matches SummaryPhase::Merging { round, .. } ==> round < usize::MAX,
        run.calls < usize::MAX,
    ensures
        r.0.wf(),
        r.0.template == run.template,
        r.0.segment_count == run.segment_count,
        r.0.calls == run.calls + 1,
        match run.phase {
            SummaryPhase::Single => {
                &&& r.0.phase is Finished
                &&& r.1 matches SummaryAction::Finish {
                    content,
                    strategy,
                    segment_count,
                    merge_rounds,
                    calls,
                } && content == answer && strategy@ == "single_call"@ && segment_count == 1
                    && merge_rounds == 0 && calls == run.calls + 1
            },
            SummaryPhase::Segments { segments, summaries } => {
                let done = string_views(summaries@).push(
                    numbered_entry("## 分段 "@, (summaries@.len() + 1) as nat, answer@),
                );
                if done.len() < segments@.len() {
                    &&& r.0.phase matches SummaryPhase::Segments { segments: s2, summaries: m2 }
                        && s2 == segments && string_views(m2@) == done
                    &&& r.1 matches SummaryAction::Call(p) && p@ == segment_prompt_spec(
                        run.template@,
                        segments@[done.len() as int]@,
                        (done.len() + 1) as nat,
                        segments@.len() as nat,
                    )
                } else {
                    &&& r.0.phase matches SummaryPhase::Merging { round, batches, merged }
                        && round == 1 && merged@.len() == 0 && strip_ws(concat_batches(batches@))
                        == strip_ws(concat_all(done)) && batch_views(batches@) == batches_of(
                        all_pieces(done, MAX_MERGE_INPUT_CHARS),
                        MAX_MERGE_INPUT_CHARS,
                    )
                    &&& r.0.phase matches SummaryPhase::Merging { batches, .. } && r.1 matches SummaryAction::Call(p)
                        && p@ == merge_prompt_spec(
                        run.template@,
                        string_views(batches@[0]@),
                        1,
                        1,
                        batches@.len() as nat,
                    )
                }
            },
            SummaryPhase::Merging { round, batches, merged } => {
                let done = string_views(merged@).push(answer@);
                if done.len() < batches@.len() {
                    &&& r.0.phase matches SummaryPhase::Merging { round: r2, batches: b2, merged: m2 }
                        && r2 == round && b2 == batches && string_views(m2@) == done
                    &&& r.1 matches SummaryAction::Call(p) && p@ == merge_prompt_spec(
                        run.template@,
                        string_views(batches@[done.len() as int]@),
                        round as nat,
                        (done.len() + 1) as nat,
                        batches@.len() as nat,
                    )
                } else if done.len() == 1 {
                    &&& r.0.phase is Finished
                    &&& r.1 matches SummaryAction::Finish {
                        content,
                        strategy,
                        segment_count,
                        merge_rounds,
                        calls,
                    } && content@ == done[0] && strategy@ == "chunk_then_recursive_merge"@
                        && segment_count == run.segment_count && merge_rounds == round && calls
                        == run.calls + 1
                } else {
                    &&& r.0.phase matches SummaryPhase::Merging { round: r2, batches: b2, merged: m2 }
                        && r2 == round + 1 && m2@.len() == 0 && strip_ws(concat_batches(b2@))
                        == strip_ws(concat_all(numbered_merged(done))) && batch_views(b2@)
                        == batches_of(
                        all_pieces(numbered_merged(done), MAX_MERGE_INPUT_CHARS),
                        MAX_MERGE_INPUT_CHARS,
                    )
                    &&& r.0.phase matches SummaryPhase::Merging { round: r2, batches: b2, .. }
                        && r.1 matches SummaryAction::Call(p) && p@ == merge_prompt_spec(
                        run.template@,
                        string_views(b2@[0]@),
                        r2 as nat,
                        1,
                        b2@.len() as nat,
                    )
                }
            },
            SummaryPhase::Finished => false,
        },
{
    let SummaryRun { template, segment_count, calls, phase } = run;
    let calls = calls + 1;
    match phase {
        SummaryPhase::Single => {
            let next = SummaryRun { template, segment_count, calls, phase: SummaryPhase::Finished };
            (
                next,
                SummaryAction::Finish {
                    content: answer,
                    strategy: owned("single_call"),
                    segment_count: 1,
                    merge_rounds: 0,
                    calls,
                },
            )
        },
        SummaryPhase::Segments { segments, mut summaries } => {
            let number = summaries.len() + 1;
            let entry = segment_summary_entry(number, answer.as_str());
            proof {
                reveal_strlit("## 分段 ");
            }
            entry_starts_visible("## 分段 ", number, answer.as_str(), &entry);
            let ghost before = summaries@;
            summaries.push(entry);
            proof {
                assert(string_views(summaries@) =~= string_views(before).push(
                    summaries@.last()@,
                ));
            }
            if summaries.len() < segments.len() {
                let n = summaries.len();
                let prompt = segment_prompt(template.as_str(), segments[n].as_str(), n + 1, segments.len());
                let next = SummaryRun {
                    template,
                    segment_count,
                    calls,
                    phase: SummaryPhase::Segments { segments, summaries },
                };
                (next, SummaryAction::Call(prompt))
            } else {
                let batches = batch_texts(summaries.as_slice(), MAX_MERGE_INPUT_CHARS);
                proof {
                    assert forall|i: int| 0 <= i < summaries@.len() implies (#[trigger] summaries@[i])@.len()
                        > 0 && !is_ws(summaries@[i]@[0]) by {
                        if i < before.len() {
                            assert(summaries@[i] == before[i]);
                        }
                    }
                    lemma_content_of_entries(summaries@);
                    lemma_batches_nonempty(batches@, summaries@);
                }
                let prompt = merge_prompt(template.as_str(), batches[0].as_slice(), 1, 1, batches.len());
                let next = SummaryRun {
                    template,
                    segment_count,
                    calls,
                    phase: SummaryPhase::Merging { round: 1, batches, merged: Vec::new() },
                };
                (next, SummaryAction::Call(prompt))
            }
        },
        SummaryPhase::Merging { round, batches, mut merged } => {
            let ghost before = merged@;
            merged.push(answer);
            proof {
                assert(string_views(merged@) =~= string_views(before).push(merged@.last()@));
            }
            if merged.len() < batches.len() {
                let n = merged.len();
                let prompt = merge_prompt(template.as_str(), batches[n].as_slice(), round, n + 1, batches.len());
                let next = SummaryRun {
                    template,
                    segment_count,
                    calls,
                    phase: SummaryPhase::Merging { round, batches, merged },
                };
                (next, SummaryAction::Call(prompt))
            } else if merged.len() == 1 {
                let content = merged.remove(0);
                let next = SummaryRun { template, segment_count, calls, phase: SummaryPhase::Finished };
                (
                    next,
                    SummaryAction::Finish {
                        content,
                        strategy: owned("chunk_then_recursive_merge"),
                        segment_count,
                        merge_rounds: round,
                        calls,
                    },
                )
            } else {
                let mut current: Vec<String> = Vec::new();
                let mut i: usize = 0;
                proof {
                    reveal_strlit("## 合并摘要 ");
                }
                while i < merged.len()
                    invariant
                        i <= merged@.len(),
                        "## 合并摘要 "@.len() > 0,
                        "## 合并摘要 "@[0] == '#',
                        current@.len() == i,
                        forall|k: int|
                            0 <= k < i ==> (#[trigger] current@[k])@ == numbered_entry(
                                "## 合并摘要 "@,
                                (k + 1) as nat,
                                merged@[k]@,
                            ) && current@[k]@.len() > 0 && !is_ws(current@[k]@[0]),
                    decreases merged.len() - i,
                {
                    let entry = merged_summary_entry(i + 1, merged[i].as_str());
                    entry_starts_visible("## 合并摘要 ", i + 1, merged[i].as_str(), &entry);
                    current.push(entry);
                    i += 1;
                }
                proof {
                    assert(string_views(current@) =~= numbered_merged(string_views(merged@)));
                    lemma_content_of_entries(current@);
                }
                let batches2 = batch_texts(current.as_slice(), MAX_MERGE_INPUT_CHARS);
                proof {
                    lemma_batches_nonempty(batches2@, current@);
                }
                let next_round = round + 1;
                let prompt = merge_prompt(template.as_str(), batches2[0].as_slice(), next_round, 1, batches2.len());
                let next = SummaryRun {
                    template,
                    segment_count,
                    calls,
                    phase: SummaryPhase::Merging {
                        round: next_round,
                        batches: batches2,
                        merged: Vec::new(),
                    },
                };
                (next, SummaryAction::Call(prompt))
            }
        },
        SummaryPhase::Finished => {
            proof {
                assert(false);
            }
            (
                SummaryRun { template, segment_count, calls, phase: SummaryPhase::Finished },
                SummaryAction::Call(answer),
            )
        },
    }
}

/// The strings among `items`, in order.
pub open spec fn strings_only(items: Seq<Option<Seq<char>>>) -> Seq<Seq<char>>
    decreases items.len(),
{
    if items.len() == 0 {
        Seq::empty()
    } else {
        strings_only(items.drop_last()) + match items.last() {
            Some(s) => seq![s],
            None => Seq::empty(),
        }
    }
}

/// What a workspace summary job works from: its template, the transcripts to summarise,
/// the workspace's title and its notes.
pub struct WorkspaceJobInput {
    pub template_id: String,
    pub transcript_ids: Vec<String>,
    pub workspace_title: String,
    pub notes: Vec<String>,
}

/// What a workspace summary job reads from its template id and its JSON metadata: an
/// error where the template id is missing, where the metadata holds no
/// `transcript_ids` array, or where that array holds no string; otherwise the template
/// id, the transcript ids, the `workspace_title` ("本地工作区" where there is none) and the
/// strings of the `notes` array (none where there is no such array).
pub open spec fn workspace_job_spec(template_id: Option<Seq<char>>, metadata: Option<Seq<char>>) -> Result<
    (Seq<char>, Seq<Seq<char>>, Seq<char>, Seq<Seq<char>>),
    Seq<char>,
> {
    match template_id {
        None => Err("Workspace summary job missing template_id"@),
        Some(t) => {
            let ids = match metadata {
                Some(m) => json_array_strings(m, "transcript_ids"@),
                None => None,
            };
            match ids {
                None => Err("Workspace summary job missing transcript_ids"@),
                Some(items) => if strings_only(items).len() == 0 {
                    Err("当前工作区没有可总结的转录"@)
                } else {
                    let title = match metadata {
                        Some(m) => match json_string_field(m, "workspace_title"@) {
                            Some(x) => x,
                            None => "本地工作区"@,
                        },
                        None => "本地工作区"@,
                    };
                    let notes = match metadata {
                        Some(m) => match json_array_strings(m, "notes"@) {
                            Some(n) => strings_only(n),
                            None => Seq::empty(),
                        },
                        None => Seq::empty(),
                    };
                    Ok((t, strings_only(items), title, notes))
                },
            }
        },
    }
}

fn strings_of(items: Vec<Option<String>>) -> (r: Vec<String>)
    ensures
        string_views(r@) == strings_only(items@.map_values(|i: Option<String>| opt_views(i))),
{
    let ghost all = items@.map_values(|i: Option<String>| opt_views(i));
    let mut r: Vec<String> = Vec::new();
    let mut k: usize = 0;
    let n = items.len();
    let mut rest = items;
    proof {
        assert(all.take(0) =~= Seq::<Option<Seq<char>>>::empty());
        assert(string_views(r@) =~= Seq::<Seq<char>>::empty());
    }
    while k < n
        invariant
            k <= n == all.len(),
            rest@.len() == n - k,
            forall|j: int| 0 <= j < rest@.len() ==> opt_views(#[trigger] rest@[j]) == all[k + j],
            string_views(r@) == strings_only(all.take(k as int)),
        decreases n - k,
    {
        let ghost prev = rest@;
        let item = rest.remove(0);
        proof {
            assert(item == prev[0]);
            assert(opt_views(item) == all[k as int]);
            assert(all.take(k + 1).drop_last() =~= all.take(k as int));
            assert(all.take(k + 1).last() == all[k as int]);
            assert forall|j: int| 0 <= j < rest@.len() implies opt_views(#[trigger] rest@[j])
                == all[k + 1 + j] by {
                assert(rest@[j] == prev[j + 1]);
            }
        }
        match item {
            Some(s) => {
                let ghost before = string_views(r@);
                r.push(s);
                proof {
                    assert(string_views(r@) =~= before + seq![r@.last()@]);
                }
            },
            None => {
                proof {
                    assert(strings_only(all.take(k + 1)) =~= strings_only(all.take(k as int)));
                }
            },
        }
        k += 1;
    }
    proof {
        assert(all.take(n as int) =~= all);
    }
    r
}

/// Reads what a workspace summary job works from (see `workspace_job_spec`).
pub fn workspace_job_input(template_id: Option<String>, metadata: Option<&str>) -> (r: Result<
    WorkspaceJobInput,
    String,
>)
    ensures
        match r {
            Ok(input) => workspace_job_spec(opt_views(template_id), opt_str(metadata)) == Ok::<
                _,
                Seq<char>,
            >(
                (
                    input.template_id@,
                    string_views(input.transcript_ids@),
                    input.workspace_title@,
                    string_views(input.notes@),
                ),
            ),
            Err(e) => workspace_job_spec(opt_views(template_id), opt_str(metadata)) == Err::<
                (Seq<char>, Seq<Seq<char>>, Seq<char>, Seq<Seq<char>>),
                Seq<char>,
            >(e@),
        },
{
    let template_id = match template_id {
        Some(t) => t,
        None => return Err(owned("Workspace summary job missing template_id")),
    };
    let ids = match metadata {
        Some(m) => json_array_at(m, "transcript_ids"),
        None => None,
    };
    let transcript_ids = match ids {
        Some(items) => strings_of(items),
        None => return Err(owned("Workspace summary job missing transcript_ids")),
    };
    if transcript_ids.len() == 0 {
        return Err(owned("当前工作区没有可总结的转录"));
    }
    let workspace_title = match metadata {
        Some(m) => match json_str_field(m, "workspace_title") {
            Some(x) => x,
            None => owned("本地工作区"),
        },
        None => owned("本地工作区"),
    };
    let notes = match metadata {
        Some(m) => match json_array_at(m, "notes") {
            Some(n) => strings_of(n),
            None => strings_of(Vec::new()),
        },
        None => strings_of(Vec::new()),
    };
    Ok(WorkspaceJobInput { template_id, transcript_ids, workspace_title, notes })
}

/// The title of a workspace summary: the workspace's title, trimmed, and " 综合总结".
pub fn workspace_summary_title(workspace_title: &str) -> (r: String)
    ensures
        r@ == trim(workspace_title@) + " 综合总结"@,
{
    let mut out = trim_chars(&chars_of(workspace_title));
    append_chars(&mut out, &chars_of(" 综合总结"));
    string_from_chars(&out)
}

/// The block of one transcript in workspace material: "## 录音：", the recording's
/// title, a blank line and the transcript, both trimmed.
pub open spec fn transcript_block_spec(recording_title: Seq<char>, text: Seq<char>) -> Seq<char> {
    "## 录音："@ + trim(recording_title) + "\n\n"@ + trim(text)
}

/// The block of one transcript in workspace material.
pub fn transcript_block(recording_title: &str, text: &str) -> (r: String)
    ensures
        r@ == transcript_block_spec(recording_title@, text@),
{
    let mut out = chars_of("## 录音：");
    append_chars(&mut out, &trim_chars(&chars_of(recording_title)));
    append_chars(&mut out, &chars_of("\n\n"));
    append_chars(&mut out, &trim_chars(&chars_of(text)));
    string_from_chars(&out)
}

/// The notes that are not blank, trimmed.
pub open spec fn nonblank_notes(notes: Seq<Seq<char>>) -> Seq<Seq<char>>
    decreases notes.len(),
{
    if notes.len() == 0 {
        Seq::empty()
    } else {
        let r = nonblank_notes(notes.drop_last());
        if trim(notes.last()).len() > 0 {
            r.push(trim(notes.last()))
        } else {
            r
        }
    }
}

/// The material of a workspace summary: a heading with the workspace's title, the
/// transcript blocks separated by rules, and the notes that are not blank (trimmed,
/// separated by rules) under their own heading where there are any.
pub open spec fn workspace_material_spec(
    workspace_title: Seq<char>,
    blocks: Seq<Seq<char>>,
    notes: Seq<Seq<char>>,
) -> Seq<char> {
    let head = "# 工作区："@ + trim(workspace_title) + "\n\n# 转录材料\n\n"@ + join(
        blocks,
        "\n\n---\n\n"@,
    );
    let kept = nonblank_notes(notes);
    if kept.len() == 0 {
        head
    } else {
        head + "\n\n# 工作区笔记\n\n"@ + join(kept, "\n\n---\n\n"@)
    }
}

/// The material of a workspace summary.
pub fn workspace_material(workspace_title: &str, blocks: &Vec<String>, notes: &Vec<String>) -> (r:
    String)
    ensures
        r@ == workspace_material_spec(workspace_title@, string_views(blocks@), string_views(notes@)),
{
    let mut out = chars_of("# 工作区：");
    append_chars(&mut out, &trim_chars(&chars_of(workspace_title)));
    append_chars(&mut out, &chars_of("\n\n# 转录材料\n\n"));
    let mut block_chars: Vec<Vec<char>> = Vec::new();
    let mut i: usize = 0;
    while i < blocks.len()
        invariant
            i <= blocks@.len(),
            views(block_chars@) == string_views(blocks@).take(i as int),
        decreases blocks.len() - i,
    {
        let b = chars_of(blocks[i].as_str());
        proof {
            crate::text::lemma_views_push(block_chars@, b);
        }
        block_chars.push(b);
        i += 1;
        assert(string_views(blocks@).take(i as int) =~= string_views(blocks@).take(i - 1).push(
            blocks@[i - 1]@,
        ));
    }
    assert(string_views(blocks@).take(blocks@.len() as int) =~= string_views(blocks@));
    let rule = chars_of("\n\n---\n\n");
    append_chars(&mut out, &join_chars(&block_chars, &rule));
    let mut kept: Vec<Vec<char>> = Vec::new();
    let ghost nv = string_views(notes@);
    let mut j: usize = 0;
    assert(nv.take(0) =~= Seq::<Seq<char>>::empty());
    while j < notes.len()
        invariant
            j <= notes@.len(),
            nv == string_views(notes@),
            views(kept@) == nonblank_notes(nv.take(j as int)),
        decreases notes.len() - j,
    {
        let t = trim_chars(&chars_of(notes[j].as_str()));
        proof {
            assert(nv.take(j + 1).drop_last() =~= nv.take(j as int));
            assert(nv.take(j + 1).last() == notes@[j as int]@);
            crate::text::lemma_views_push(kept@, t);
        }
        if t.len() > 0 {
            kept.push(t);
        }
        j += 1;
    }
    assert(nv.take(nv.len() as int) =~= nv);
    if kept.len() > 0 {
        append_chars(&mut out, &chars_of("\n\n# 工作区笔记\n\n"));
        append_chars(&mut out, &join_chars(&kept, &rule));
    }
    string_from_chars(&out)
}

/// The template of a workspace summary: the template's prompt followed by the request
/// to treat all transcripts and notes of the workspace as one whole.
pub open spec fn workspace_template_spec(prompt: Seq<char>) -> Seq<char> {
    prompt
        + "\n\n请将以下同一工作目录下的全部转录和笔记作为一个整体处理，输出一份综合 Markdown 结果。需要跨文件合并重复信息，按主题/决策/行动项/风险归纳，不要逐文件简单罗列。"@
}

/// The template of a workspace summary.
pub fn workspace_summary_template(prompt: &str) -> (r: String)
    ensures
        r@ == workspace_template_spec(prompt@),
{
    let mut out = chars_of(prompt);
    append_chars(
        &mut out,
        &chars_of(
            "\n\n请将以下同一工作目录下的全部转录和笔记作为一个整体处理，输出一份综合 Markdown 结果。需要跨文件合并重复信息，按主题/决策/行动项/风险归纳，不要逐文件简单罗列。",
        ),
    );
    string_from_chars(&out)
}

/// Which summary a queued job makes, by its scope: of a workspace's transcripts and
/// notes, of text documents, or of one transcript.
#[derive(PartialEq, Eq, Structural, Clone, Copy, Debug)]
pub enum SummaryJobKind {
    Workspace,
    Texts,
    SingleTranscript,
}

/// Which summary a queued job with this scope makes.
pub open spec fn job_kind(scope: Option<Seq<char>>) -> SummaryJobKind {
    match scope {
        Some(s) => if s == "workspace"@ {
            SummaryJobKind::Workspace
        } else if s == "workspace_text"@ || s == "single_text"@ {
            SummaryJobKind::Texts
        } else {
            SummaryJobKind::SingleTranscript
        },
        None => SummaryJobKind::SingleTranscript,
    }
}

/// Which summary a queued job with this scope makes.
pub fn summary_job_kind(scope: Option<&str>) -> (k: SummaryJobKind)
    ensures
        k == job_kind(
            match scope {
                Some(s) => Some(s@),
                None => None,
            },
        ),
{
    match scope {
        Some(s) => if str_is(s, "workspace") {
            SummaryJobKind::Workspace
        } else if str_is(s, "workspace_text") || str_is(s, "single_text") {
            SummaryJobKind::Texts
        } else {
            SummaryJobKind::SingleTranscript
        },
        None => SummaryJobKind::SingleTranscript,
    }
}

/// A text document to summarise: its title and its content.
pub struct TextDocument {
    pub title: String,
    pub content: String,
}

/// The documents worth summarising: those whose content is not blank, with title and
/// content trimmed.
pub open spec fn kept_documents(docs: Seq<(Seq<char>, Seq<char>)>) -> Seq<(Seq<char>, Seq<char>)>
    decreases docs.len(),
{
    if docs.len() == 0 {
        Seq::empty()
    } else {
        let r = kept_documents(docs.drop_last());
        let (title, content) = docs.last();
        if trim(content).len() > 0 {
            r.push((trim(title), trim(content)))
        } else {
            r
        }
    }
}

/// The views of documents.
pub open spec fn document_views(docs: Seq<TextDocument>) -> Seq<(Seq<char>, Seq<char>)> {
    docs.map_values(|d: TextDocument| (d.title@, d.content@))
}

/// The block of one document: "## 文本：", its title (`未命名文本` where blank), a
/// blank line and its content, trimmed.
pub open spec fn text_block_spec(title: Seq<char>, content: Seq<char>) -> Seq<char> {
    "## 文本："@ + (if trim(title).len() == 0 {
        "未命名文本"@
    } else {
        trim(title)
    }) + "\n\n"@ + trim(content)
}

/// The material of a text summary: a heading with the space's title and the blocks of
/// the documents worth summarising, separated by rules; an error where there is none.
pub open spec fn text_material_spec(
    workspace_title: Seq<char>,
    docs: Seq<(Seq<char>, Seq<char>)>,
) -> Result<Seq<char>, Seq<char>> {
    let kept = kept_documents(docs);
    if kept.len() == 0 {
        Err("当前本地空间没有可总结的文本文件"@)
    } else {
        Ok(
            "# 本地空间："@ + trim(workspace_title) + "\n\n# 文本材料\n\n"@ + join(
                Seq::new(kept.len(), |i: int| text_block_spec(kept[i].0, kept[i].1)),
                "\n\n---\n\n"@,
            ),
        )
    }
}

fn text_block(title: &[char], content: &[char]) -> (r: Vec<char>)
    ensures
        r@ == text_block_spec(title@, content@),
{
    let mut out = chars_of("## 文本：");
    let t = trim_chars(title);
    if t.len() == 0 {
        append_chars(&mut out, &chars_of("未命名文本"));
    } else {
        append_chars(&mut out, &t);
    }
    append_chars(&mut out, &chars_of("\n\n"));
    append_chars(&mut out, &trim_chars(content));
    out
}

/// The material of a text summary.
pub fn text_material(workspace_title: &str, documents: &Vec<TextDocument>) -> (r: Result<
    String,
    String,
>)
    ensures
        match text_material_spec(workspace_title@, document_views(documents@)) {
            Ok(m) => r matches Ok(x) && x@ == m,
            Err(e) => r matches Err(x) && x@ == e,
        },
{
    let ghost dv = document_views(documents@);
    let mut blocks: Vec<Vec<char>> = Vec::new();
    let mut i: usize = 0;
    assert(dv.take(0) =~= Seq::<(Seq<char>, Seq<char>)>::empty());
    while i < documents.len()
        invariant
            i <= documents@.len(),
            dv == document_views(documents@),
            views(blocks@) == ({
                let kept = kept_documents(dv.take(i as int));
                Seq::new(kept.len(), |k: int| text_block_spec(kept[k].0, kept[k].1))
            }),
        decreases documents.len() - i,
    {
        let title = trim_chars(&chars_of(documents[i].title.as_str()));
        let content = trim_chars(&chars_of(documents[i].content.as_str()));
        proof {
            assert(dv.take(i + 1).drop_last() =~= dv.take(i as int));
            assert(dv.take(i + 1).last() == (documents@[i as int].title@, documents@[i as int].content@));
        }
        if content.len() > 0 {
            let b = text_block(&title, &content);
            proof {
                crate::text::lemma_views_push(blocks@, b);
                let kept = kept_documents(dv.take(i + 1));
                let before = kept_documents(dv.take(i as int));
                assert(kept == before.push((title@, content@)));
                assert(Seq::new(kept.len(), |k: int| text_block_spec(kept[k].0, kept[k].1)) =~= Seq::new(
                    before.len(),
                    |k: int| text_block_spec(before[k].0, before[k].1),
                ).push(b@));
            }
            blocks.push(b);
        }
        i += 1;
    }
    assert(dv.take(dv.len() as int) =~= dv);
    if blocks.len() == 0 {
        return Err(owned("当前本地空间没有可总结的文本文件"));
    }
    let mut out = chars_of("# 本地空间：");
    append_chars(&mut out, &trim_chars(&chars_of(workspace_title)));
    append_chars(&mut out, &chars_of("\n\n# 文本材料\n\n"));
    append_chars(&mut out, &join_chars(&blocks, &chars_of("\n\n---\n\n")));
    Ok(string_from_chars(&out))
}

/// The template of a text summary: the template's prompt followed by the request to
/// treat all text files of the space as one whole.
pub open spec fn text_template_spec(prompt: Seq<char>) -> Seq<char> {
    prompt
        + "\n\n请将以下同一本地空间下的全部文本文件作为一个整体处理，输出一份综合 Markdown 结果。需要跨文件合并重复信息，按主题/决策/行动项/风险归纳，不要逐文件简单罗列。"@
}

/// The template of a text summary.
pub fn text_summary_template(prompt: &str) -> (r: String)
    ensures
        r@ == text_template_spec(prompt@),
{
    let mut out = chars_of(prompt);
    append_chars(
        &mut out,
        &chars_of(
            "\n\n请将以下同一本地空间下的全部文本文件作为一个整体处理，输出一份综合 Markdown 结果。需要跨文件合并重复信息，按主题/决策/行动项/风险归纳，不要逐文件简单罗列。",
        ),
    );
    string_from_chars(&out)
}

} // verus!
