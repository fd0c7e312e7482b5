//! Workspace files: the file names notes are stored under, how a stored note name is
//! read back, how notes are saved and listed, which recordings and audio files a
//! deletion request matches, and how notes and audio files are imported.
use vstd::prelude::*;

use crate::devices::{to_lowercase, unicode_lowercase};
use crate::recording::{
    file_name_of, file_stem_of, path_file_name, path_file_stem, recording_id_from_path,
    recording_id_spec, recording_workspace,
};
use crate::sorting::{is_arrangement, is_newest_first, newest_first_order};
use crate::text::{
    opt_views, append_chars, chars_eq, chars_of, find_exec, find_from, has_prefix, join, join_chars,
    lemma_find_from, occurs_at, owned, replace, replace_exec, starts_with, str_is,
    string_from_chars, sub_chars, trim, trim_chars, views,
};
use crate::workspace::{trim_char, trim_char_exec};

verus! {

broadcast use vstd::string::group_string_axioms;

/// `char::is_control`: the general category Cc, U+0000 to U+001F and U+007F to U+009F.
pub open spec fn is_control(c: char) -> bool {
    (c as u32) <= 0x1f || (0x7f <= (c as u32) && (c as u32) <= 0x9f)
}

/// A character that a note's file name cannot hold: a path or shell metacharacter or a
/// control character.
pub open spec fn unsafe_in_name(c: char) -> bool {
    c == '/' || c == '\\' || c == ':' || c == '*' || c == '?' || c == '"' || c == '<' || c
        == '>' || c == '|' || is_control(c)
}

/// The characters with every unsafe one replaced by `_`.
pub open spec fn replace_unsafe(s: Seq<char>) -> Seq<char> {
    s.map_values(|c: char| if unsafe_in_name(c) { '_' } else { c })
}

/// The title part of a note's file name: the title trimmed, unsafe characters replaced
/// by `_`, trimmed again and without leading or trailing dots ("未命名笔记" where nothing
/// is left), cut to 80 characters.
pub open spec fn sanitized_title(title: Seq<char>) -> Seq<char> {
    let cleaned = trim_char(trim(replace_unsafe(trim(title))), '.');
    let named = if cleaned.len() == 0 {
        "未命名笔记"@
    } else {
        cleaned
    };
    if named.len() > 80 {
        named.take(80)
    } else {
        named
    }
}

fn replace_unsafe_chars(s: &[char]) -> (out: Vec<char>)
    ensures
        out@ == replace_unsafe(s@),
{
    let mut out: Vec<char> = Vec::new();
    let mut i: usize = 0;
    while i < s.len()
        invariant
            i <= s@.len(),
            out@ == replace_unsafe(s@.take(i as int)),
        decreases s.len() - i,
    {
        let c = s[i];
        let u = c as u32;
        let bad = c == '/' || c == '\\' || c == ':' || c == '*' || c == '?' || c == '"' || c
            == '<' || c == '>' || c == '|' || u <= 0x1f || (0x7f <= u && u <= 0x9f);
        out.push(if bad { '_' } else { c });
        i += 1;
        assert(out@ =~= replace_unsafe(s@.take(i as int)));
    }
    assert(s@.take(s@.len() as int) =~= s@);
    out
}

/// The title part of a note's file name.
pub fn sanitize_note_title(title: &str) -> (r: String)
    ensures
        r@ == sanitized_title(title@),
{
    let t = trim_chars(&chars_of(title));
    let replaced = replace_unsafe_chars(&t);
    let cleaned = trim_char_exec(&trim_chars(&replaced), '.');
    let named = if cleaned.len() == 0 {
        chars_of("未命名笔记")
    } else {
        cleaned
    };
    if named.len() > 80 {
        let cut = sub_chars(&named, 0, 80);
        assert(cut@ =~= named@.take(80));
        string_from_chars(&cut)
    } else {
        string_from_chars(&named)
    }
}

/// The file name a note is stored under: its id, `__`, its sanitised title and `.md`.
pub open spec fn note_file_name_spec(id: Seq<char>, title: Seq<char>) -> Seq<char> {
    id + "__"@ + sanitized_title(title) + ".md"@
}

/// The file name a note is stored under.
pub fn note_file_name(id: &str, title: &str) -> (r: String)
    ensures
        r@ == note_file_name_spec(id@, title@),
{
    let mut out = chars_of(id);
    append_chars(&mut out, &chars_of("__"));
    let t = sanitize_note_title(title);
    append_chars(&mut out, &chars_of(t.as_str()));
    append_chars(&mut out, &chars_of(".md"));
    string_from_chars(&out)
}

/// A note's id and title read from the stem of its file name: the parts before and
/// after the first `__`, where the id is not blank.
pub open spec fn split_stem(stem: Seq<char>) -> Option<(Seq<char>, Seq<char>)> {
    match find_from(stem, "__"@, 0) {
        Some(i) => if trim(stem.take(i)).len() == 0 {
            None
        } else {
            Some((stem.take(i), stem.skip(i + 2)))
        },
        None => None,
    }
}

/// The views of a pair of strings.
pub open spec fn pair_views(p: Option<(String, String)>) -> Option<(Seq<char>, Seq<char>)> {
    match p {
        Some((a, b)) => Some((a@, b@)),
        None => None,
    }
}

/// A note's id and title read from the stem of its file name.
pub fn split_note_stem(stem: &str) -> (r: Option<(String, String)>)
    ensures
        pair_views(r) == split_stem(stem@),
{
    let s = chars_of(stem);
    let sep = chars_of("__");
    proof {
        reveal_strlit("__");
    }
    match find_exec(&s, &sep, 0) {
        Some(i) => {
            proof {
                lemma_find_from(s@, sep@, 0);
                assert(sep@.len() == 2);
                assert(occurs_at(s@, sep@, i as int));
            }
            let n = s.len();
            let id = sub_chars(&s, 0, i);
            let title = sub_chars(&s, i + 2, n);
            assert(id@ =~= s@.take(i as int));
            assert(title@ =~= s@.skip(i + 2));
            if trim_chars(&id).len() == 0 {
                None
            } else {
                Some((string_from_chars(&id), string_from_chars(&title)))
            }
        },
        None => None,
    }
}

/// A note's id and title read from its file's path.
pub fn split_note_file_stem(path: &str) -> (r: Option<(String, String)>)
    ensures
        pair_views(r) == match path_file_stem(path@) {
            Some(stem) => split_stem(stem),
            None => None,
        },
{
    match file_stem_of(path) {
        Some(stem) => split_note_stem(stem.as_str()),
        None => None,
    }
}

/// The stem of a recording id: what follows the workspace prefix `<workspace>__`, else
/// what follows the first `__`, else the whole id.
pub open spec fn id_stem(recording_id: Seq<char>, workspace_folder: Seq<char>) -> Seq<char> {
    let prefix = workspace_folder + "__"@;
    if has_prefix(recording_id, prefix) {
        recording_id.skip(prefix.len() as int)
    } else {
        match find_from(recording_id, "__"@, 0) {
            Some(i) => recording_id.skip(i + 2),
            None => recording_id,
        }
    }
}

/// The stem of a recording id.
pub fn recording_id_stem(recording_id: &str, workspace_folder: &str) -> (r: String)
    ensures
        r@ == id_stem(recording_id@, workspace_folder@),
{
    let id = chars_of(recording_id);
    let mut prefix = chars_of(workspace_folder);
    append_chars(&mut prefix, &chars_of("__"));
    let n = id.len();
    if starts_with(&id, &prefix) {
        let rest = sub_chars(&id, prefix.len(), n);
        assert(rest@ =~= id@.skip(prefix@.len() as int));
        return string_from_chars(&rest);
    }
    let sep = chars_of("__");
    proof {
        reveal_strlit("__");
    }
    match find_exec(&id, &sep, 0) {
        Some(i) => {
            proof {
                lemma_find_from(id@, sep@, 0);
                assert(sep@.len() == 2);
                assert(occurs_at(id@, sep@, i as int));
            }
            let rest = sub_chars(&id, i + 2, n);
            assert(rest@ =~= id@.skip(i + 2));
            string_from_chars(&rest)
        },
        None => owned(recording_id),
    }
}

/// The id a recording gets inside a workspace: `<workspace>__<stem>`.
pub open spec fn prefixed_id(workspace_folder: Seq<char>, stem: Seq<char>) -> Seq<char> {
    workspace_folder + "__"@ + stem
}

fn prefixed_id_exec(workspace_folder: &str, stem: &str) -> (r: String)
    ensures
        r@ == prefixed_id(workspace_folder@, stem@),
{
    let mut out = chars_of(workspace_folder);
    append_chars(&mut out, &chars_of("__"));
    append_chars(&mut out, &chars_of(stem));
    string_from_chars(&out)
}

/// Whether a listed recording is the one a deletion request names: by its id, by the
/// workspace-prefixed form of the requested id's stem, or by its file's stem matching
/// the requested id or that stem.
pub open spec fn matches_delete_request(
    recording_id: Seq<char>,
    recording_path: Seq<char>,
    requested_id: Seq<char>,
    workspace_folder: Seq<char>,
) -> bool {
    let stem = id_stem(requested_id, workspace_folder);
    recording_id == requested_id || recording_id == prefixed_id(workspace_folder, stem)
        || path_file_stem(recording_path) == Some(requested_id) || path_file_stem(recording_path)
        == Some(stem)
}

/// Whether a listed recording is the one a deletion request names.
pub fn recording_matches_delete_request(
    recording_id: &str,
    recording_path: &str,
    requested_id: &str,
    workspace_folder: &str,
) -> (b: bool)
    ensures
        b == matches_delete_request(
            recording_id@,
            recording_path@,
            requested_id@,
            workspace_folder@,
        ),
{
    if str_is(recording_id, requested_id) {
        return true;
    }
    let stem = recording_id_stem(requested_id, workspace_folder);
    let prefixed = prefixed_id_exec(workspace_folder, stem.as_str());
    if str_is(recording_id, prefixed.as_str()) {
        return true;
    }
    match file_stem_of(recording_path) {
        Some(file_stem) => str_is(file_stem.as_str(), requested_id) || str_is(
            file_stem.as_str(),
            stem.as_str(),
        ),
        None => false,
    }
}

/// The list after offering `value`: it is added at the end unless it is blank or
/// already listed.
pub open spec fn with_unique(values: Seq<Seq<char>>, value: Seq<char>) -> Seq<Seq<char>> {
    if trim(value).len() > 0 && !values.contains(value) {
        values.push(value)
    } else {
        values
    }
}

/// The views of strings.
pub open spec fn string_seq(v: Seq<String>) -> Seq<Seq<char>> {
    v.map_values(|s: String| s@)
}

/// Adds `value` unless it is blank or already listed.
pub fn push_unique(values: &mut Vec<String>, value: String)
    ensures
        string_seq(final(values)@) == with_unique(string_seq(old(values)@), value@),
{
    let t = trim_chars(&chars_of(value.as_str()));
    if t.len() == 0 {
        return;
    }
    let mut i: usize = 0;
    while i < values.len()
        invariant
            i <= values@.len(),
            forall|k: int| 0 <= k < i ==> values@[k]@ != value@,
        decreases values.len() - i,
    {
        if str_is(values[i].as_str(), value.as_str()) {
            proof {
                assert(string_seq(values@)[i as int] == value@);
            }
            return;
        }
        i += 1;
    }
    proof {
        assert(!string_seq(values@).contains(value@)) by {
            if string_seq(values@).contains(value@) {
                let k = choose|k: int| 0 <= k < string_seq(values@).len() && string_seq(values@)[k] == value@;
                assert(values@[k]@ == value@);
            }
        }
    }
    let ghost before = values@;
    values.push(value);
    assert(string_seq(values@) =~= string_seq(before).push(values@.last()@));
}

/// The ids whose stored metadata a recording's deletion removes: the requested id, its
/// workspace-prefixed stem, its stem, then the ids of the matched recordings, each once
/// and none blank.
pub open spec fn metadata_candidates(
    workspace_folder: Seq<char>,
    recording_id: Seq<char>,
    matched: Seq<Seq<char>>,
) -> Seq<Seq<char>>
    decreases matched.len(),
{
    if matched.len() == 0 {
        let stem = id_stem(recording_id, workspace_folder);
        with_unique(
            with_unique(with_unique(Seq::empty(), recording_id), prefixed_id(workspace_folder, stem)),
            stem,
        )
    } else {
        with_unique(
            metadata_candidates(workspace_folder, recording_id, matched.drop_last()),
            matched.last(),
        )
    }
}

/// The ids whose stored metadata a recording's deletion removes.
pub fn metadata_delete_candidates(
    workspace_folder: &str,
    recording_id: &str,
    matched_recording_ids: &Vec<String>,
) -> (r: Vec<String>)
    ensures
        string_seq(r@) == metadata_candidates(
            workspace_folder@,
            recording_id@,
            string_seq(matched_recording_ids@),
        ),
{
    let mut candidates: Vec<String> = Vec::new();
    assert(string_seq(candidates@) =~= Seq::<Seq<char>>::empty());
    let stem = recording_id_stem(recording_id, workspace_folder);
    push_unique(&mut candidates, owned(recording_id));
    push_unique(&mut candidates, prefixed_id_exec(workspace_folder, stem.as_str()));
    push_unique(&mut candidates, stem);
    let ghost m = string_seq(matched_recording_ids@);
    proof {
        assert(m.take(0) =~= Seq::<Seq<char>>::empty());
    }
    let mut i: usize = 0;
    while i < matched_recording_ids.len()
        invariant
            i <= matched_recording_ids@.len(),
            m == string_seq(matched_recording_ids@),
            string_seq(candidates@) == metadata_candidates(
                workspace_folder@,
                recording_id@,
                m.take(i as int),
            ),
        decreases matched_recording_ids.len() - i,
    {
        proof {
            assert(m.take(i + 1).drop_last() =~= m.take(i as int));
            assert(m.take(i + 1).last() == matched_recording_ids@[i as int]@);
        }
        push_unique(&mut candidates, matched_recording_ids[i].clone());
        i += 1;
    }
    assert(m.take(m.len() as int) =~= m);
    candidates
}

/// Offering values in turn.
pub open spec fn with_all_unique(values: Seq<Seq<char>>, offered: Seq<Seq<char>>) -> Seq<
    Seq<char>,
>
    decreases offered.len(),
{
    if offered.len() == 0 {
        values
    } else {
        with_unique(with_all_unique(values, offered.drop_last()), offered.last())
    }
}

/// The ids of the normalised audio files a recording's deletion removes: the ids found
/// in its metadata, then the requested id, its workspace-prefixed stem and its stem,
/// each once and none blank.
pub open spec fn audio_candidates(
    workspace_folder: Seq<char>,
    recording_id: Seq<char>,
    metadata_ids: Seq<Seq<char>>,
) -> Seq<Seq<char>> {
    let stem = id_stem(recording_id, workspace_folder);
    with_unique(
        with_unique(
            with_unique(with_all_unique(Seq::empty(), metadata_ids), recording_id),
            prefixed_id(workspace_folder, stem),
        ),
        stem,
    )
}

/// The ids of the normalised audio files a recording's deletion removes.
pub fn normalized_audio_candidate_ids(
    workspace_folder: &str,
    recording_id: &str,
    metadata_ids: &Vec<String>,
) -> (r: Vec<String>)
    ensures
        string_seq(r@) == audio_candidates(
            workspace_folder@,
            recording_id@,
            string_seq(metadata_ids@),
        ),
{
    let stem = recording_id_stem(recording_id, workspace_folder);
    let mut candidates: Vec<String> = Vec::new();
    assert(string_seq(candidates@) =~= Seq::<Seq<char>>::empty());
    let ghost m = string_seq(metadata_ids@);
    proof {
        assert(m.take(0) =~= Seq::<Seq<char>>::empty());
    }
    let mut i: usize = 0;
    while i < metadata_ids.len()
        invariant
            i <= metadata_ids@.len(),
            m == string_seq(metadata_ids@),
            string_seq(candidates@) == with_all_unique(Seq::empty(), m.take(i as int)),
        decreases metadata_ids.len() - i,
    {
        proof {
            assert(m.take(i + 1).drop_last() =~= m.take(i as int));
            assert(m.take(i + 1).last() == metadata_ids@[i as int]@);
        }
        push_unique(&mut candidates, metadata_ids[i].clone());
        i += 1;
    }
    assert(m.take(m.len() as int) =~= m);
    push_unique(&mut candidates, owned(recording_id));
    push_unique(&mut candidates, prefixed_id_exec(workspace_folder, stem.as_str()));
    push_unique(&mut candidates, stem);
    candidates
}

/// A list built by offering values holds each value at most once and no blank one.
pub proof fn lemma_unique_lists_stay_unique(values: Seq<Seq<char>>, value: Seq<char>)
    requires
        forall|i: int, j: int| 0 <= i < j < values.len() ==> values[i] != values[j],
        forall|i: int| 0 <= i < values.len() ==> trim(#[trigger] values[i]).len() > 0,
    ensures
        ({
            let r = with_unique(values, value);
            &&& forall|i: int, j: int| 0 <= i < j < r.len() ==> r[i] != r[j]
            &&& forall|i: int| 0 <= i < r.len() ==> trim(#[trigger] r[i]).len() > 0
            &&& trim(value).len() > 0 ==> r.contains(value)
        }),
{
    let r = with_unique(values, value);
    if trim(value).len() > 0 && !values.contains(value) {
        assert(r[r.len() - 1] == value);
        assert forall|i: int, j: int| 0 <= i < j < r.len() implies r[i] != r[j] by {
            if j == r.len() - 1 {
                assert(r[i] == values[i]);
            }
        }
    }
}


/// The pieces of `s` between the occurrences of `c` (`str::split`): one more piece than
/// there are occurrences, empty pieces included.
pub open spec fn split_on(s: Seq<char>, c: char) -> Seq<Seq<char>>
    decreases s.len(),
{
    if s.len() == 0 {
        seq![Seq::empty()]
    } else {
        let ps = split_on(s.drop_last(), c);
        if s.last() == c {
            ps.push(Seq::empty())
        } else {
            ps.drop_last().push(ps.last().push(s.last()))
        }
    }
}

/// The lines that are not blank, trimmed.
pub open spec fn nonblank_trimmed(lines: Seq<Seq<char>>) -> Seq<Seq<char>>
    decreases lines.len(),
{
    if lines.len() == 0 {
        Seq::empty()
    } else {
        let r = nonblank_trimmed(lines.drop_last());
        if trim(lines.last()).len() > 0 {
            r.push(trim(lines.last()))
        } else {
            r
        }
    }
}

/// Text with its line breaks unified: `\r\n` and `\r` become `\n`, a written `\n`
/// (backslash, n) becomes a line break, and Markdown hard breaks (a backslash, possibly
/// followed by a space, before a line break) lose their backslash.
pub open spec fn unified_breaks(text: Seq<char>) -> Seq<char> {
    replace(
        replace(
            replace(replace(replace(text, "\r\n"@, "\n"@), "\r"@, "\n"@), "\\n"@, "\n"@),
            "\\\n"@,
            "\n"@,
        ),
        "\\ \n"@,
        "\n"@,
    )
}

/// Plain text as Markdown: its non-blank lines, trimmed, as paragraphs separated by one
/// blank line.
pub open spec fn txt_as_markdown(text: Seq<char>) -> Seq<char> {
    join(nonblank_trimmed(split_on(unified_breaks(text), '\n')), "\n\n"@)
}

/// Converts the line breaks of an imported text file to Markdown paragraphs.
pub fn convert_txt_to_markdown_newlines(text: &str) -> (r: String)
    ensures
        r@ == txt_as_markdown(text@),
{
    proof {
        reveal_strlit("\r\n");
        reveal_strlit("\r");
        reveal_strlit("\\n");
        reveal_strlit("\\\n");
        reveal_strlit("\\ \n");
        reveal_strlit("\n");
    }
    let lf = chars_of("\n");
    let step1 = replace_exec(&chars_of(text), &chars_of("\r\n"), &lf);
    let step2 = replace_exec(&step1, &chars_of("\r"), &lf);
    let step3 = replace_exec(&step2, &chars_of("\\n"), &lf);
    let step4 = replace_exec(&step3, &chars_of("\\\n"), &lf);
    let norm = replace_exec(&step4, &chars_of("\\ \n"), &lf);
    let mut paragraphs: Vec<Vec<char>> = Vec::new();
    let mut current: Vec<char> = Vec::new();
    let ghost mut done: Seq<Seq<char>> = Seq::empty();
    let mut i: usize = 0;
    assert(norm@.take(0) =~= Seq::<char>::empty());
    assert(split_on(Seq::<char>::empty(), '\n') =~= done.push(current@));
    while i < norm.len()
        invariant
            i <= norm@.len(),
            split_on(norm@.take(i as int), '\n') == done.push(current@),
            views(paragraphs@) == nonblank_trimmed(done),
        decreases norm.len() - i,
    {
        let c = norm[i];
        proof {
            assert(norm@.take(i + 1).drop_last() =~= norm@.take(i as int));
        }
        if c == '\n' {
            let t = trim_chars(&current);
            proof {
                crate::text::lemma_views_push(paragraphs@, t);
            }
            if t.len() > 0 {
                paragraphs.push(t);
            }
            proof {
                assert(done.push(current@).drop_last() =~= done);
                assert(done.push(current@).last() == current@);
                done = done.push(current@);
            }
            current = Vec::new();
            assert(split_on(norm@.take(i + 1), '\n') =~= done.push(current@));
        } else {
            let ghost before = current@;
            current.push(c);
            assert(done.push(before).drop_last() =~= done);
            assert(split_on(norm@.take(i + 1), '\n') =~= done.push(current@));
        }
        i += 1;
    }
    let t = trim_chars(&current);
    proof {
        crate::text::lemma_views_push(paragraphs@, t);
    }
    if t.len() > 0 {
        paragraphs.push(t);
    }
    proof {
        assert(norm@.take(norm@.len() as int) =~= norm@);
        assert(done.push(current@).drop_last() =~= done);
        assert(done.push(current@).last() == current@);
    }
    let out = join_chars(&paragraphs, &chars_of("\n\n"));
    string_from_chars(&out)
}


/// What `Path::extension` gives for the path: what follows the last dot of its file name
/// (the file name found by the target platform's path syntax).
pub uninterp spec fn path_extension(path: Seq<char>) -> Option<Seq<char>>;

/// `Path::extension` of the path, as text (`OsStr::to_str`).
#[verifier::external_body]
fn extension_of(path: &str) -> (r: Option<String>)
    ensures
        opt_views(r) == path_extension(path@),
{
    std::path::Path::new(path).extension().and_then(|v| v.to_str()).map(|v| v.to_string())
}

/// Whether an extension, lowercased, is one of the audio formats that can be imported.
pub open spec fn importable_extension(lower: Seq<char>) -> bool {
    lower == "flac"@ || lower == "wav"@ || lower == "mp3"@ || lower == "m4a"@ || lower == "aac"@
        || lower == "ogg"@
}

/// Why a file is not imported.
#[derive(PartialEq, Eq, Structural, Clone, Copy, Debug)]
pub enum ImportSkip {
    /// The path has no readable extension.
    NoExtension,
    /// The extension is not an importable audio format.
    UnsupportedFormat,
    /// The path has no readable file name.
    NoFileName,
}

/// What importing an audio file does, from its extension and file name: the name it is
/// stored under in the recordings directory (its own), or why it is skipped.
pub open spec fn import_decision(extension: Option<Seq<char>>, file_name: Option<Seq<char>>) -> Result<
    Seq<char>,
    ImportSkip,
> {
    match extension {
        None => Err(ImportSkip::NoExtension),
        Some(e) => if !importable_extension(unicode_lowercase(e)) {
            Err(ImportSkip::UnsupportedFormat)
        } else {
            match file_name {
                Some(n) => Ok(n),
                None => Err(ImportSkip::NoFileName),
            }
        },
    }
}

/// The views of an import decision.
pub open spec fn decision_views(r: Result<String, ImportSkip>) -> Result<Seq<char>, ImportSkip> {
    match r {
        Ok(n) => Ok(n@),
        Err(k) => Err(k),
    }
}

/// What importing the audio file at `source_path` does: the file name it is stored
/// under in the recordings directory, or why it is skipped.
pub fn audio_import_target(source_path: &str) -> (r: Result<String, ImportSkip>)
    ensures
        decision_views(r) == import_decision(
            path_extension(source_path@),
            path_file_name(source_path@),
        ),
{
    let extension = match extension_of(source_path) {
        Some(e) => e,
        None => return Err(ImportSkip::NoExtension),
    };
    let lower = to_lowercase(extension.as_str());
    let l = lower.as_str();
    if !(str_is(l, "flac") || str_is(l, "wav") || str_is(l, "mp3") || str_is(l, "m4a") || str_is(
        l,
        "aac",
    ) || str_is(l, "ogg")) {
        return Err(ImportSkip::UnsupportedFormat);
    }
    match file_name_of(source_path) {
        Some(n) => Ok(n),
        None => Err(ImportSkip::NoFileName),
    }
}

/// The formats a note can be imported from.
#[derive(PartialEq, Eq, Structural, Clone, Copy, Debug)]
pub enum NoteFormat {
    /// Markdown (`.md`), imported as it is.
    Markdown,
    /// Plain text (`.txt`), whose lines become paragraphs.
    Text,
    /// A Word document (`.docx`), whose paragraphs' text is imported.
    Word,
}

/// The format a note is imported from, by its extension in lower case.
pub open spec fn note_format_of(extension: Option<Seq<char>>) -> Option<NoteFormat> {
    match extension {
        None => None,
        Some(e) => {
            let l = unicode_lowercase(e);
            if l == "md"@ {
                Some(NoteFormat::Markdown)
            } else if l == "txt"@ {
                Some(NoteFormat::Text)
            } else if l == "docx"@ {
                Some(NoteFormat::Word)
            } else {
                None
            }
        },
    }
}

/// The format the note at `source_path` is imported from, if it is one that can be.
pub fn note_import_format(source_path: &str) -> (r: Option<NoteFormat>)
    ensures
        r == note_format_of(path_extension(source_path@)),
{
    let extension = match extension_of(source_path) {
        Some(e) => e,
        None => return None,
    };
    let lower = to_lowercase(extension.as_str());
    let l = lower.as_str();
    if str_is(l, "md") {
        Some(NoteFormat::Markdown)
    } else if str_is(l, "txt") {
        Some(NoteFormat::Text)
    } else if str_is(l, "docx") {
        Some(NoteFormat::Word)
    } else {
        None
    }
}

/// The name given, else `Untitled`.
pub open spec fn or_untitled(name: Option<Seq<char>>) -> Seq<char> {
    match name {
        Some(n) => n,
        None => "Untitled"@,
    }
}

/// A note read from a file: its title (the file's stem), its Markdown content and the
/// file's name.
pub struct ImportedNote {
    pub title: String,
    pub content: String,
    pub file_name: String,
}

/// The note imported from `source_path` with `content`: titled by the file's stem and
/// named by its file name, each `Untitled` where the path has none.
pub fn imported_note(source_path: &str, content: String) -> (n: ImportedNote)
    ensures
        n.title@ == or_untitled(path_file_stem(source_path@)),
        n.file_name@ == or_untitled(path_file_name(source_path@)),
        n.content == content,
{
    let title = match file_stem_of(source_path) {
        Some(t) => t,
        None => owned("Untitled"),
    };
    let file_name = match file_name_of(source_path) {
        Some(f) => f,
        None => owned("Untitled"),
    };
    ImportedNote { title, content, file_name }
}

/// What a run of a Word document holds, as far as the import reads it.
pub enum DocxRunPart {
    /// A piece of text.
    Text(String),
    /// Anything else (a tab, a break, a drawing, ..).
    Other,
}

/// What a paragraph of a Word document holds, as far as the import reads it.
pub enum DocxParagraphPart {
    /// A run of text.
    Run(Vec<DocxRunPart>),
    /// Anything else (an insertion, a hyperlink, a bookmark, ..).
    Other,
}

/// What the body of a Word document holds, as far as the import reads it.
pub enum DocxBlock {
    /// A paragraph.
    Paragraph(Vec<DocxParagraphPart>),
    /// Anything else (a table, a section, ..).
    Other,
}

/// The text of a run: its pieces of text, one after another.
pub open spec fn run_text(parts: Seq<DocxRunPart>) -> Seq<char>
    decreases parts.len(),
{
    if parts.len() == 0 {
        Seq::empty()
    } else {
        run_text(parts.drop_last()) + match parts.last() {
            DocxRunPart::Text(t) => t@,
            DocxRunPart::Other => Seq::empty(),
        }
    }
}

/// The text of a paragraph: the text of its runs, one after another.
pub open spec fn paragraph_text(parts: Seq<DocxParagraphPart>) -> Seq<char>
    decreases parts.len(),
{
    if parts.len() == 0 {
        Seq::empty()
    } else {
        paragraph_text(parts.drop_last()) + match parts.last() {
            DocxParagraphPart::Run(r) => run_text(r@),
            DocxParagraphPart::Other => Seq::empty(),
        }
    }
}

/// The texts of the paragraphs that hold any, in order.
pub open spec fn docx_paragraphs(blocks: Seq<DocxBlock>) -> Seq<Seq<char>>
    decreases blocks.len(),
{
    if blocks.len() == 0 {
        Seq::empty()
    } else {
        let before = docx_paragraphs(blocks.drop_last());
        match blocks.last() {
            DocxBlock::Paragraph(p) => if paragraph_text(p@).len() > 0 {
                before.push(paragraph_text(p@))
            } else {
                before
            },
            DocxBlock::Other => before,
        }
    }
}

fn run_text_exec(parts: &Vec<DocxRunPart>, out: &mut Vec<char>)
    ensures
        final(out)@ == old(out)@ + run_text(parts@),
{
    let mut i: usize = 0;
    while i < parts.len()
        invariant
            i <= parts@.len(),
            out@ == old(out)@ + run_text(parts@.subrange(0, i as int)),
        decreases parts.len() - i,
    {
        proof {
            assert(parts@.subrange(0, i + 1).drop_last() =~= parts@.subrange(0, i as int));
        }
        match &parts[i] {
            DocxRunPart::Text(t) => append_chars(out, &chars_of(t.as_str())),
            DocxRunPart::Other => {},
        }
        proof {
            assert(out@ =~= old(out)@ + run_text(parts@.subrange(0, i + 1)));
        }
        i += 1;
    }
    proof {
        assert(parts@.subrange(0, parts@.len() as int) =~= parts@);
    }
}

fn paragraph_text_exec(parts: &Vec<DocxParagraphPart>) -> (out: Vec<char>)
    ensures
        out@ == paragraph_text(parts@),
{
    let mut out: Vec<char> = Vec::new();
    let mut i: usize = 0;
    while i < parts.len()
        invariant
            i <= parts@.len(),
            out@ == paragraph_text(parts@.subrange(0, i as int)),
        decreases parts.len() - i,
    {
        proof {
            assert(parts@.subrange(0, i + 1).drop_last() =~= parts@.subrange(0, i as int));
        }
        match &parts[i] {
            DocxParagraphPart::Run(r) => run_text_exec(r, &mut out),
            DocxParagraphPart::Other => {},
        }
        proof {
            assert(out@ =~= paragraph_text(parts@.subrange(0, i + 1)));
        }
        i += 1;
    }
    proof {
        assert(parts@.subrange(0, parts@.len() as int) =~= parts@);
    }
    out
}

/// The text of a Word document: the text of each paragraph that holds any, separated
/// by blank lines.
pub fn docx_text(blocks: &Vec<DocxBlock>) -> (r: String)
    ensures
        r@ == join(docx_paragraphs(blocks@), "\n\n"@),
{
    let mut paragraphs: Vec<Vec<char>> = Vec::new();
    let mut i: usize = 0;
    while i < blocks.len()
        invariant
            i <= blocks@.len(),
            views(paragraphs@) == docx_paragraphs(blocks@.subrange(0, i as int)),
        decreases blocks.len() - i,
    {
        proof {
            assert(blocks@.subrange(0, i + 1).drop_last() =~= blocks@.subrange(0, i as int));
        }
        match &blocks[i] {
            DocxBlock::Paragraph(p) => {
                let text = paragraph_text_exec(p);
                if text.len() > 0 {
                    proof {
                        crate::text::lemma_views_push(paragraphs@, text);
                    }
                    paragraphs.push(text);
                }
            },
            DocxBlock::Other => {},
        }
        proof {
            assert(views(paragraphs@) =~= docx_paragraphs(blocks@.subrange(0, i + 1)));
        }
        i += 1;
    }
    proof {
        assert(blocks@.subrange(0, blocks@.len() as int) =~= blocks@);
    }
    string_from_chars(&join_chars(&paragraphs, &chars_of("\n\n")))
}

/// A note saved from a stored name: the id before the first `__` of the stem comes back
/// as it was, and the title as it was written. This holds for every non-blank id
/// without `_` (as the UUIDs notes are given are).
pub proof fn lemma_note_name_round_trip(id: Seq<char>, title: Seq<char>)
    requires
        trim(id).len() > 0,
        forall|i: int| 0 <= i < id.len() ==> id[i] != '_',
    ensures
        split_stem(id + "__"@ + sanitized_title(title)) == Some((id, sanitized_title(title))),
{
    reveal_strlit("__");
    let t = sanitized_title(title);
    let stem = id + "__"@ + t;
    crate::text::lemma_find_from(stem, "__"@, 0);
    assert(occurs_at(stem, "__"@, id.len() as int)) by {
        assert(stem.subrange(id.len() as int, id.len() + 2int) =~= "__"@);
    }
    assert forall|j: int| 0 <= j < id.len() implies !occurs_at(stem, "__"@, j) by {
        if occurs_at(stem, "__"@, j) {
            assert(stem.subrange(j, j + 2)[0] == '_');
            assert(stem[j] == id[j]);
        }
    }
    assert(find_from(stem, "__"@, 0) == Some(id.len() as int));
    assert(stem.take(id.len() as int) =~= id);
    assert(stem.skip(id.len() + 2int) =~= t);
}

/// A note of a workspace.
pub struct LocalNote {
    pub id: String,
    pub title: String,
    pub content: String,
    pub created: String,
    pub updated: String,
}

/// The value given, else `now` where it is blank.
pub open spec fn or_now(value: Seq<char>, now: Seq<char>) -> Seq<char> {
    if trim(value).len() == 0 {
        now
    } else {
        value
    }
}

/// A note as it is saved: its title trimmed (`未命名笔记` where blank), and its times
/// set to `now` where they are blank.
pub fn prepared_note(note: LocalNote, now: &str) -> (r: LocalNote)
    ensures
        r.id == note.id,
        r.content == note.content,
        r.title@ == (if trim(note.title@).len() == 0 {
            "未命名笔记"@
        } else {
            trim(note.title@)
        }),
        r.created@ == or_now(note.created@, now@),
        r.updated@ == or_now(note.updated@, now@),
{
    let t = trim_chars(&chars_of(note.title.as_str()));
    let title = if t.len() == 0 {
        owned("未命名笔记")
    } else {
        string_from_chars(&t)
    };
    let created = if trim_chars(&chars_of(note.created.as_str())).len() == 0 {
        owned(now)
    } else {
        note.created
    };
    let updated = if trim_chars(&chars_of(note.updated.as_str())).len() == 0 {
        owned(now)
    } else {
        note.updated
    };
    LocalNote { id: note.id, title, content: note.content, created, updated }
}

/// Whether the file at `path` holds a version of the note `note_id`: a `.md` file whose
/// stem starts with the id and `__`.
pub open spec fn is_note_file_of_spec(path: Seq<char>, note_id: Seq<char>) -> bool {
    path_extension(path) == Some("md"@) && match path_file_stem(path) {
        Some(stem) => has_prefix(stem, note_id + "__"@),
        None => false,
    }
}

/// Whether the file at `path` holds a version of the note `note_id`.
pub fn is_note_file_of(path: &str, note_id: &str) -> (b: bool)
    ensures
        b == is_note_file_of_spec(path@, note_id@),
{
    let is_md = match extension_of(path) {
        Some(e) => str_is(e.as_str(), "md"),
        None => false,
    };
    if !is_md {
        return false;
    }
    let mut prefix = chars_of(note_id);
    append_chars(&mut prefix, &chars_of("__"));
    match file_stem_of(path) {
        Some(stem) => starts_with(&chars_of(stem.as_str()), &prefix),
        None => false,
    }
}

fn copy_note(n: &LocalNote) -> (r: LocalNote)
    ensures
        r.id@ == n.id@,
        r.title@ == n.title@,
        r.content@ == n.content@,
        r.created@ == n.created@,
        r.updated@ == n.updated@,
{
    LocalNote {
        id: owned(n.id.as_str()),
        title: owned(n.title.as_str()),
        content: owned(n.content.as_str()),
        created: owned(n.created.as_str()),
        updated: owned(n.updated.as_str()),
    }
}

/// `a` holds what `b` holds.
pub open spec fn same_note(a: LocalNote, b: LocalNote) -> bool {
    a.id@ == b.id@ && a.title@ == b.title@ && a.content@ == b.content@ && a.created@ == b.created@
        && a.updated@ == b.updated@
}

/// The notes, most recently updated first (by their update times as text); notes
/// updated at the same time keep their order.
pub fn notes_newest_first(notes: &Vec<LocalNote>) -> (r: Vec<LocalNote>)
    ensures
        exists|order: Seq<usize>|
            {
                &&& is_arrangement(order, notes@.len() as int)
                &&& is_newest_first(
                    notes@.map_values(|n: LocalNote| n.updated@),
                    order,
                )
                &&& r@.len() == notes@.len()
                &&& forall|i: int|
                    0 <= i < r@.len() ==> same_note(#[trigger] r@[i], notes@[order[i] as int])
            },
{
    let mut keys: Vec<Vec<char>> = Vec::new();
    let mut i: usize = 0;
    while i < notes.len()
        invariant
            i <= notes@.len(),
            keys@.len() == i,
            forall|j: int| 0 <= j < i ==> (#[trigger] keys@[j])@ == notes@[j].updated@,
        decreases notes.len() - i,
    {
        keys.push(chars_of(notes[i].updated.as_str()));
        i += 1;
    }
    assert(keys@.map_values(|k: Vec<char>| k@) =~= notes@.map_values(|n: LocalNote| n.updated@));
    let order = newest_first_order(&keys);
    let mut r: Vec<LocalNote> = Vec::new();
    let mut k: usize = 0;
    while k < order.len()
        invariant
            k <= order@.len(),
            is_arrangement(order@, notes@.len() as int),
            r@.len() == k,
            forall|j: int| 0 <= j < k ==> same_note(#[trigger] r@[j], notes@[order@[j] as int]),
        decreases order.len() - k,
    {
        r.push(copy_note(&notes[order[k]]));
        k += 1;
    }
    r
}

/// Whether the file at `path` is a recording: its extension, lowercased, is one of the
/// audio formats the app reads.
pub open spec fn is_audio_path_spec(path: Seq<char>) -> bool {
    match path_extension(path) {
        Some(e) => importable_extension(unicode_lowercase(e)),
        None => false,
    }
}

/// Whether the file at `path` is a recording.
pub fn is_audio_path(path: &str) -> (b: bool)
    ensures
        b == is_audio_path_spec(path@),
{
    match extension_of(path) {
        Some(e) => {
            let lower = to_lowercase(e.as_str());
            let l = lower.as_str();
            str_is(l, "flac") || str_is(l, "wav") || str_is(l, "mp3") || str_is(l, "m4a") || str_is(
                l,
                "aac",
            ) || str_is(l, "ogg")
        },
        None => false,
    }
}

/// A recording file of a workspace: its id, its file name, its path, when it was
/// created (as shown) and its size in bytes.
pub struct RecordingFile {
    pub id: String,
    pub name: String,
    pub path: String,
    pub created: String,
    pub size: u64,
}

/// The listing entry of the recording file at `path`: registered under the id its path
/// gives, named by its file name (`Unknown` where it has none).
pub fn recording_file(path: &str, created: String, size: u64) -> (r: RecordingFile)
    ensures
        exists|fallback: Seq<char>|
            fallback.len() == 36 && r.id@ == #[trigger] recording_id_spec(
                path_file_stem(path@),
                recording_workspace(path@),
                fallback,
            ),
        r.name@ == match path_file_name(path@) {
            Some(n) => n,
            None => "Unknown"@,
        },
        r.path@ == path@,
        r.created == created,
        r.size == size,
{
    let name = match file_name_of(path) {
        Some(n) => n,
        None => owned("Unknown"),
    };
    RecordingFile { id: recording_id_from_path(path), name, path: owned(path), created, size }
}

/// The outcome of deleting a recording of a workspace: done where its file, its record
/// or its normalized audio was removed; else the error that it was not found.
pub fn recording_deletion_result(
    deleted_anything: bool,
    workspace_folder: &str,
    recording_id: &str,
) -> (r: Result<(), String>)
    ensures
        deleted_anything ==> r is Ok,
        !deleted_anything ==> (r matches Err(e) && e@ == "Recording not found in workspace "@
            + workspace_folder@ + ": "@ + recording_id@),
{
    if deleted_anything {
        return Ok(());
    }
    let mut m = chars_of("Recording not found in workspace ");
    append_chars(&mut m, &chars_of(workspace_folder));
    append_chars(&mut m, &chars_of(": "));
    append_chars(&mut m, &chars_of(recording_id));
    Err(string_from_chars(&m))
}

} // verus!
