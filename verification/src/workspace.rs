//! Local workspace folders under the app data directory.
//!
//! A workspace folder name is sanitised so that it can only ever name a direct
//! child of the workspaces directory: it holds alphanumerics, `-` and `_` only.
use vstd::prelude::*;

use crate::text::{
    append_chars, chars_eq, chars_of, join_path, join_path_exec, opt_str, owned, string_from_chars,
    sub_chars, trim, trim_chars,
};

verus! {

broadcast use vstd::string::group_string_axioms;

/// What `char::is_alphanumeric` returns for `c` (Unicode `Alphabetic` or `Numeric`).
pub uninterp spec fn unicode_alphanumeric(c: char) -> bool;

/// An ASCII letter or digit.
pub open spec fn is_ascii_alnum(c: char) -> bool {
    ('a' <= c && c <= 'z') || ('A' <= c && c <= 'Z') || ('0' <= c && c <= '9')
}

/// `char::is_alphanumeric`. Its documentation defines it as Unicode `Alphabetic` or
/// `Numeric`; the contract names that result and states only what it is for ASCII
/// characters (letters and digits). Which other characters count is not stated.
#[verifier::external_body]
pub(crate) fn is_alphanumeric(c: char) -> (b: bool)
    ensures
        b == unicode_alphanumeric(c),
        (c as u32) < 128 ==> (b == is_ascii_alnum(c)),
{
    c.is_alphanumeric()
}

/// A character a workspace folder may keep.
pub open spec fn folder_char_kept(c: char) -> bool {
    unicode_alphanumeric(c) || c == '-' || c == '_'
}

/// Every character not kept becomes `-`.
pub open spec fn map_folder_chars(s: Seq<char>) -> Seq<char> {
    Seq::new(s.len(), |i: int| if folder_char_kept(s[i]) { s[i] } else { '-' })
}

/// `s.trim_matches(c)`.
pub open spec fn trim_char(s: Seq<char>, c: char) -> Seq<char>
    decreases s.len(),
{
    if s.len() > 0 && s[0] == c {
        trim_char(s.drop_first(), c)
    } else if s.len() > 0 && s.last() == c {
        trim_char(s.drop_last(), c)
    } else {
        s
    }
}

/// The canonical folder name for a requested workspace folder.
pub open spec fn sanitize_folder_spec(value: Seq<char>) -> Seq<char> {
    let cleaned = trim_char(map_folder_chars(trim(value)), '-');
    if cleaned.len() == 0 {
        "local-workspace"@
    } else {
        cleaned
    }
}

/// A character that cannot take a path outside its directory: not an ASCII
/// character other than a letter, a digit, `-` or `_` (so no `/`, `\`, `.` or space).
pub open spec fn folder_char_ok(c: char) -> bool {
    (c as u32) >= 128 || is_ascii_alnum(c) || c == '-' || c == '_'
}

/// `s.trim_matches(c)` on a character buffer.
pub fn trim_char_exec(s: &[char], c: char) -> (out: Vec<char>)
    ensures
        out@ == trim_char(s@, c),
        exists|i: int, j: int| 0 <= i <= j <= s@.len() && out@ == s@.subrange(i, j),
{
    let n = s.len();
    let mut i: usize = 0;
    assert(s@.subrange(0, n as int) =~= s@);
    while i < n && s[i] == c
        invariant
            i <= n == s@.len(),
            trim_char(s@, c) == trim_char(s@.subrange(i as int, n as int), c),
        decreases n - i,
    {
        proof {
            assert(s@.subrange(i as int, n as int).drop_first() =~= s@.subrange(i + 1, n as int));
        }
        i += 1;
    }
    let mut j: usize = n;
    while j > i && s[j - 1] == c
        invariant
            i <= j <= n == s@.len(),
            i < j ==> s@[i as int] != c,
            trim_char(s@, c) == trim_char(s@.subrange(i as int, j as int), c),
        decreases j - i,
    {
        proof {
            let x = s@.subrange(i as int, j as int);
            assert(x[0] == s@[i as int]);
            assert(x.drop_last() =~= s@.subrange(i as int, j - 1));
        }
        j -= 1;
    }
    proof {
        let x = s@.subrange(i as int, j as int);
        if i < j {
            assert(x[0] == s@[i as int]);
            assert(x.last() == s@[j - 1]);
        }
    }
    sub_chars(s, i, j)
}

/// The canonical folder name for a requested workspace folder: trimmed, every
/// character other than an alphanumeric, `-` or `_` replaced by `-`, outer `-`
/// removed, `local-workspace` when nothing is left.
pub fn sanitize_workspace_folder(value: &str) -> (out: Vec<char>)
    ensures
        out@ == sanitize_folder_spec(value@),
        out@.len() > 0,
        forall|i: int| 0 <= i < out@.len() ==> folder_char_ok(#[trigger] out@[i]),
{
    let t = trim_chars(&chars_of(value));
    let mut m: Vec<char> = Vec::new();
    let mut i: usize = 0;
    while i < t.len()
        invariant
            i <= t@.len(),
            m@ == map_folder_chars(t@.subrange(0, i as int)),
            forall|k: int| 0 <= k < m@.len() ==> folder_char_ok(#[trigger] m@[k]),
        decreases t.len() - i,
    {
        let c = t[i];
        let keep = is_alphanumeric(c) || c == '-' || c == '_';
        if keep {
            m.push(c);
        } else {
            m.push('-');
        }
        i += 1;
        proof {
            assert(m@ =~= map_folder_chars(t@.subrange(0, i as int)));
        }
    }
    proof {
        assert(t@.subrange(0, t@.len() as int) =~= t@);
    }
    let cleaned = trim_char_exec(&m, '-');
    if cleaned.len() == 0 {
        let d = chars_of("local-workspace");
        proof {
            reveal_strlit("local-workspace");
            assert forall|k: int| 0 <= k < d@.len() implies folder_char_ok(#[trigger] d@[k]) by {
            }
        }
        d
    } else {
        cleaned
    }
}

/// The requested folder, when it is already canonical.
pub open spec fn strict_folder_spec(workspace_folder: Seq<char>) -> Result<Seq<char>, Seq<char>> {
    let raw = trim(workspace_folder);
    if raw.len() == 0 {
        Err("workspaceFolder is required"@)
    } else if sanitize_folder_spec(raw) != raw {
        Err("workspaceFolder contains invalid characters"@)
    } else {
        Ok(raw)
    }
}

/// Accepts a workspace folder only when it is non-empty and already canonical.
pub fn strict_workspace_folder(workspace_folder: &str) -> (r: Result<Vec<char>, String>)
    ensures
        match r {
            Ok(f) => strict_folder_spec(workspace_folder@) == Ok::<Seq<char>, Seq<char>>(f@)
                && f@.len() > 0 && forall|i: int| 0 <= i < f@.len() ==> folder_char_ok(
                #[trigger] f@[i]),
            Err(e) => strict_folder_spec(workspace_folder@) == Err::<Seq<char>, Seq<char>>(e@),
        },
{
    let raw = trim_chars(&chars_of(workspace_folder));
    if raw.len() == 0 {
        return Err(owned("workspaceFolder is required"));
    }
    let raw_string = string_from_chars(&raw);
    let sanitized = sanitize_workspace_folder(raw_string.as_str());
    if !chars_eq(&sanitized, &raw) {
        return Err(owned("workspaceFolder contains invalid characters"));
    }
    Ok(raw)
}

/// The path of a workspace folder inside `workspaces_dir`, when the requested
/// folder is already canonical.
pub fn strict_workspace_dir_path(workspaces_dir: &str, workspace_folder: &str) -> (r: Result<
    String,
    String,
>)
    ensures
        match r {
            Ok(p) => strict_folder_spec(workspace_folder@) is Ok && p@ == join_path(
                workspaces_dir@,
                strict_folder_spec(workspace_folder@)->Ok_0,
            ),
            Err(e) => strict_folder_spec(workspace_folder@) == Err::<Seq<char>, Seq<char>>(e@),
        },
{
    let folder = strict_workspace_folder(workspace_folder)?;
    Ok(join_path_exec(workspaces_dir, &folder))
}

/// The path of a workspace folder inside `workspaces_dir`, after sanitising it.
pub fn workspace_dir_path(workspaces_dir: &str, workspace_folder: &str) -> (p: String)
    ensures
        p@ == join_path(workspaces_dir@, sanitize_folder_spec(workspace_folder@)),
{
    let folder = sanitize_workspace_folder(workspace_folder);
    join_path_exec(workspaces_dir, &folder)
}

/// Where the strict path of a workspace folder is accepted, it is the path the lenient
/// builder gives for the same folder: both name the same directory.
pub proof fn lemma_strict_path_agrees_with_lenient(workspaces_dir: Seq<char>, workspace_folder: Seq<char>)
    requires
        strict_folder_spec(workspace_folder) is Ok,
    ensures
        join_path(workspaces_dir, strict_folder_spec(workspace_folder)->Ok_0) == join_path(
            workspaces_dir,
            sanitize_folder_spec(workspace_folder),
        ),
{
    let raw = trim(workspace_folder);
    crate::text::lemma_trim(workspace_folder);
    crate::text::lemma_trim_trimmed(raw);
    assert(trim(raw) == raw);
    assert(sanitize_folder_spec(workspace_folder) == sanitize_folder_spec(raw));
}

/// Every character of `s` is one a folder name keeps.
pub open spec fn all_kept(s: Seq<char>) -> bool {
    forall|i: int| 0 <= i < s.len() ==> folder_char_kept(#[trigger] s[i])
}

/// Removing outer `-` from characters a folder keeps leaves characters it keeps, with
/// no `-` at either end.
proof fn lemma_trim_dash_keeps(s: Seq<char>)
    requires
        all_kept(s),
    ensures
        all_kept(trim_char(s, '-')),
        trim_char(s, '-').len() > 0 ==> trim_char(s, '-')[0] != '-' && trim_char(s, '-').last()
            != '-',
    decreases s.len(),
{
    if s.len() > 0 && s[0] == '-' {
        assert forall|i: int| 0 <= i < s.drop_first().len() implies folder_char_kept(
            #[trigger] s.drop_first()[i],
        ) by {
            assert(s.drop_first()[i] == s[i + 1]);
        }
        lemma_trim_dash_keeps(s.drop_first());
    } else if s.len() > 0 && s.last() == '-' {
        assert forall|i: int| 0 <= i < s.drop_last().len() implies folder_char_kept(
            #[trigger] s.drop_last()[i],
        ) by {
            assert(s.drop_last()[i] == s[i]);
        }
        lemma_trim_dash_keeps(s.drop_last());
    }
}

/// A sanitised folder name is canonical: sanitising it again changes nothing, the strict
/// check accepts it as it is, and both path builders give for it the path they give for
/// the folder it came from.
///
/// The proof rests on two properties of `char::is_alphanumeric`, taken here as
/// hypotheses because its contract can only state them of each call: no alphanumeric
/// character is whitespace (Unicode puts no `White_Space` character among `Alphabetic`
/// or `Numeric`), and on ASCII it accepts exactly letters and digits.
pub proof fn lemma_sanitized_folder_is_canonical(workspaces_dir: Seq<char>, workspace_folder: Seq<char>)
    requires
        forall|c: char| #[trigger] unicode_alphanumeric(c) ==> !crate::text::is_ws(c),
        forall|c: char|
            (c as u32) < 128 ==> (#[trigger] unicode_alphanumeric(c) == is_ascii_alnum(c)),
    ensures
        sanitize_folder_spec(sanitize_folder_spec(workspace_folder)) == sanitize_folder_spec(
            workspace_folder,
        ),
        strict_folder_spec(sanitize_folder_spec(workspace_folder)) == Ok::<Seq<char>, Seq<char>>(
            sanitize_folder_spec(workspace_folder),
        ),
        join_path(workspaces_dir, sanitize_folder_spec(sanitize_folder_spec(workspace_folder)))
            == join_path(workspaces_dir, sanitize_folder_spec(workspace_folder)),
        join_path(
            workspaces_dir,
            strict_folder_spec(sanitize_folder_spec(workspace_folder))->Ok_0,
        ) == join_path(workspaces_dir, sanitize_folder_spec(workspace_folder)),
{
    let mapped = map_folder_chars(trim(workspace_folder));
    let cleaned = trim_char(mapped, '-');
    lemma_trim_dash_keeps(mapped);
    let s = sanitize_folder_spec(workspace_folder);
    if cleaned.len() == 0 {
        reveal_strlit("local-workspace");
    }
    assert(all_kept(s));
    assert(s.len() > 0 && s[0] != '-' && s.last() != '-');
    assert(!crate::text::is_ws(s[0]) && !crate::text::is_ws(s.last())) by {
        assert(folder_char_kept(s[0]));
        assert(folder_char_kept(s[s.len() - 1]));
    }
    crate::text::lemma_trim_trimmed(s);
    assert(trim(s) == s);
    assert(map_folder_chars(s) =~= s);
    assert(trim_char(s, '-') == s);
}

/// The application's data directory: the directory named by the test override where
/// one is set; else "Voice Vibe Local" inside the user's documents directory; else
/// ".voice-vibe-local" inside the home directory; `None` where neither is known.
pub open spec fn app_data_dir_spec(
    test_override: Option<Seq<char>>,
    documents_dir: Option<Seq<char>>,
    home_dir: Option<Seq<char>>,
) -> Option<Seq<char>> {
    match test_override {
        Some(p) => Some(p),
        None => match documents_dir {
            Some(d) => Some(join_path(d, "Voice Vibe Local"@)),
            None => match home_dir {
                Some(h) => Some(join_path(h, ".voice-vibe-local"@)),
                None => None,
            },
        },
    }
}

/// Chooses the application's data directory from the test override, the documents
/// directory and the home directory, as far as each is known. Fails only where none is.
pub fn app_data_dir_for(
    test_override: Option<&str>,
    documents_dir: Option<&str>,
    home_dir: Option<&str>,
) -> (r: Result<String, String>)
    ensures
        match r {
            Ok(p) => app_data_dir_spec(opt_str(test_override), opt_str(documents_dir),
                opt_str(home_dir)) == Some(p@),
            Err(e) => app_data_dir_spec(opt_str(test_override), opt_str(documents_dir),
                opt_str(home_dir)) is None && e@ == "Failed to get app data directory"@,
        },
{
    match test_override {
        Some(p) => Ok(p.to_string()),
        None => match documents_dir {
            Some(d) => Ok(join_path_exec(d, &chars_of("Voice Vibe Local"))),
            None => match home_dir {
                Some(h) => Ok(join_path_exec(h, &chars_of(".voice-vibe-local"))),
                None => Err(owned("Failed to get app data directory")),
            },
        },
    }
}

/// A named directory inside the application's data directory (such as "workspaces"
/// or "temp").
pub fn app_subdir(app_data_dir: &str, name: &str) -> (p: String)
    ensures
        p@ == join_path(app_data_dir@, name@),
{
    join_path_exec(app_data_dir, &chars_of(name))
}

/// The database file inside the app data directory.
pub fn db_path(app_data_dir: &str) -> (p: String)
    ensures
        p@ == join_path(app_data_dir@, "app.sqlite"@),
{
    join_path_exec(app_data_dir, &chars_of("app.sqlite"))
}

/// `Path::exists`: whether something is at `path` now. What is on disk can change,
/// so nothing is stated of the result.
#[verifier::external_body]
pub(crate) fn path_exists(path: &str) -> bool {
    std::path::Path::new(path).exists()
}

/// Accepts an explicit source path only when something exists there.
pub fn find_source_file(source_path: &str) -> (r: Result<String, String>)
    ensures
        match r {
            Ok(p) => p@ == source_path@,
            Err(e) => e@ == "Source file not found at: "@ + source_path@,
        },
{
    if path_exists(source_path) {
        return Ok(owned(source_path));
    }
    let mut msg = chars_of("Source file not found at: ");
    append_chars(&mut msg, &chars_of(source_path));
    Err(string_from_chars(&msg))
}

} // verus!
