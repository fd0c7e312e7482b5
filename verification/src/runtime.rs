//! The bundled speech-recognition runtime (Python, ffmpeg and the sidecar script):
//! where its parts lie, which directories go on the `PATH` of the sidecar, the check
//! that every part is present, and the proxy settings handed to the sidecar.
use vstd::prelude::*;

use crate::devices::Platform;
use crate::settings::{non_blank, AppSettings};
use crate::text::{
    opt_views, append_chars, has_prefix, chars_of, find_exec, find_from, owned, str_is, string_from_chars, trim_chars,
};
use crate::workspace::path_exists;

verus! {

broadcast use vstd::string::group_string_axioms;

/// The parts of the speech-recognition runtime.
pub struct AsrRuntime {
    pub root: String,
    pub python_path: String,
    pub ffmpeg_path: String,
    pub script_path: String,
}

/// The separator of path components on the platform.
pub open spec fn separator(platform: Platform) -> char {
    if platform == Platform::Windows {
        '\\'
    } else {
        '/'
    }
}

/// Whether `c` ends a directory on the platform (Windows accepts both slashes).
pub open spec fn is_separator(platform: Platform, c: char) -> bool {
    c == '/' || (platform == Platform::Windows && c == '\\')
}

/// `Path::join` of a relative component: the component after the directory, with a
/// separator between them unless the directory is empty or already ends with one.
pub open spec fn join_on(platform: Platform, dir: Seq<char>, name: Seq<char>) -> Seq<char> {
    if dir.len() == 0 {
        name
    } else if is_separator(platform, dir.last()) {
        dir + name
    } else {
        dir.push(separator(platform)) + name
    }
}

/// `Path::join` of a relative component.
pub fn join_component(platform: Platform, dir: &str, name: &str) -> (r: String)
    ensures
        r@ == join_on(platform, dir@, name@),
{
    let mut d = chars_of(dir);
    let windows = match platform {
        Platform::Windows => true,
        _ => false,
    };
    let n = d.len();
    if n > 0 {
        let last = d[n - 1];
        let ends_with_separator = last == '/' || (windows && last == '\\');
        if !ends_with_separator {
            d.push(if windows { '\\' } else { '/' });
        }
    }
    append_chars(&mut d, &chars_of(name));
    string_from_chars(&d)
}

/// Where the bundled Python lies inside the runtime root.
pub open spec fn python_relative(platform: Platform) -> Seq<char> {
    if platform == Platform::Windows {
        "python.exe"@
    } else {
        join_on(platform, "bin"@, "python"@)
    }
}

/// Where the bundled Python lies inside the runtime root.
pub fn bundled_python_relative_path(platform: Platform) -> (r: String)
    ensures
        r@ == python_relative(platform),
{
    match platform {
        Platform::Windows => owned("python.exe"),
        _ => join_component(platform, "bin", "python"),
    }
}

/// Where the bundled ffmpeg lies inside the runtime root.
pub open spec fn ffmpeg_relative(platform: Platform) -> Seq<char> {
    if platform == Platform::Windows {
        join_on(platform, "bin"@, "ffmpeg.exe"@)
    } else {
        join_on(platform, "bin"@, "ffmpeg"@)
    }
}

/// Where the bundled ffmpeg lies inside the runtime root.
pub fn bundled_ffmpeg_relative_path(platform: Platform) -> (r: String)
    ensures
        r@ == ffmpeg_relative(platform),
{
    match platform {
        Platform::Windows => join_component(platform, "bin", "ffmpeg.exe"),
        _ => join_component(platform, "bin", "ffmpeg"),
    }
}

/// The runtime laid out under its root, with the sidecar script at `script_path`.
pub fn asr_runtime_at(platform: Platform, root: &str, script_path: &str) -> (r: AsrRuntime)
    ensures
        r.root@ == root@,
        r.python_path@ == join_on(platform, root@, python_relative(platform)),
        r.ffmpeg_path@ == join_on(platform, root@, ffmpeg_relative(platform)),
        r.script_path@ == script_path@,
{
    let python = bundled_python_relative_path(platform);
    let ffmpeg = bundled_ffmpeg_relative_path(platform);
    AsrRuntime {
        python_path: join_component(platform, root, python.as_str()),
        ffmpeg_path: join_component(platform, root, ffmpeg.as_str()),
        root: owned(root),
        script_path: owned(script_path),
    }
}

/// The runtime's Python and ffmpeg always lie inside its root: each path is the root
/// followed by more (the tool's place in the runtime), never a tool found elsewhere.
pub proof fn lemma_runtime_tools_are_bundled(platform: Platform, root: Seq<char>)
    ensures
        has_prefix(join_on(platform, root, python_relative(platform)), root),
        join_on(platform, root, python_relative(platform)).len() > root.len(),
        has_prefix(join_on(platform, root, ffmpeg_relative(platform)), root),
        join_on(platform, root, ffmpeg_relative(platform)).len() > root.len(),
{
    reveal_strlit("python.exe");
    reveal_strlit("bin");
    reveal_strlit("python");
    reveal_strlit("ffmpeg.exe");
    reveal_strlit("ffmpeg");
    let p = join_on(platform, root, python_relative(platform));
    let f = join_on(platform, root, ffmpeg_relative(platform));
    assert(python_relative(platform).len() > 0);
    assert(ffmpeg_relative(platform).len() > 0);
    assert(p.subrange(0, root.len() as int) =~= root);
    assert(f.subrange(0, root.len() as int) =~= root);
}

/// The directories of the runtime that go first on the sidecar's `PATH`: its `bin`,
/// and on Windows also the root itself and its `Scripts`.
pub open spec fn path_entries(platform: Platform, root: Seq<char>) -> Seq<Seq<char>> {
    if platform == Platform::Windows {
        seq![join_on(platform, root, "bin"@), root, join_on(platform, root, "Scripts"@)]
    } else {
        seq![join_on(platform, root, "bin"@)]
    }
}

/// The directories of the runtime that go first on the sidecar's `PATH`.
pub fn runtime_path_entries(runtime_root: &str, platform: Platform) -> (r: Vec<String>)
    ensures
        r@.map_values(|s: String| s@) == path_entries(platform, runtime_root@),
{
    let mut paths: Vec<String> = Vec::new();
    paths.push(join_component(platform, runtime_root, "bin"));
    match platform {
        Platform::Windows => {
            paths.push(owned(runtime_root));
            paths.push(join_component(platform, runtime_root, "Scripts"));
        },
        _ => {},
    }
    assert(paths@.map_values(|s: String| s@) =~= path_entries(platform, runtime_root@));
    paths
}

/// The error for a missing part of the runtime.
pub open spec fn missing_part(label: Seq<char>, path: Seq<char>) -> Seq<char> {
    label + " missing: "@ + path
}

/// The outcome of the runtime check, given which parts are present: the first missing
/// part (root, Python, ffmpeg, sidecar script) is reported.
pub open spec fn runtime_check(
    runtime: AsrRuntime,
    root_ok: bool,
    python_ok: bool,
    ffmpeg_ok: bool,
    script_ok: bool,
) -> Option<Seq<char>> {
    if !root_ok {
        Some(missing_part("ASR runtime root"@, runtime.root@))
    } else if !python_ok {
        Some(missing_part("bundled Python"@, runtime.python_path@))
    } else if !ffmpeg_ok {
        Some(missing_part("bundled ffmpeg"@, runtime.ffmpeg_path@))
    } else if !script_ok {
        Some(missing_part("FunASR workflow sidecar"@, runtime.script_path@))
    } else {
        None
    }
}

fn missing_part_error(label: &str, path: &str) -> (e: String)
    ensures
        e@ == missing_part(label@, path@),
{
    let mut m = chars_of(label);
    append_chars(&mut m, &chars_of(" missing: "));
    append_chars(&mut m, &chars_of(path));
    string_from_chars(&m)
}

/// The outcome of the runtime check, given which parts are present.
pub fn runtime_check_outcome(
    runtime: &AsrRuntime,
    root_ok: bool,
    python_ok: bool,
    ffmpeg_ok: bool,
    script_ok: bool,
) -> (r: Result<(), String>)
    ensures
        match runtime_check(*runtime, root_ok, python_ok, ffmpeg_ok, script_ok) {
            Some(m) => r matches Err(e) && e@ == m,
            None => r is Ok,
        },
{
    if !root_ok {
        Err(missing_part_error("ASR runtime root", runtime.root.as_str()))
    } else if !python_ok {
        Err(missing_part_error("bundled Python", runtime.python_path.as_str()))
    } else if !ffmpeg_ok {
        Err(missing_part_error("bundled ffmpeg", runtime.ffmpeg_path.as_str()))
    } else if !script_ok {
        Err(missing_part_error("FunASR workflow sidecar", runtime.script_path.as_str()))
    } else {
        Ok(())
    }
}

/// Checks that every part of the runtime is on disk. What is on disk is not known
/// here: the result is the outcome of the check for some presence of the parts.
pub fn validate_asr_runtime(runtime: &AsrRuntime) -> (r: Result<(), String>)
    ensures
        exists|root_ok: bool, python_ok: bool, ffmpeg_ok: bool, script_ok: bool|
            match #[trigger] runtime_check(*runtime, root_ok, python_ok, ffmpeg_ok, script_ok) {
                Some(m) => r matches Err(e) && e@ == m,
                None => r is Ok,
            },
{
    let root_ok = path_exists(runtime.root.as_str());
    let python_ok = path_exists(runtime.python_path.as_str());
    let ffmpeg_ok = path_exists(runtime.ffmpeg_path.as_str());
    let script_ok = path_exists(runtime.script_path.as_str());
    let r = runtime_check_outcome(runtime, root_ok, python_ok, ffmpeg_ok, script_ok);
    assert(match runtime_check(*runtime, root_ok, python_ok, ffmpeg_ok, script_ok) {
        Some(m) => r matches Err(e) && e@ == m,
        None => r is Ok,
    });
    r
}

/// The proxies handed to the sidecar.
pub struct ProxyEnv {
    pub http_proxy: Option<String>,
    pub https_proxy: Option<String>,
    pub all_proxy: Option<String>,
    pub ddgs_proxy: Option<String>,
}

/// A configured proxy: the trimmed value, or `None` where it is absent or blank.
pub open spec fn configured(value: Option<Seq<char>>) -> Option<Seq<char>> {
    match value {
        Some(v) => non_blank(v),
        None => None,
    }
}

/// A configured proxy: the trimmed value, or `None` where it is absent or blank.
pub fn configured_proxy(value: Option<&str>) -> (r: Option<String>)
    ensures
        opt_views(r) == configured(
            match value {
                Some(v) => Some(v@),
                None => None,
            },
        ),
{
    match value {
        Some(v) => {
            let t = trim_chars(&chars_of(v));
            if t.len() == 0 {
                None
            } else {
                Some(string_from_chars(&t))
            }
        },
        None => None,
    }
}

/// The first of two optional values that is present.
pub open spec fn or_else(a: Option<Seq<char>>, b: Option<Seq<char>>) -> Option<Seq<char>> {
    match a {
        Some(x) => Some(x),
        None => b,
    }
}

fn opt_as_str(v: &Option<String>) -> (r: Option<&str>)
    ensures
        match r {
            Some(s) => opt_views(*v) == Some(s@),
            None => v is None,
        },
{
    match v {
        Some(s) => Some(s.as_str()),
        None => None,
    }
}

fn first_present(a: &Option<String>, b: &Option<String>) -> (r: Option<String>)
    ensures
        opt_views(r) == or_else(opt_views(*a), opt_views(*b)),
{
    match a {
        Some(x) => Some(x.clone()),
        None => match b {
            Some(y) => Some(y.clone()),
            None => None,
        },
    }
}

/// The proxies for the sidecar: HTTP as configured; HTTPS as configured, else the HTTP
/// one; the catch-all as configured; the web search proxy from HTTPS, else HTTP, else
/// the catch-all.
pub fn proxy_env_for_settings(settings: &AppSettings) -> (p: ProxyEnv)
    ensures
        ({
            let http = configured(opt_views(settings.http_proxy));
            let https = configured(opt_views(settings.https_proxy));
            let all = configured(opt_views(settings.all_proxy));
            &&& opt_views(p.http_proxy) == http
            &&& opt_views(p.https_proxy) == or_else(https, http)
            &&& opt_views(p.all_proxy) == all
            &&& opt_views(p.ddgs_proxy) == or_else(or_else(https, http), all)
        }),
{
    let http = configured_proxy(opt_as_str(&settings.http_proxy));
    let https = configured_proxy(opt_as_str(&settings.https_proxy));
    let all = configured_proxy(opt_as_str(&settings.all_proxy));
    let https_or_http = first_present(&https, &http);
    let ddgs = first_present(&https_or_http, &all);
    ProxyEnv { http_proxy: http, https_proxy: https_or_http, all_proxy: all, ddgs_proxy: ddgs }
}

/// One variable of the sidecar's environment: set to the value, or removed.
pub struct EnvAssignment {
    pub key: String,
    pub value: Option<String>,
}

/// `a` sets `key` to the configured (trimmed, non-blank) `value`, or removes it.
pub open spec fn assigns(a: EnvAssignment, key: Seq<char>, value: Option<String>) -> bool {
    a.key@ == key && opt_views(a.value) == configured(opt_views(value))
}

fn assignment(key: &str, value: &Option<String>) -> (a: EnvAssignment)
    ensures
        assigns(a, key@, *value),
{
    EnvAssignment { key: owned(key), value: configured_proxy(opt_as_str(value)) }
}

/// How the proxies are handed to the sidecar: each under its lower- and upper-case
/// name, the web search proxy as `DDGS_PROXY`; a proxy that is not set removes its
/// variables, so that none is inherited.
pub fn proxy_env_assignments(env: &ProxyEnv) -> (r: Vec<EnvAssignment>)
    ensures
        r@.len() == 7,
        assigns(r@[0], "http_proxy"@, env.http_proxy),
        assigns(r@[1], "HTTP_PROXY"@, env.http_proxy),
        assigns(r@[2], "https_proxy"@, env.https_proxy),
        assigns(r@[3], "HTTPS_PROXY"@, env.https_proxy),
        assigns(r@[4], "ALL_PROXY"@, env.all_proxy),
        assigns(r@[5], "all_proxy"@, env.all_proxy),
        assigns(r@[6], "DDGS_PROXY"@, env.ddgs_proxy),
{
    let mut r: Vec<EnvAssignment> = Vec::new();
    r.push(assignment("http_proxy", &env.http_proxy));
    r.push(assignment("HTTP_PROXY", &env.http_proxy));
    r.push(assignment("https_proxy", &env.https_proxy));
    r.push(assignment("HTTPS_PROXY", &env.https_proxy));
    r.push(assignment("ALL_PROXY", &env.all_proxy));
    r.push(assignment("all_proxy", &env.all_proxy));
    r.push(assignment("DDGS_PROXY", &env.ddgs_proxy));
    r
}

/// The position of the last `c` in `s`.
pub open spec fn last_index_of(s: Seq<char>, c: char) -> Option<int>
    decreases s.len(),
{
    if s.len() == 0 {
        None
    } else if s.last() == c {
        Some(s.len() - 1)
    } else {
        last_index_of(s.drop_last(), c)
    }
}

/// The position of the first `c` in `s`.
pub open spec fn first_index_of(s: Seq<char>, c: char) -> Option<int>
    decreases s.len(),
{
    if s.len() == 0 {
        None
    } else {
        match first_index_of(s.drop_last(), c) {
            Some(k) => Some(k),
            None => if s.last() == c {
                Some(s.len() - 1)
            } else {
                None
            },
        }
    }
}

/// A proxy as logged: its scheme and host only (credentials and path dropped), or
/// `set` where it has no scheme.
pub open spec fn masked_proxy(proxy: Seq<char>) -> Seq<char> {
    match find_from(proxy, "://"@, 0) {
        None => "set"@,
        Some(i) => {
            let scheme = proxy.take(i);
            let rest = proxy.skip(i + 3);
            let after_at = match last_index_of(rest, '@') {
                Some(k) => rest.skip(k + 1),
                None => rest,
            };
            let host = match first_index_of(after_at, '/') {
                Some(k) => after_at.take(k),
                None => after_at,
            };
            scheme + "://"@ + host
        },
    }
}

fn last_index_exec(s: &[char], c: char) -> (r: Option<usize>)
    ensures
        match r {
            Some(k) => k < s@.len() && last_index_of(s@, c) == Some(k as int),
            None => last_index_of(s@, c) is None,
        },
{
    let mut j: usize = s.len();
    assert(s@.take(j as int) =~= s@);
    while j > 0
        invariant
            j <= s@.len(),
            last_index_of(s@, c) == last_index_of(s@.take(j as int), c),
        decreases j,
    {
        proof {
            assert(s@.take(j as int).drop_last() =~= s@.take(j - 1));
        }
        if s[j - 1] == c {
            return Some(j - 1);
        }
        j -= 1;
    }
    None
}

fn first_index_exec(s: &[char], c: char) -> (r: Option<usize>)
    ensures
        match r {
            Some(k) => k < s@.len() && first_index_of(s@, c) == Some(k as int),
            None => first_index_of(s@, c) is None,
        },
{
    let mut i: usize = 0;
    while i < s.len()
        invariant
            i <= s@.len(),
            first_index_of(s@.take(i as int), c) is None,
            forall|k: int| 0 <= k < i ==> s@[k] != c,
        decreases s.len() - i,
    {
        proof {
            assert(s@.take(i + 1).drop_last() =~= s@.take(i as int));
        }
        if s[i] == c {
            proof {
                lemma_first_index_prefix(s@, c, i as int);
            }
            return Some(i);
        }
        i += 1;
    }
    assert(s@.take(i as int) =~= s@);
    None
}

proof fn lemma_first_index_prefix(s: Seq<char>, c: char, i: int)
    requires
        0 <= i < s.len(),
        s[i] == c,
        forall|k: int| 0 <= k < i ==> s[k] != c,
    ensures
        first_index_of(s, c) == Some(i),
    decreases s.len(),
{
    if i < s.len() - 1 {
        lemma_first_index_prefix(s.drop_last(), c, i);
    } else {
        lemma_first_index_absent(s.drop_last(), c);
    }
}

proof fn lemma_first_index_absent(s: Seq<char>, c: char)
    requires
        forall|k: int| 0 <= k < s.len() ==> s[k] != c,
    ensures
        first_index_of(s, c) is None,
    decreases s.len(),
{
    if s.len() > 0 {
        lemma_first_index_absent(s.drop_last(), c);
    }
}

/// A proxy as logged: scheme and host only.
pub fn mask_proxy(proxy: &str) -> (r: String)
    ensures
        r@ == masked_proxy(proxy@),
{
    let p = chars_of(proxy);
    let sep = chars_of("://");
    proof {
        reveal_strlit("://");
    }
    match find_exec(&p, &sep, 0) {
        None => owned("set"),
        Some(i) => {
            proof {
                crate::text::lemma_find_from(p@, sep@, 0);
                assert(sep@.len() == 3);
                assert(crate::text::occurs_at(p@, sep@, i as int));
                assert(i + 3 <= p@.len());
            }
            let plen = p.len();
            let scheme = crate::text::sub_chars(&p, 0, i);
            let rest = crate::text::sub_chars(&p, i + 3, plen);
            let rlen = rest.len();
            let after_at = match last_index_exec(&rest, '@') {
                Some(k) => crate::text::sub_chars(&rest, k + 1, rlen),
                None => rest,
            };
            let host = match first_index_exec(&after_at, '/') {
                Some(k) => crate::text::sub_chars(&after_at, 0, k),
                None => after_at,
            };
            let mut out = scheme;
            append_chars(&mut out, &sep);
            append_chars(&mut out, &host);
            proof {
                assert(p@.take(i as int) =~= p@.subrange(0, i as int));
                assert(p@.skip(i + 3) =~= p@.subrange(i + 3, p@.len() as int));
            }
            string_from_chars(&out)
        },
    }
}

/// A value as logged: at most `max_chars` characters, with `...` after a cut.
pub open spec fn truncated(value: Seq<char>, max_chars: int) -> Seq<char> {
    if value.len() > max_chars {
        value.take(max_chars) + "..."@
    } else {
        value
    }
}

/// Shortens a value for the log to at most `max_chars` characters, marking a cut.
pub fn truncate_for_log(value: &str, max_chars: usize) -> (r: String)
    ensures
        r@ == truncated(value@, max_chars as int),
{
    let v = chars_of(value);
    if v.len() > max_chars {
        let mut out = crate::text::sub_chars(&v, 0, max_chars);
        append_chars(&mut out, &chars_of("..."));
        proof {
            assert(v@.take(max_chars as int) =~= v@.subrange(0, max_chars as int));
        }
        string_from_chars(&out)
    } else {
        owned(value)
    }
}


/// Seconds an idle speech worker is kept for meeting transcriptions.
pub const ASR_IDLE_TTL_SECS: u64 = 60;

/// Seconds an idle speech worker is kept after a dictation, which is likely to follow
/// soon.
pub const ASR_DICTATION_IDLE_TTL_SECS: u64 = 1200;

/// The profile of a transcription request: `dictation` where the request says so,
/// else a full meeting transcription.
pub open spec fn profile_name(profile: Option<Seq<char>>) -> Seq<char> {
    if profile == Some("dictation"@) {
        "dictation"@
    } else {
        "meeting_full"@
    }
}

/// The profile of a transcription request, from its `payload.profile` field.
pub fn request_profile(profile: Option<&str>) -> (r: &'static str)
    ensures
        r@ == profile_name(
            match profile {
                Some(p) => Some(p@),
                None => None,
            },
        ),
{
    match profile {
        Some(p) => if str_is(p, "dictation") {
            "dictation"
        } else {
            "meeting_full"
        },
        None => "meeting_full",
    }
}

/// How long, in seconds, the speech worker stays up idle after a request of `profile`.
pub open spec fn idle_ttl(profile: Option<Seq<char>>) -> u64 {
    if profile_name(profile) == "dictation"@ {
        ASR_DICTATION_IDLE_TTL_SECS
    } else {
        ASR_IDLE_TTL_SECS
    }
}

/// How long the speech worker stays up idle after a request, by its profile.
pub fn idle_ttl_for_profile(profile: Option<&str>) -> (secs: u64)
    ensures
        secs == idle_ttl(
            match profile {
                Some(p) => Some(p@),
                None => None,
            },
        ),
{
    let name = request_profile(profile);
    if str_is(name, "dictation") {
        ASR_DICTATION_IDLE_TTL_SECS
    } else {
        ASR_IDLE_TTL_SECS
    }
}

/// A dictation keeps the speech worker up idle longer than any other request does.
pub proof fn lemma_dictation_keeps_the_worker_longer(
    dictation: Option<Seq<char>>,
    other: Option<Seq<char>>,
)
    requires
        profile_name(dictation) == "dictation"@,
        profile_name(other) != "dictation"@,
    ensures
        idle_ttl(other) < idle_ttl(dictation),
{
}

/// The error a sidecar reply reports: none unless its `ok` field is `false`; then its
/// error code (`SIDECAR_ERROR` where absent), a colon and its error message (the given
/// default where absent).
pub open spec fn reply_error(
    ok: Option<bool>,
    code: Option<Seq<char>>,
    message: Option<Seq<char>>,
    default_message: Seq<char>,
) -> Option<Seq<char>> {
    if ok != Some(false) {
        None
    } else {
        let c = match code {
            Some(c) => c,
            None => "SIDECAR_ERROR"@,
        };
        let m = match message {
            Some(m) => m,
            None => default_message,
        };
        Some(c + ": "@ + m)
    }
}

/// The error a sidecar reply reports, from its `ok`, `error.code` and `error.message`
/// fields.
pub fn reply_error_message(
    ok: Option<bool>,
    code: Option<&str>,
    message: Option<&str>,
    default_message: &str,
) -> (r: Option<String>)
    ensures
        opt_views(r) == reply_error(
            ok,
            match code {
                Some(c) => Some(c@),
                None => None,
            },
            match message {
                Some(m) => Some(m@),
                None => None,
            },
            default_message@,
        ),
{
    match ok {
        Some(false) => {},
        _ => return None,
    }
    let mut out = match code {
        Some(c) => chars_of(c),
        None => chars_of("SIDECAR_ERROR"),
    };
    append_chars(&mut out, &chars_of(": "));
    match message {
        Some(m) => append_chars(&mut out, &chars_of(m)),
        None => append_chars(&mut out, &chars_of(default_message)),
    }
    Some(string_from_chars(&out))
}

} // verus!
