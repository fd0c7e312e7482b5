//! Recording decisions: when the audio buffers are flushed to disk, whether a recording
//! also captures system audio, what is written when it stops, and the ids recordings are
//! registered under.
use vstd::prelude::*;

use crate::devices::{supports_system_audio, AudioDevice, DeviceType, Platform};
use crate::text::{
    append_chars, chars_of, contains, decimal, decimal_chars, opt_views, owned, str_is,
    string_from_chars, trim, trim_chars,
};

verus! {

broadcast use vstd::string::group_string_axioms;

/// Buffered samples that trigger a flush: about 20 seconds at 16 kHz.
pub const BUFFER_FLUSH_THRESHOLD: usize = 320000;

/// Milliseconds after the last flush that trigger the next one.
pub const BUFFER_FLUSH_INTERVAL_MS: u64 = 10000;

#[verifier::external_type_specification]
#[verifier::external_body]
pub struct ExInstant(std::time::Instant);

/// Whether the buffers are flushed, given how many samples they hold and how many
/// milliseconds passed since the last flush (`None` where there was none).
pub open spec fn flush_due(buffer_len: int, elapsed_ms: Option<u128>) -> bool {
    buffer_len >= BUFFER_FLUSH_THRESHOLD || match elapsed_ms {
        Some(ms) => ms >= BUFFER_FLUSH_INTERVAL_MS,
        None => false,
    }
}

/// Whether the buffers are flushed after `elapsed_ms` since the last flush.
pub fn flush_due_after(buffer_len: usize, elapsed_ms: Option<u128>) -> (b: bool)
    ensures
        b == flush_due(buffer_len as int, elapsed_ms),
{
    if buffer_len >= BUFFER_FLUSH_THRESHOLD {
        return true;
    }
    match elapsed_ms {
        Some(ms) => ms >= BUFFER_FLUSH_INTERVAL_MS as u128,
        None => false,
    }
}

/// `Instant::elapsed().as_millis()`: the milliseconds since `instant`. The clock is not
/// known here, so nothing is stated of the result.
#[verifier::external_body]
fn elapsed_millis(instant: &std::time::Instant) -> u128 {
    instant.elapsed().as_millis()
}

/// Whether the recording buffers are flushed now: when they hold the threshold of
/// samples, or when the flush interval passed since the last flush. The time that passed
/// is read from the clock; the result is the decision for some elapsed time.
pub fn should_flush_buffer(buffer_len: usize, last_flush_time: Option<std::time::Instant>) -> (b:
    bool)
    ensures
        buffer_len >= BUFFER_FLUSH_THRESHOLD ==> b,
        last_flush_time is None ==> b == flush_due(buffer_len as int, None),
        last_flush_time is Some ==> exists|ms: u128|
            #[trigger] flush_due(buffer_len as int, Some(ms)) == b,
{
    let elapsed = match &last_flush_time {
        Some(t) => Some(elapsed_millis(t)),
        None => None,
    };
    let b = flush_due_after(buffer_len, elapsed);
    proof {
        if let Some(ms) = elapsed {
            assert(flush_due(buffer_len as int, Some(ms)) == b);
        }
    }
    b
}

/// What a recording captures.
#[derive(PartialEq, Eq, Structural, Clone, Copy, Debug)]
pub enum RecordingMode {
    /// The microphone alone.
    MicrophoneOnly,
    /// The microphone mixed with the system's audio output.
    MixedAudio,
}

/// The mode a recording starts in: mixed audio when the default output device can be
/// captured on this platform (on macOS only once the capture is permitted), else the
/// microphone alone.
pub open spec fn recording_mode_spec(
    system_device: Option<AudioDevice>,
    platform: Platform,
    system_audio_permitted: bool,
) -> RecordingMode {
    match system_device {
        Some(d) => if d.device_type == DeviceType::Output && (platform == Platform::MacOs
            || platform == Platform::Windows || (platform == Platform::Linux && contains(
            d.name@,
            "monitor"@,
        ))) {
            if platform == Platform::MacOs && !system_audio_permitted {
                RecordingMode::MicrophoneOnly
            } else {
                RecordingMode::MixedAudio
            }
        } else {
            RecordingMode::MicrophoneOnly
        },
        None => RecordingMode::MicrophoneOnly,
    }
}

/// The mode a recording starts in. `system_device` is the default output device, where
/// there is one; `system_audio_permitted` says whether macOS permits capturing it.
pub fn recording_mode_for(
    system_device: Option<&AudioDevice>,
    platform: Platform,
    system_audio_permitted: bool,
) -> (m: RecordingMode)
    ensures
        m == recording_mode_spec(
            match system_device {
                Some(d) => Some(*d),
                None => None,
            },
            platform,
            system_audio_permitted,
        ),
{
    match system_device {
        Some(d) => {
            if supports_system_audio(d, platform) {
                match platform {
                    Platform::MacOs => if system_audio_permitted {
                        RecordingMode::MixedAudio
                    } else {
                        RecordingMode::MicrophoneOnly
                    },
                    _ => RecordingMode::MixedAudio,
                }
            } else {
                RecordingMode::MicrophoneOnly
            }
        },
        None => RecordingMode::MicrophoneOnly,
    }
}

/// What `Path::file_stem` gives for the path: the file name without its last extension.
/// Which characters separate components is the target platform's path syntax.
pub uninterp spec fn path_file_stem(path: Seq<char>) -> Option<Seq<char>>;

/// What `Path::file_name` gives for the path: its last component, by the target
/// platform's path syntax.
pub uninterp spec fn path_file_name(path: Seq<char>) -> Option<Seq<char>>;

/// What `Path::parent` gives for the path: the path without its last component, by the
/// target platform's path syntax.
pub uninterp spec fn path_parent(path: Seq<char>) -> Option<Seq<char>>;

/// `Path::file_stem` of the path, as text (`OsStr::to_str`).
#[verifier::external_body]
pub(crate) fn file_stem_of(path: &str) -> (r: Option<String>)
    ensures
        opt_views(r) == path_file_stem(path@),
{
    std::path::Path::new(path).file_stem().and_then(|v| v.to_str()).map(|v| v.to_string())
}

/// `Path::file_name` of the path, as text (`OsStr::to_str`).
#[verifier::external_body]
pub(crate) fn file_name_of(path: &str) -> (r: Option<String>)
    ensures
        opt_views(r) == path_file_name(path@),
{
    std::path::Path::new(path).file_name().and_then(|v| v.to_str()).map(|v| v.to_string())
}

/// `Path::parent` of the path, as text (`Path::to_str`).
#[verifier::external_body]
fn parent_of(path: &str) -> (r: Option<String>)
    ensures
        opt_views(r) == path_parent(path@),
{
    std::path::Path::new(path).parent().and_then(|v| v.to_str()).map(|v| v.to_string())
}

/// A lowercase hexadecimal digit.
pub open spec fn is_lower_hex(c: char) -> bool {
    ('0' <= c && c <= '9') || ('a' <= c && c <= 'f')
}

/// `uuid::Uuid::new_v4().to_string()`: a fresh random id, written in the hyphenated
/// form (8-4-4-4-12 lowercase hexadecimal digits) with the version digit 4. Which digits
/// come out is random and not stated.
#[verifier::external_body]
pub(crate) fn new_uuid() -> (id: String)
    ensures
        id@.len() == 36,
        forall|i: int|
            0 <= i < 36 ==> if i == 8 || i == 13 || i == 18 || i == 23 {
                id@[i] == '-'
            } else {
                is_lower_hex(#[trigger] id@[i])
            },
        id@[14] == '4',
{
    uuid::Uuid::new_v4().to_string()
}

/// The workspace a recording belongs to, from the names along its path: the recording
/// lies in `workspaces/<workspace>/recordings/`, with a non-blank workspace name.
pub open spec fn workspace_from_names(
    recordings_dir_name: Option<Seq<char>>,
    workspaces_dir_name: Option<Seq<char>>,
    workspace_name: Option<Seq<char>>,
) -> Option<Seq<char>> {
    if recordings_dir_name == Some("recordings"@) && workspaces_dir_name == Some("workspaces"@) {
        match workspace_name {
            Some(w) => if trim(w).len() == 0 {
                None
            } else {
                Some(w)
            },
            None => None,
        }
    } else {
        None
    }
}

/// The workspace a recording belongs to, from the names along its path.
pub fn workspace_folder_from_names(
    recordings_dir_name: Option<String>,
    workspaces_dir_name: Option<String>,
    workspace_name: Option<String>,
) -> (r: Option<String>)
    ensures
        opt_views(r) == workspace_from_names(
            opt_views(recordings_dir_name),
            opt_views(workspaces_dir_name),
            opt_views(workspace_name),
        ),
{
    let recordings_ok = match &recordings_dir_name {
        Some(n) => str_is(n.as_str(), "recordings"),
        None => false,
    };
    let workspaces_ok = match &workspaces_dir_name {
        Some(n) => str_is(n.as_str(), "workspaces"),
        None => false,
    };
    if !(recordings_ok && workspaces_ok) {
        return None;
    }
    match workspace_name {
        Some(w) => {
            let t = trim_chars(&chars_of(w.as_str()));
            if t.len() == 0 {
                None
            } else {
                Some(w)
            }
        },
        None => None,
    }
}

/// The names along a recording's path: of its directory, of the directory two levels
/// up, and of the directory in between.
pub open spec fn names_along(path: Seq<char>) -> (
    Option<Seq<char>>,
    Option<Seq<char>>,
    Option<Seq<char>>,
) {
    match path_parent(path) {
        None => (None, None, None),
        Some(recordings_dir) => match path_parent(recordings_dir) {
            None => (path_file_name(recordings_dir), None, None),
            Some(workspace_dir) => match path_parent(workspace_dir) {
                None => (path_file_name(recordings_dir), None, path_file_name(workspace_dir)),
                Some(workspaces_dir) => (
                    path_file_name(recordings_dir),
                    path_file_name(workspaces_dir),
                    path_file_name(workspace_dir),
                ),
            },
        },
    }
}

/// The workspace a recording belongs to, from the names along its path.
pub open spec fn recording_workspace(path: Seq<char>) -> Option<Seq<char>> {
    let names = names_along(path);
    workspace_from_names(names.0, names.1, names.2)
}

/// The workspace a recording belongs to, from its path.
pub fn workspace_folder_from_recording_path(path: &str) -> (r: Option<String>)
    ensures
        opt_views(r) == recording_workspace(path@),
{
    let (recordings_name, workspaces_name, workspace_name) = match parent_of(path) {
        None => (None, None, None),
        Some(recordings_dir) => match parent_of(recordings_dir.as_str()) {
            None => (file_name_of(recordings_dir.as_str()), None, None),
            Some(workspace_dir) => match parent_of(workspace_dir.as_str()) {
                None => (file_name_of(recordings_dir.as_str()), None, file_name_of(workspace_dir.as_str())),
                Some(workspaces_dir) => (
                    file_name_of(recordings_dir.as_str()),
                    file_name_of(workspaces_dir.as_str()),
                    file_name_of(workspace_dir.as_str()),
                ),
            },
        },
    };
    workspace_folder_from_names(recordings_name, workspaces_name, workspace_name)
}

/// The id of a recording: its file stem (or `fallback_id` where the stem is blank),
/// prefixed by its workspace and `__` where it belongs to one.
pub open spec fn recording_id_spec(
    stem: Option<Seq<char>>,
    workspace_folder: Option<Seq<char>>,
    fallback_id: Seq<char>,
) -> Seq<char> {
    let base = match stem {
        Some(s) => if trim(s).len() == 0 {
            fallback_id
        } else {
            s
        },
        None => fallback_id,
    };
    match workspace_folder {
        Some(w) => w + "__"@ + base,
        None => base,
    }
}

/// The id of a recording from its stem and workspace.
pub fn recording_id_from_parts(
    stem: Option<String>,
    workspace_folder: Option<String>,
    fallback_id: &str,
) -> (r: String)
    ensures
        r@ == recording_id_spec(opt_views(stem), opt_views(workspace_folder), fallback_id@),
{
    let base = match stem {
        Some(s) => {
            let t = trim_chars(&chars_of(s.as_str()));
            if t.len() == 0 {
                owned(fallback_id)
            } else {
                s
            }
        },
        None => owned(fallback_id),
    };
    match workspace_folder {
        Some(w) => {
            let mut out = chars_of(w.as_str());
            append_chars(&mut out, &chars_of("__"));
            append_chars(&mut out, &chars_of(base.as_str()));
            string_from_chars(&out)
        },
        None => base,
    }
}

/// The id a recording file is registered under: its stem (a fresh random id where the
/// stem is blank), prefixed by its workspace where it lies in one.
pub fn recording_id_from_path(path: &str) -> (r: String)
    ensures
        exists|fallback: Seq<char>|
            fallback.len() == 36 && r@ == #[trigger] recording_id_spec(
                path_file_stem(path@),
                recording_workspace(path@),
                fallback,
            ),
{
    let stem = file_stem_of(path);
    let needs_fallback = match &stem {
        Some(s) => trim_chars(&chars_of(s.as_str())).len() == 0,
        None => true,
    };
    let workspace = workspace_folder_from_recording_path(path);
    if needs_fallback {
        let id = new_uuid();
        recording_id_from_parts(stem, workspace, id.as_str())
    } else {
        let ghost any_id = Seq::new(36, |i: int| 'x');
        let r = recording_id_from_parts(stem, workspace, "");
        assert(r@ == recording_id_spec(path_file_stem(path@), opt_views(workspace), any_id));
        r
    }
}

/// What is written when a recording stops: whether the microphone's and the system's
/// last samples go to a final segment, and how many segments there are then.
#[derive(PartialEq, Eq, Structural, Clone, Copy, Debug)]
pub struct FinalSegments {
    pub write_mic: bool,
    pub write_system: bool,
    pub segment_count: u32,
}

/// Whether the samples left in the buffers make a final segment: they do where there is
/// a temporary directory and either buffer holds samples.
pub open spec fn writes_final_segment(has_temp_dir: bool, mic_samples: usize, system_samples: usize) -> bool {
    has_temp_dir && (mic_samples > 0 || system_samples > 0)
}

/// What is written when a recording stops, after `segment_count` segments were flushed:
/// the buffers that hold samples go to one more segment (where there is a temporary
/// directory). A recording without any segment is refused, and so is one whose
/// segments cannot be merged for want of a temporary directory.
pub fn final_segments(
    segment_count: u32,
    has_temp_dir: bool,
    mic_samples: usize,
    system_samples: usize,
) -> (r: Result<FinalSegments, String>)
    requires
        segment_count < u32::MAX,
    ensures
        ({
            let writes = writes_final_segment(has_temp_dir, mic_samples, system_samples);
            let total = if writes {
                segment_count + 1
            } else {
                segment_count as int
            };
            &&& total == 0 ==> (r matches Err(e) && e@ == "No audio data captured"@)
            &&& total > 0 && !has_temp_dir ==> (r matches Err(e) && e@
                == "No temp directory available for processing"@)
            &&& total > 0 && has_temp_dir ==> r == Ok::<FinalSegments, String>(
                FinalSegments {
                    write_mic: writes && mic_samples > 0,
                    write_system: writes && system_samples > 0,
                    segment_count: total as u32,
                },
            )
        }),
{
    let writes = has_temp_dir && (mic_samples > 0 || system_samples > 0);
    let total = if writes {
        segment_count + 1
    } else {
        segment_count
    };
    if total == 0 {
        return Err(owned("No audio data captured"));
    }
    if !has_temp_dir {
        return Err(owned("No temp directory available for processing"));
    }
    Ok(
        FinalSegments {
            write_mic: writes && mic_samples > 0,
            write_system: writes && system_samples > 0,
            segment_count: total,
        },
    )
}

/// `n` in decimal with leading zeros up to `width` digits, as `{:0width$}` writes it.
pub open spec fn zero_padded(n: nat, width: nat) -> Seq<char> {
    let d = decimal(n);
    if d.len() >= width {
        d
    } else {
        Seq::new((width - d.len()) as nat, |i: int| '0') + d
    }
}

/// The name of the temporary file that holds one channel ("mic" or "system") of one
/// flushed segment of a recording.
pub open spec fn temp_segment_name(channel: Seq<char>, segment_index: nat) -> Seq<char> {
    "temp_"@ + channel + "_"@ + zero_padded(segment_index, 3) + ".raw"@
}

/// The name of the temporary file of `channel` for the segment `segment_index`: the
/// same name for the writer, the reader and the clean-up of that segment.
pub fn temp_segment_file_name(channel: &str, segment_index: u32) -> (r: String)
    ensures
        r@ == temp_segment_name(channel@, segment_index as nat),
{
    let digits = decimal_chars(segment_index as u64);
    let mut out = chars_of("temp_");
    append_chars(&mut out, &chars_of(channel));
    append_chars(&mut out, &chars_of("_"));
    let ghost head = out@;
    let pad: usize = if digits.len() < 3 {
        3 - digits.len()
    } else {
        0
    };
    let mut i: usize = 0;
    while i < pad
        invariant
            i <= pad,
            out@ == head + Seq::new(i as nat, |k: int| '0'),
        decreases pad - i,
    {
        out.push('0');
        i = i + 1;
        proof {
            assert(out@ =~= head + Seq::new(i as nat, |k: int| '0'));
        }
    }
    append_chars(&mut out, &digits);
    append_chars(&mut out, &chars_of(".raw"));
    proof {
        let d = decimal(segment_index as nat);
        if d.len() >= 3 {
            assert(Seq::new(0nat, |k: int| '0') =~= Seq::<char>::empty());
            assert(head + Seq::new(0nat, |k: int| '0') =~= head);
        }
        assert(out@ =~= temp_segment_name(channel@, segment_index as nat));
    }
    string_from_chars(&out)
}

} // verus!
