//! Audio devices and the privacy-permission guidance shown when capture fails.
use vstd::prelude::*;

use crate::text::{append_chars, chars_of, contains, contains_exec, owned, str_is, string_from_chars};

verus! {

broadcast use vstd::string::group_string_axioms;

/// Whether a device captures or plays.
#[derive(PartialEq, Eq, Structural, Clone, Copy, Debug)]
pub enum DeviceType {
    Input,
    Output,
}

/// An audio device as the recorder lists it.
pub struct AudioDevice {
    pub name: String,
    pub device_type: DeviceType,
}

impl AudioDevice {
    /// A device with this name and kind.
    pub fn new(name: String, device_type: DeviceType) -> (d: Self)
        ensures
            d.name == name,
            d.device_type == device_type,
    {
        AudioDevice { name, device_type }
    }

    /// `name (input)` or `name (output)`, as the device list prints it.
    pub fn display_label(&self) -> (s: String)
        ensures
            s@ == self.name@ + (if self.device_type == DeviceType::Input {
                " (input)"@
            } else {
                " (output)"@
            }),
    {
        let mut out = chars_of(self.name.as_str());
        match self.device_type {
            DeviceType::Input => append_chars(&mut out, &chars_of(" (input)")),
            DeviceType::Output => append_chars(&mut out, &chars_of(" (output)")),
        }
        string_from_chars(&out)
    }
}

/// The operating system the app runs on.
#[derive(PartialEq, Eq, Structural, Clone, Copy, Debug)]
pub enum Platform {
    MacOs,
    Windows,
    Linux,
    Other,
}

/// The platform named by `std::env::consts::OS`.
pub fn platform_from_os(os: &str) -> (p: Platform)
    ensures
        os@ == "macos"@ ==> p == Platform::MacOs,
        os@ == "windows"@ ==> p == Platform::Windows,
        os@ == "linux"@ ==> p == Platform::Linux,
        os@ != "macos"@ && os@ != "windows"@ && os@ != "linux"@ ==> p == Platform::Other,
{
    proof {
        reveal_strlit("macos");
        reveal_strlit("windows");
        reveal_strlit("linux");
        assert("windows"@.len() != "macos"@.len());
        assert("linux"@[0] != "macos"@[0]);
        assert("linux"@.len() != "windows"@.len());
    }
    if str_is(os, "macos") {
        Platform::MacOs
    } else if str_is(os, "windows") {
        Platform::Windows
    } else if str_is(os, "linux") {
        Platform::Linux
    } else {
        Platform::Other
    }
}

/// Whether a device can capture system audio: output devices on macOS
/// (ScreenCaptureKit) and Windows (WASAPI loopback), PulseAudio `monitor` sources
/// on Linux, nothing elsewhere.
pub fn supports_system_audio(device: &AudioDevice, platform: Platform) -> (b: bool)
    ensures
        b == (device.device_type == DeviceType::Output && (platform == Platform::MacOs
            || platform == Platform::Windows || (platform == Platform::Linux && contains(
            device.name@,
            "monitor"@,
        )))),
{
    match device.device_type {
        DeviceType::Input => false,
        DeviceType::Output => match platform {
            Platform::MacOs => true,
            Platform::Windows => true,
            Platform::Linux => contains_exec(&chars_of(device.name.as_str()), &chars_of("monitor")),
            Platform::Other => false,
        },
    }
}

/// Which privacy setting to open.
#[derive(PartialEq, Eq, Structural, Clone, Copy, Debug)]
pub enum PermissionSettingsTarget {
    Microphone,
    SystemAudio,
    Accessibility,
    General,
}

/// The settings target a frontend request names.
pub fn permission_settings_target(target: Option<&str>) -> (t: PermissionSettingsTarget)
    ensures
        t == match target {
            Some(s) => if s@ == "microphone"@ {
                PermissionSettingsTarget::Microphone
            } else if s@ == "system_audio"@ {
                PermissionSettingsTarget::SystemAudio
            } else if s@ == "accessibility"@ {
                PermissionSettingsTarget::Accessibility
            } else {
                PermissionSettingsTarget::General
            },
            None => PermissionSettingsTarget::General,
        },
{
    proof {
        reveal_strlit("microphone");
        reveal_strlit("system_audio");
        reveal_strlit("accessibility");
    }
    match target {
        Some(s) => if str_is(s, "microphone") {
            PermissionSettingsTarget::Microphone
        } else if str_is(s, "system_audio") {
            PermissionSettingsTarget::SystemAudio
        } else if str_is(s, "accessibility") {
            PermissionSettingsTarget::Accessibility
        } else {
            PermissionSettingsTarget::General
        },
        None => PermissionSettingsTarget::General,
    }
}

/// The setting to open after a permission check: the microphone first, then
/// system audio.
pub fn failed_permission_target(microphone_ok: bool, system_audio_ok: bool) -> (t:
    PermissionSettingsTarget)
    ensures
        !microphone_ok ==> t == PermissionSettingsTarget::Microphone,
        microphone_ok && !system_audio_ok ==> t == PermissionSettingsTarget::SystemAudio,
        microphone_ok && system_audio_ok ==> t == PermissionSettingsTarget::General,
{
    if !microphone_ok {
        PermissionSettingsTarget::Microphone
    } else if !system_audio_ok {
        PermissionSettingsTarget::SystemAudio
    } else {
        PermissionSettingsTarget::General
    }
}

/// Whether settings are opened after a check: only on request, and only when
/// something failed.
pub fn should_open_permission_settings(
    open_settings_on_failure: bool,
    microphone_ok: bool,
    system_audio_ok: bool,
) -> (b: bool)
    ensures
        b == (open_settings_on_failure && (!microphone_ok || !system_audio_ok)),
{
    open_settings_on_failure && (!microphone_ok || !system_audio_ok)
}

/// The macOS settings URLs to try in order, each with the message shown when it
/// opens.
pub fn macos_privacy_settings_urls(target: PermissionSettingsTarget) -> (urls: Vec<
    (&'static str, &'static str),
>)
    ensures
        target == PermissionSettingsTarget::General ==> urls@.len() == 1,
        target != PermissionSettingsTarget::General ==> urls@.len() == 2,
        urls@.last().0@ == "x-apple.systempreferences:com.apple.preference.security"@,
        target == PermissionSettingsTarget::Microphone ==> urls@[0].0@
            == "x-apple.systempreferences:com.apple.preference.security?Privacy_Microphone"@,
        target == PermissionSettingsTarget::SystemAudio ==> urls@[0].0@
            == "x-apple.systempreferences:com.apple.preference.security?Privacy_ScreenCapture"@,
        target == PermissionSettingsTarget::Accessibility ==> urls@[0].0@
            == "x-apple.systempreferences:com.apple.preference.security?Privacy_Accessibility"@,
        target == PermissionSettingsTarget::Microphone ==> urls@[0].1@
            == "已打开 macOS 麦克风隐私设置，请允许 H-VibeRec"@ && urls@[1].1@
            == "已打开 macOS 隐私与安全性设置，请检查麦克风权限"@,
        target == PermissionSettingsTarget::SystemAudio ==> urls@[0].1@
            == "已打开 macOS 屏幕与系统音频录制设置，请允许 H-VibeRec"@ && urls@[1].1@
            == "已打开 macOS 隐私与安全性设置，请检查屏幕与系统音频录制"@,
        target == PermissionSettingsTarget::Accessibility ==> urls@[0].1@
            == "已打开 macOS 辅助功能隐私设置，请允许 H-VibeRec"@ && urls@[1].1@
            == "已打开 macOS 隐私与安全性设置，请检查辅助功能权限"@,
        target == PermissionSettingsTarget::General ==> urls@[0].1@
            == "已打开 macOS 隐私与安全性设置，请检查麦克风和屏幕与系统音频录制"@,
{
    let general = "x-apple.systempreferences:com.apple.preference.security";
    match target {
        PermissionSettingsTarget::Microphone => vec![
            (
                "x-apple.systempreferences:com.apple.preference.security?Privacy_Microphone",
                "已打开 macOS 麦克风隐私设置，请允许 H-VibeRec",
            ),
            (general, "已打开 macOS 隐私与安全性设置，请检查麦克风权限"),
        ],
        PermissionSettingsTarget::SystemAudio => vec![
            (
                "x-apple.systempreferences:com.apple.preference.security?Privacy_ScreenCapture",
                "已打开 macOS 屏幕与系统音频录制设置，请允许 H-VibeRec",
            ),
            (general, "已打开 macOS 隐私与安全性设置，请检查屏幕与系统音频录制"),
        ],
        PermissionSettingsTarget::Accessibility => vec![
            (
                "x-apple.systempreferences:com.apple.preference.security?Privacy_Accessibility",
                "已打开 macOS 辅助功能隐私设置，请允许 H-VibeRec",
            ),
            (general, "已打开 macOS 隐私与安全性设置，请检查辅助功能权限"),
        ],
        PermissionSettingsTarget::General => vec![
            (general, "已打开 macOS 隐私与安全性设置，请检查麦克风和屏幕与系统音频录制"),
        ],
    }
}

/// The Windows settings URIs to try in order, each with the message shown when it
/// opens.
pub fn windows_privacy_settings_uris(target: PermissionSettingsTarget) -> (uris: Vec<
    (&'static str, &'static str),
>)
    ensures
        target == PermissionSettingsTarget::Microphone ==> uris@.len() == 2 && uris@[0].0@
            == "ms-settings:privacy-microphone"@ && uris@[0].1@
            == "已打开 Windows 麦克风隐私设置，请允许桌面应用访问麦克风"@ && uris@[1].0@
            == "ms-settings:privacy"@ && uris@[1].1@ == "已打开 Windows 隐私设置，请检查麦克风权限"@,
        target == PermissionSettingsTarget::SystemAudio ==> uris@.len() == 1 && uris@[0].0@
            == "ms-settings:sound"@ && uris@[0].1@ == "已打开 Windows 声音设置，请检查输入/输出设备"@,
        target == PermissionSettingsTarget::Accessibility ==> uris@.len() == 1 && uris@[0].0@
            == "ms-settings:privacy"@ && uris@[0].1@
            == "已打开 Windows 隐私设置；语音输入自动写入当前仅支持 macOS Accessibility"@,
        target == PermissionSettingsTarget::General ==> uris@.len() == 1 && uris@[0].0@
            == "ms-settings:privacy-microphone"@ && uris@[0].1@
            == "已打开 Windows 麦克风隐私设置，请允许桌面应用访问麦克风"@,
{
    match target {
        PermissionSettingsTarget::Microphone => vec![
            ("ms-settings:privacy-microphone", "已打开 Windows 麦克风隐私设置，请允许桌面应用访问麦克风"),
            ("ms-settings:privacy", "已打开 Windows 隐私设置，请检查麦克风权限"),
        ],
        PermissionSettingsTarget::SystemAudio => vec![
            ("ms-settings:sound", "已打开 Windows 声音设置，请检查输入/输出设备"),
        ],
        PermissionSettingsTarget::Accessibility => vec![
            ("ms-settings:privacy", "已打开 Windows 隐私设置；语音输入自动写入当前仅支持 macOS Accessibility"),
        ],
        PermissionSettingsTarget::General => vec![
            ("ms-settings:privacy-microphone", "已打开 Windows 麦克风隐私设置，请允许桌面应用访问麦克风"),
        ],
    }
}

/// The manual instructions on macOS when no settings URL could be opened.
pub fn macos_manual_settings_hint(target: PermissionSettingsTarget) -> (s: &'static str)
    ensures
        s@ == match target {
            PermissionSettingsTarget::Microphone => "无法自动打开 macOS 麦克风设置，请手动进入 系统设置 > 隐私与安全性 > 麦克风"@,
            PermissionSettingsTarget::SystemAudio => "无法自动打开 macOS 系统音频设置，请手动进入 系统设置 > 隐私与安全性 > 屏幕与系统音频录制"@,
            PermissionSettingsTarget::Accessibility => "无法自动打开 macOS 辅助功能设置，请手动进入 系统设置 > 隐私与安全性 > 辅助功能"@,
            PermissionSettingsTarget::General => "无法自动打开 macOS 权限设置，请手动进入 系统设置 > 隐私与安全性 > 麦克风 / 屏幕与系统音频录制"@,
        },
{
    match target {
        PermissionSettingsTarget::Microphone => "无法自动打开 macOS 麦克风设置，请手动进入 系统设置 > 隐私与安全性 > 麦克风",
        PermissionSettingsTarget::SystemAudio => "无法自动打开 macOS 系统音频设置，请手动进入 系统设置 > 隐私与安全性 > 屏幕与系统音频录制",
        PermissionSettingsTarget::Accessibility => "无法自动打开 macOS 辅助功能设置，请手动进入 系统设置 > 隐私与安全性 > 辅助功能",
        PermissionSettingsTarget::General => "无法自动打开 macOS 权限设置，请手动进入 系统设置 > 隐私与安全性 > 麦克风 / 屏幕与系统音频录制",
    }
}

/// The manual instructions on Windows when no settings URI could be opened.
pub fn windows_manual_settings_hint(target: PermissionSettingsTarget) -> (s: &'static str)
    ensures
        s@ == match target {
            PermissionSettingsTarget::Microphone => "无法自动打开 Windows 麦克风设置，请手动进入 设置 > 隐私和安全性 > 麦克风"@,
            PermissionSettingsTarget::SystemAudio => "无法自动打开 Windows 声音设置，请手动进入 设置 > 系统 > 声音"@,
            PermissionSettingsTarget::Accessibility => "当前平台不支持 macOS Accessibility，请手动检查系统辅助功能或隐私设置"@,
            PermissionSettingsTarget::General => "无法自动打开 Windows 权限设置，请手动进入 设置 > 隐私和安全性 > 麦克风"@,
        },
{
    match target {
        PermissionSettingsTarget::Microphone => "无法自动打开 Windows 麦克风设置，请手动进入 设置 > 隐私和安全性 > 麦克风",
        PermissionSettingsTarget::SystemAudio => "无法自动打开 Windows 声音设置，请手动进入 设置 > 系统 > 声音",
        PermissionSettingsTarget::Accessibility => "当前平台不支持 macOS Accessibility，请手动检查系统辅助功能或隐私设置",
        PermissionSettingsTarget::General => "无法自动打开 Windows 权限设置，请手动进入 设置 > 隐私和安全性 > 麦克风",
    }
}

/// Where to look for audio permissions on each platform.
pub fn platform_settings_hint(platform: &str) -> (s: &'static str)
    ensures
        platform@ == "macos"@ ==> s@ == "macOS：系统设置 > 隐私与安全性 > 麦克风 / 屏幕与系统音频录制"@,
        platform@ == "windows"@ ==> s@ == "Windows：设置 > 隐私和安全性 > 麦克风，并允许桌面应用访问麦克风"@,
        platform@ != "macos"@ && platform@ != "windows"@ ==> s@ == "请在系统隐私设置中检查音频输入权限"@,
{
    proof {
        reveal_strlit("macos");
        reveal_strlit("windows");
        assert("windows"@.len() != "macos"@.len());
    }
    if str_is(platform, "macos") {
        "macOS：系统设置 > 隐私与安全性 > 麦克风 / 屏幕与系统音频录制"
    } else if str_is(platform, "windows") {
        "Windows：设置 > 隐私和安全性 > 麦克风，并允许桌面应用访问麦克风"
    } else {
        "请在系统隐私设置中检查音频输入权限"
    }
}

/// What `str::to_lowercase` returns for `s` (Unicode lowercase mapping).
pub uninterp spec fn unicode_lowercase(s: Seq<char>) -> Seq<char>;

/// `str::to_lowercase`. The Unicode lowercase mapping is named, not written out.
#[verifier::external_body]
pub(crate) fn to_lowercase(s: &str) -> (out: String)
    ensures
        out@ == unicode_lowercase(s@),
{
    s.to_lowercase()
}

/// The message shown for a failed permission check.
pub open spec fn permission_error_spec(prefix: Seq<char>, message: Seq<char>) -> Seq<char> {
    if contains(message, "TCC"@) || contains(unicode_lowercase(message), "permission"@) {
        prefix + "：系统隐私权限未授权或已被拒绝"@
    } else {
        prefix + "："@ + message
    }
}

/// A permission failure reads as a privacy denial when the error mentions TCC or
/// a permission; other errors are shown as they are.
pub fn format_permission_error(prefix: &str, message: &str) -> (out: String)
    ensures
        out@ == permission_error_spec(prefix@, message@),
{
    let m = chars_of(message);
    let lower = to_lowercase(message);
    let mut out = chars_of(prefix);
    if contains_exec(&m, &chars_of("TCC")) || contains_exec(
        &chars_of(lower.as_str()),
        &chars_of("permission"),
    ) {
        append_chars(&mut out, &chars_of("：系统隐私权限未授权或已被拒绝"));
    } else {
        append_chars(&mut out, &chars_of("："));
        append_chars(&mut out, &m);
    }
    string_from_chars(&out)
}

/// The result of an audio permission check.
pub struct AudioPermissionStatus {
    pub platform: String,
    pub microphone_ok: bool,
    pub microphone_message: String,
    pub system_audio_ok: bool,
    pub system_audio_message: String,
    pub opened_settings: bool,
    pub settings_message: String,
}

/// Assembles the permission report from the two capture checks (`None` when a
/// capture worked, else its error) and the settings outcome.
pub fn audio_permission_status(
    platform: String,
    microphone_error: Option<String>,
    system_audio_error: Option<String>,
    opened_settings: bool,
    settings_message: String,
) -> (s: AudioPermissionStatus)
    ensures
        s.platform == platform,
        s.microphone_ok == (microphone_error is None),
        s.system_audio_ok == (system_audio_error is None),
        s.opened_settings == opened_settings,
        s.settings_message == settings_message,
        s.microphone_message@ == match microphone_error {
            None => "麦克风权限可用"@,
            Some(e) => permission_error_spec("麦克风权限不可用"@, e@),
        },
        s.system_audio_message@ == match system_audio_error {
            None => "系统音频捕捉权限可用"@,
            Some(e) => permission_error_spec("系统音频捕捉权限不可用"@, e@),
        },
{
    let microphone_ok = microphone_error.is_none();
    let system_audio_ok = system_audio_error.is_none();
    let microphone_message = match &microphone_error {
        None => owned("麦克风权限可用"),
        Some(e) => format_permission_error("麦克风权限不可用", e.as_str()),
    };
    let system_audio_message = match &system_audio_error {
        None => owned("系统音频捕捉权限可用"),
        Some(e) => format_permission_error("系统音频捕捉权限不可用", e.as_str()),
    };
    AudioPermissionStatus {
        platform,
        microphone_ok,
        microphone_message,
        system_audio_ok,
        system_audio_message,
        opened_settings,
        settings_message,
    }
}


/// Whether a device the system lists is the one asked for: its name is the requested
/// name or contains it.
pub open spec fn device_name_matches_spec(name: Seq<char>, wanted: Seq<char>) -> bool {
    name == wanted || contains(name, wanted)
}

/// Whether a device the system lists is the one asked for.
pub fn device_name_matches(name: &str, wanted: &str) -> (b: bool)
    ensures
        b == device_name_matches_spec(name@, wanted@),
{
    str_is(name, wanted) || contains_exec(&chars_of(name), &chars_of(wanted))
}

/// A stream configuration a device supports, as far as the choice between them goes:
/// whether its samples are 32-bit floats, and its number of channels.
#[derive(PartialEq, Eq, Structural, Clone, Copy, Debug)]
pub struct StreamConfigShape {
    pub float_samples: bool,
    pub channels: u16,
}

/// The first position whose configuration satisfies `f`.
pub open spec fn first_config(configs: Seq<StreamConfigShape>, f: spec_fn(StreamConfigShape) -> bool) -> Option<int>
    decreases configs.len(),
{
    if configs.len() == 0 {
        None
    } else {
        match first_config(configs.drop_last(), f) {
            Some(k) => Some(k),
            None => if f(configs.last()) {
                Some(configs.len() - 1)
            } else {
                None
            },
        }
    }
}

/// Stereo float configurations.
pub open spec fn stereo_float() -> spec_fn(StreamConfigShape) -> bool {
    |c: StreamConfigShape| c.float_samples && c.channels == 2
}

/// Float configurations.
pub open spec fn any_float() -> spec_fn(StreamConfigShape) -> bool {
    |c: StreamConfigShape| c.float_samples
}

/// The configuration a recording uses among those a device supports: the first stereo
/// float one, else the first float one, else the first one; none where the device
/// lists none.
pub open spec fn preferred_config(configs: Seq<StreamConfigShape>) -> Option<int> {
    match first_config(configs, stereo_float()) {
        Some(k) => Some(k),
        None => match first_config(configs, any_float()) {
            Some(k) => Some(k),
            None => if configs.len() > 0 {
                Some(0)
            } else {
                None
            },
        },
    }
}

fn find_config(configs: &Vec<StreamConfigShape>, stereo_only: bool) -> (r: Option<usize>)
    ensures
        match r {
            Some(k) => k < configs@.len() && first_config(
                configs@,
                if stereo_only {
                    stereo_float()
                } else {
                    any_float()
                },
            ) == Some(k as int),
            None => first_config(
                configs@,
                if stereo_only {
                    stereo_float()
                } else {
                    any_float()
                },
            ) is None,
        },
{
    let ghost f = if stereo_only {
        stereo_float()
    } else {
        any_float()
    };
    let mut i: usize = 0;
    assert(configs@.take(0) =~= Seq::<StreamConfigShape>::empty());
    while i < configs.len()
        invariant
            i <= configs@.len(),
            f == if stereo_only {
                stereo_float()
            } else {
                any_float()
            },
            first_config(configs@.take(i as int), f) is None,
        decreases configs.len() - i,
    {
        let c = configs[i];
        proof {
            assert(configs@.take(i + 1).drop_last() =~= configs@.take(i as int));
            assert(configs@.take(i + 1).last() == c);
        }
        if c.float_samples && (!stereo_only || c.channels == 2) {
            proof {
                lemma_first_config_prefix(configs@, f, i as int);
            }
            return Some(i);
        }
        i += 1;
    }
    assert(configs@.take(i as int) =~= configs@);
    None
}

proof fn lemma_first_config_prefix(configs: Seq<StreamConfigShape>, f: spec_fn(StreamConfigShape) -> bool, i: int)
    requires
        0 <= i < configs.len(),
        first_config(configs.take(i), f) is None,
        f(configs[i]),
    ensures
        first_config(configs, f) == Some(i),
    decreases configs.len(),
{
    assert(configs.take(i + 1).drop_last() =~= configs.take(i));
    assert(configs.take(i + 1).last() == configs[i]);
    if i + 1 < configs.len() {
        assert(configs.drop_last().take(i) =~= configs.take(i));
        assert(configs.drop_last()[i] == configs[i]);
        lemma_first_config_prefix(configs.drop_last(), f, i);
    } else {
        assert(configs.take(i + 1) =~= configs);
    }
}

/// The configuration a recording uses among those a device supports.
pub fn preferred_stream_config(configs: &Vec<StreamConfigShape>) -> (r: Option<usize>)
    ensures
        match r {
            Some(k) => preferred_config(configs@) == Some(k as int) && k < configs@.len(),
            None => preferred_config(configs@) is None,
        },
{
    match find_config(configs, true) {
        Some(k) => Some(k),
        None => match find_config(configs, false) {
            Some(k) => Some(k),
            None => if configs.len() > 0 {
                Some(0)
            } else {
                None
            },
        },
    }
}

} // verus!
