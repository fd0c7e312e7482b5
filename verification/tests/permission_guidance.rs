use voice_vibe_local::devices::{
    audio_permission_status, failed_permission_target, platform_from_os, platform_settings_hint,
    should_open_permission_settings, windows_manual_settings_hint, windows_privacy_settings_uris,
    AudioDevice, DeviceType, PermissionSettingsTarget, Platform,
};

#[test]
fn permission_guidance_follows_what_failed() {
    assert_eq!(failed_permission_target(false, false), PermissionSettingsTarget::Microphone);
    assert_eq!(failed_permission_target(true, false), PermissionSettingsTarget::SystemAudio);
    assert_eq!(failed_permission_target(true, true), PermissionSettingsTarget::General);
    assert!(should_open_permission_settings(true, true, false));
    assert!(!should_open_permission_settings(false, false, false));
    assert!(!should_open_permission_settings(true, true, true));
    let uris = windows_privacy_settings_uris(PermissionSettingsTarget::Microphone);
    assert_eq!(uris.len(), 2);
    assert_eq!(uris[0].0, "ms-settings:privacy-microphone");
    assert_eq!(
        windows_manual_settings_hint(PermissionSettingsTarget::SystemAudio),
        "无法自动打开 Windows 声音设置，请手动进入 设置 > 系统 > 声音"
    );
    assert_eq!(platform_settings_hint("linux"), "请在系统隐私设置中检查音频输入权限");
    assert_eq!(platform_from_os("windows"), Platform::Windows);
    assert_eq!(platform_from_os("freebsd"), Platform::Other);
}

#[test]
fn permission_reports_explain_each_failure() {
    let status = audio_permission_status(
        "macos".to_string(),
        Some("TCC denied".to_string()),
        Some("device busy".to_string()),
        true,
        "opened".to_string(),
    );
    assert!(!status.microphone_ok);
    assert_eq!(status.microphone_message, "麦克风权限不可用：系统隐私权限未授权或已被拒绝");
    assert_eq!(status.system_audio_message, "系统音频捕捉权限不可用：device busy");
    let ok = audio_permission_status("macos".to_string(), None, None, false, String::new());
    assert!(ok.microphone_ok && ok.system_audio_ok);
    assert_eq!(ok.microphone_message, "麦克风权限可用");
    let device = AudioDevice::new("Mic".to_string(), DeviceType::Input);
    assert_eq!(device.display_label(), "Mic (input)");
}
