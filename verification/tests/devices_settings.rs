use voice_vibe_local::devices::{
    macos_manual_settings_hint, macos_privacy_settings_urls, permission_settings_target,
    PermissionSettingsTarget,
};

#[test]
fn permission_settings_target_accepts_accessibility() {
    assert_eq!(
        permission_settings_target(Some("accessibility")),
        PermissionSettingsTarget::Accessibility
    );
}

#[test]
fn macos_accessibility_target_opens_accessibility_privacy_url() {
    let urls = macos_privacy_settings_urls(PermissionSettingsTarget::Accessibility);

    assert!(urls
        .first()
        .map(|(url, _)| url.contains("Privacy_Accessibility"))
        .unwrap_or(false));
    assert!(
        macos_manual_settings_hint(PermissionSettingsTarget::Accessibility).contains("辅助功能")
    );
}
