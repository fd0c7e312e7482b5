use voice_vibe_local::devices::Platform;
use voice_vibe_local::runtime::{
    asr_runtime_at, bundled_ffmpeg_relative_path, bundled_python_relative_path,
    configured_proxy, join_component, mask_proxy, proxy_env_assignments, proxy_env_for_settings,
    runtime_check_outcome, runtime_path_entries, truncate_for_log, validate_asr_runtime,
};
use voice_vibe_local::settings::get_settings;

#[test]
fn runtime_paths_follow_the_platform() {
    assert_eq!(bundled_python_relative_path(Platform::MacOs), "bin/python");
    assert_eq!(bundled_python_relative_path(Platform::Windows), "python.exe");
    assert_eq!(bundled_ffmpeg_relative_path(Platform::Linux), "bin/ffmpeg");
    assert_eq!(bundled_ffmpeg_relative_path(Platform::Windows), "bin\\ffmpeg.exe");
    assert_eq!(runtime_path_entries("/opt/rt", Platform::MacOs), ["/opt/rt/bin"]);
    assert_eq!(
        runtime_path_entries("C:\\rt", Platform::Windows),
        ["C:\\rt\\bin", "C:\\rt", "C:\\rt\\Scripts"]
    );
    assert_eq!(join_component(Platform::Linux, "/a/", "b"), "/a/b");
    assert_eq!(join_component(Platform::Linux, "", "b"), "b");
    let rt = asr_runtime_at(Platform::MacOs, "/opt/rt", "/opt/main.py");
    assert_eq!(rt.python_path, "/opt/rt/bin/python");
    assert_eq!(rt.ffmpeg_path, "/opt/rt/bin/ffmpeg");
}

#[test]
fn runtime_check_reports_the_first_missing_part() {
    let rt = asr_runtime_at(Platform::Linux, "/no/such/runtime", "/no/such/main.py");
    assert_eq!(
        runtime_check_outcome(&rt, true, false, false, true),
        Err("bundled Python missing: /no/such/runtime/bin/python".to_string())
    );
    assert_eq!(
        runtime_check_outcome(&rt, true, true, true, false),
        Err("FunASR workflow sidecar missing: /no/such/main.py".to_string())
    );
    assert_eq!(runtime_check_outcome(&rt, true, true, true, true), Ok(()));
    assert_eq!(
        validate_asr_runtime(&rt),
        Err("ASR runtime root missing: /no/such/runtime".to_string())
    );
}

#[test]
fn proxies_fall_back_in_order() {
    let rows = vec![
        ("http_proxy".to_string(), " http://h:1 ".to_string()),
        ("all_proxy".to_string(), "socks5://a:2".to_string()),
    ];
    let env = proxy_env_for_settings(&get_settings(&rows, false));
    assert_eq!(env.http_proxy.as_deref(), Some("http://h:1"));
    assert_eq!(env.https_proxy.as_deref(), Some("http://h:1"));
    assert_eq!(env.all_proxy.as_deref(), Some("socks5://a:2"));
    assert_eq!(env.ddgs_proxy.as_deref(), Some("http://h:1"));
    let only_all = vec![("all_proxy".to_string(), "socks5://a:2".to_string())];
    let env = proxy_env_for_settings(&get_settings(&only_all, false));
    assert_eq!(env.https_proxy, None);
    assert_eq!(env.ddgs_proxy.as_deref(), Some("socks5://a:2"));
    assert_eq!(configured_proxy(Some("  ")), None);
    assert_eq!(configured_proxy(None), None);
}

#[test]
fn proxies_are_masked_and_values_truncated_for_the_log() {
    assert_eq!(mask_proxy("http://user:pw@proxy.local:8080/path"), "http://proxy.local:8080");
    assert_eq!(mask_proxy("socks5://10.0.0.1:1080"), "socks5://10.0.0.1:1080");
    assert_eq!(mask_proxy("proxy.local:8080"), "set");
    assert_eq!(truncate_for_log("abcdef", 3), "abc...");
    assert_eq!(truncate_for_log("abc", 3), "abc");
    assert_eq!(truncate_for_log("语音识别", 2), "语音...");
}

#[test]
fn runtime_tools_never_leave_the_runtime_root() {
    for platform in [Platform::MacOs, Platform::Windows, Platform::Linux] {
        for root in ["/opt/rt", "/opt/rt/", "C:\\rt", ""] {
            let rt = asr_runtime_at(platform, root, "/s.py");
            assert!(rt.python_path.starts_with(root) && rt.python_path.len() > root.len());
            assert!(rt.ffmpeg_path.starts_with(root) && rt.ffmpeg_path.len() > root.len());
        }
    }
}

#[test]
fn proxies_reach_the_sidecar_under_both_spellings() {
    let rows = vec![("https_proxy".to_string(), " http://s:3 ".to_string())];
    let env = proxy_env_for_settings(&get_settings(&rows, false));
    let assignments = proxy_env_assignments(&env);
    let keys: Vec<&str> = assignments.iter().map(|a| a.key.as_str()).collect();
    assert_eq!(
        keys,
        ["http_proxy", "HTTP_PROXY", "https_proxy", "HTTPS_PROXY", "ALL_PROXY", "all_proxy", "DDGS_PROXY"]
    );
    assert_eq!(assignments[0].value, None);
    assert_eq!(assignments[3].value.as_deref(), Some("http://s:3"));
    assert_eq!(assignments[5].value, None);
    assert_eq!(assignments[6].value.as_deref(), Some("http://s:3"));
}
