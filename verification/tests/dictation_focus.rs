use voice_vibe_local::dictation::{
    capture_error, resolve_capture, target_hint, CaptureState, FocusState,
};
use voice_vibe_local::outbox::PasteMode;

#[test]
fn queued_delivery_waits_for_every_recording_and_then_blocks_new_ones() {
    let mut gate = FocusState::new();
    assert!(gate.take_recording().is_ok());
    assert!(!gate.may_write(false, 0));
    assert!(gate.take_recording().is_ok());
    gate.release_recording(5);
    assert!(!gate.try_start_write(false, 6));
    gate.release_recording(10);
    assert!(gate.try_start_write(false, 11));
    assert_eq!(
        gate.take_recording(),
        Err("正在完成一次位置恢复，请稍后再按录音快捷键".to_string())
    );
    gate.release_write();
    assert!(gate.take_recording().is_ok());
}

#[test]
fn automatic_delivery_waits_for_quiet_after_a_recording() {
    let mut gate = FocusState::new();
    assert!(gate.may_write(true, 0));
    gate.take_recording().unwrap();
    gate.release_recording(1_000);
    assert!(!gate.may_write(true, 1_599));
    assert!(gate.may_write(false, 1_599));
    assert!(gate.may_write(true, 1_600));
    assert!(!gate.may_write(true, 900));
}

#[test]
fn capture_hints_say_where_the_result_goes() {
    assert!(target_hint(PasteMode::Automatic, &CaptureState::Pending).contains("正在记录"));
    let failed = CaptureState::Failed("capture unavailable".to_string());
    assert!(target_hint(PasteMode::Notify, &failed).contains("未记录"));
    assert_eq!(capture_error(&failed), Some("capture unavailable".to_string()));
    let captured = CaptureState::Captured {
        app_name: "Notes".to_string(),
        target: r#"{"id":"t1"}"#.to_string(),
    };
    assert_eq!(target_hint(PasteMode::Automatic, &captured), "已记录 Notes 的输入位置");
    assert_eq!(target_hint(PasteMode::Manual, &captured), "结果将保留到粘贴箱");
    assert_eq!(capture_error(&captured), None);
    assert_eq!(
        capture_error(&CaptureState::Interrupted),
        Some("位置采集任务已中断".to_string())
    );
    assert_eq!(
        target_hint(PasteMode::Notify, &CaptureState::Interrupted),
        "位置采集已中断，结果将保留到粘贴箱"
    );
}

#[test]
fn slow_capture_leaves_the_delivery_waiting_until_it_settles() {
    assert_eq!(resolve_capture(PasteMode::Automatic, &CaptureState::Pending), None);
    let settled = CaptureState::Captured {
        app_name: "fixture".to_string(),
        target: r#"{"id":"original"}"#.to_string(),
    };
    assert_eq!(
        resolve_capture(PasteMode::Automatic, &settled),
        Some((PasteMode::Automatic, Some(r#"{"id":"original"}"#.to_string())))
    );
}

#[test]
fn each_dictation_resolves_to_its_own_capture() {
    let old = CaptureState::Captured { app_name: "a".to_string(), target: "old".to_string() };
    let new = CaptureState::Captured { app_name: "b".to_string(), target: "new".to_string() };
    assert_eq!(
        resolve_capture(PasteMode::Notify, &new),
        Some((PasteMode::Notify, Some("new".to_string())))
    );
    assert_eq!(
        resolve_capture(PasteMode::Automatic, &old),
        Some((PasteMode::Automatic, Some("old".to_string())))
    );
}

#[test]
fn a_failed_capture_keeps_the_mode_and_has_no_fallback_target() {
    let failed = CaptureState::Failed("capture unavailable".to_string());
    assert_eq!(resolve_capture(PasteMode::Notify, &failed), Some((PasteMode::Notify, None)));
    assert_eq!(
        resolve_capture(PasteMode::Automatic, &CaptureState::Interrupted),
        Some((PasteMode::Automatic, None))
    );
    assert!(target_hint(PasteMode::Notify, &failed).contains("未记录"));
}
