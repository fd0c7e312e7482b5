use voice_vibe_local::outbox::{PasteItem, PasteMode};
use voice_vibe_local::paste_delivery::{
    click_feedback, delivery_record, notification_content, plan_delivery, remember_target,
    reopen_after_delivery, restore_feedback, DeliveryPlan, DeliveryReply,
};

fn item(mode: PasteMode, delivery: &str, target: Option<&str>) -> PasteItem {
    PasteItem {
        id: "p1".to_string(),
        seq: 7,
        raw_text: "raw words".to_string(),
        text: "Refined words.".to_string(),
        processing_status: "ready".to_string(),
        delivery_status: delivery.to_string(),
        mode,
        target: target.map(|t| t.to_string()),
        created_at: "2024-01-01T00:00:00Z".to_string(),
        version: 1,
        actioned: false,
        delivery_token: None,
        error: None,
        polish_error: None,
        notification_error: None,
    }
}

#[test]
fn deliveries_copy_or_paste_into_the_chosen_target() {
    let it = item(PasteMode::Notify, "pending", Some("t-1"));
    assert!(matches!(plan_delivery(&it, None, true, true), DeliveryPlan::Copy(ref t) if t == "raw words"));
    assert!(matches!(
        plan_delivery(&it, None, false, false),
        DeliveryPlan::Paste { ref target_id, ref text } if target_id == "t-1" && text == "Refined words."
    ));
    assert!(matches!(
        plan_delivery(&it, Some("t-2".to_string()), false, false),
        DeliveryPlan::Paste { ref target_id, .. } if target_id == "t-2"
    ));
    let lost = item(PasteMode::Notify, "pending", None);
    assert!(matches!(plan_delivery(&lost, None, false, false), DeliveryPlan::NoTarget));
}

#[test]
fn delivery_outcomes_are_recorded_with_their_notes() {
    assert_eq!(delivery_record(DeliveryReply::Copied), ("copied".to_string(), None));
    assert_eq!(
        delivery_record(DeliveryReply::Pasted { verified: true, message: "ok".to_string() }),
        ("verified".to_string(), None)
    );
    assert_eq!(
        delivery_record(DeliveryReply::Pasted { verified: false, message: "check".to_string() }),
        ("sent".to_string(), Some("check".to_string()))
    );
    assert_eq!(
        delivery_record(DeliveryReply::NoTarget),
        (
            "failed".to_string(),
            Some("本条记录没有可恢复的目标，请选择位置或仅复制".to_string())
        )
    );
    assert!(reopen_after_delivery("failed", false, true));
    assert!(!reopen_after_delivery("failed", true, true));
    assert!(!reopen_after_delivery("verified", false, true));
}

#[test]
fn notifications_show_the_result_and_where_it_goes() {
    let it = item(PasteMode::Automatic, "failed", None);
    let n = notification_content(&it, true, None).expect("notification");
    assert_eq!(n.title, "语音已完成，可复制结果");
    assert_eq!(n.target_name, "原位置");
    assert_eq!(n.preview, "Refined words.");
    let it = item(PasteMode::Notify, "pending", Some("t"));
    let n = notification_content(&it, true, Some("Notes")).expect("notification");
    assert_eq!(n.title, "语音结果已就绪");
    assert_eq!(n.target_name, "Notes");
    assert!(notification_content(&it, false, None).is_none());
    assert!(notification_content(&item(PasteMode::Manual, "pending", None), true, None).is_none());
    let mut long = item(PasteMode::Automatic, "sent", None);
    long.text = "字".repeat(100);
    let n = notification_content(&long, true, None).expect("notification");
    assert_eq!(n.preview.chars().count(), 90);
    assert_eq!(n.title, "语音结果已就绪，请检查原窗口");
}

#[test]
fn returning_to_the_target_must_be_confirmed() {
    assert_eq!(
        restore_feedback(true, Some(true), None, None),
        Ok(("已复制到剪贴板，并返回对应光标位置".to_string(), None))
    );
    assert_eq!(
        restore_feedback(true, Some(false), None, None),
        Ok((
            "已复制到剪贴板，并返回原窗口：光标位置未确认".to_string(),
            Some("无法确认原光标".to_string())
        ))
    );
    assert_eq!(
        restore_feedback(false, Some(true), None, None),
        Err("目标返回操作未提供可确认的结果".to_string())
    );
    assert_eq!(
        click_feedback(Err("gone".to_string())),
        ("无法返回目标：gone".to_string(), Some("gone".to_string()))
    );
}

#[test]
fn the_latest_capture_of_a_target_comes_first() {
    let targets: Vec<(String, u32)> = (0..10).map(|i| (format!("t{i}"), i)).collect();
    let r = remember_target(targets, "t5".to_string(), 99);
    assert_eq!(r.len(), 10);
    assert_eq!(r[0], ("t5".to_string(), 99));
    assert_eq!(r[1], ("t0".to_string(), 0));
    assert!(!r[1..].iter().any(|(id, _)| id == "t5"));
    let r = remember_target(r, "new".to_string(), 1);
    assert_eq!(r.len(), 10);
    assert_eq!(r[0].0, "new");
    assert_eq!(r[9].0, "t8");
}
