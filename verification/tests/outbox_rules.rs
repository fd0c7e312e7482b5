use voice_vibe_local::outbox::{
    active_dictation_count, clear_paste_history, click_action, has_earlier_automatic_job,
    next_pending_paste_item, pending_paste_count, recover_pastebox, ClickAction, PasteItem,
    PasteMode,
};

fn item(id: &str, seq: i64, processing: &str, delivery: &str, mode: PasteMode) -> PasteItem {
    PasteItem {
        id: id.to_string(),
        seq,
        raw_text: format!("raw {id}"),
        text: format!("text {id}"),
        processing_status: processing.to_string(),
        delivery_status: delivery.to_string(),
        mode,
        target: None,
        created_at: "2024-01-01T00:00:00Z".to_string(),
        version: 3,
        actioned: false,
        delivery_token: Some("lease".to_string()),
        error: None,
        polish_error: None,
        notification_error: None,
    }
}

fn outbox() -> Vec<PasteItem> {
    vec![
        item("a", 1, "ready", "delivered", PasteMode::Automatic),
        item("b", 2, "transcribing", "pending", PasteMode::Automatic),
        item("c", 3, "ready", "pending", PasteMode::Notify),
        item("d", 4, "refining", "pending", PasteMode::Automatic),
        item("e", 5, "failed", "failed", PasteMode::Manual),
        item("f", 6, "ready", "delivering", PasteMode::Automatic),
        item("g", 7, "ready", "pending", PasteMode::Manual),
    ]
}

#[test]
fn counts_of_active_and_waiting_entries() {
    let items = outbox();
    assert_eq!(active_dictation_count(&items), 2);
    assert_eq!(pending_paste_count(&items), 6);
}

#[test]
fn automatic_pastes_wait_for_earlier_ones() {
    let items = outbox();
    assert!(!has_earlier_automatic_job(&items, 2));
    assert!(has_earlier_automatic_job(&items, 3));
    let mut failed = outbox();
    failed[1].processing_status = "failed".to_string();
    failed[3].actioned = true;
    assert!(!has_earlier_automatic_job(&failed, 7));
}

#[test]
fn the_oldest_ready_entry_is_delivered_next() {
    let next = next_pending_paste_item(outbox()).unwrap();
    assert_eq!(next.id, "c");
    let mut items = outbox();
    items[2].actioned = true;
    assert_eq!(next_pending_paste_item(items).unwrap().id, "g");
    assert!(next_pending_paste_item(Vec::new()).is_none());
}

#[test]
fn clearing_removes_finished_entries_only() {
    let (kept, removed) = clear_paste_history(outbox());
    assert_eq!(removed, ["a", "c", "e", "g"]);
    let kept_ids: Vec<&str> = kept.iter().map(|i| i.id.as_str()).collect();
    assert_eq!(kept_ids, ["b", "d", "f"]);
}

#[test]
fn recovery_settles_interrupted_entries() {
    let recovered = recover_pastebox(outbox());
    let state: Vec<(&str, &str, i64)> = recovered
        .iter()
        .map(|i| (i.processing_status.as_str(), i.delivery_status.as_str(), i.version))
        .collect();
    assert_eq!(
        state,
        [
            ("ready", "delivered", 3),
            ("failed", "pending", 4),
            ("ready", "pending", 3),
            ("ready", "failed", 5),
            ("failed", "failed", 3),
            ("ready", "uncertain", 4),
            ("ready", "pending", 3),
        ]
    );
    assert_eq!(recovered[1].error.as_deref(), Some("应用退出中断了转录，录音已保留，可以重试"));
    assert_eq!(recovered[3].error.as_deref(), Some("应用已重启，原位置需要重新确认，请手动选择位置"));
    assert_eq!(recovered[3].polish_error.as_deref(), Some("应用重启中断了润色，已保留原文"));
    assert_eq!(recovered[5].delivery_token, None);
    assert_eq!(recovered[5].error.as_deref(), Some("应用在粘贴期间退出，请检查目标内容后再操作"));
    assert_eq!(recovered[0].delivery_token.as_deref(), Some("lease"));
    let again = recover_pastebox(recovered);
    assert_eq!(again[3].version, 5);
}

#[test]
fn notification_clicks() {
    let items = outbox();
    assert!(click_action(&items[0]) == ClickAction::CopyAndRestore);
    assert!(click_action(&items[2]) == ClickAction::CopyAndRestore);
    assert!(click_action(&items[6]) == ClickAction::Ignore);
    let mut acted = item("h", 8, "ready", "pending", PasteMode::Notify);
    acted.actioned = true;
    assert!(click_action(&acted) == ClickAction::Ignore);
}

fn notified(mode: PasteMode, status: &str, actioned: bool) -> PasteItem {
    PasteItem {
        id: "test".to_string(),
        seq: 1,
        raw_text: "test".to_string(),
        text: "test".to_string(),
        processing_status: "ready".to_string(),
        delivery_status: status.to_string(),
        mode,
        target: None,
        created_at: String::new(),
        version: 0,
        actioned,
        delivery_token: None,
        error: None,
        polish_error: None,
        notification_error: None,
    }
}

#[test]
fn automatic_notifications_never_request_paste_even_after_failure() {
    for status in ["pending", "verified", "sent", "failed", "copied", "uncertain"] {
        for actioned in [false, true] {
            assert_eq!(
                click_action(&notified(PasteMode::Automatic, status, actioned)),
                ClickAction::CopyAndRestore
            );
        }
    }
}

#[test]
fn notify_click_only_consumes_its_pending_item() {
    assert_eq!(
        click_action(&notified(PasteMode::Notify, "pending", false)),
        ClickAction::CopyAndRestore
    );
    for status in ["pending", "verified", "failed", "sent", "copied"] {
        assert_eq!(
            click_action(&notified(PasteMode::Notify, status, true)),
            ClickAction::Ignore
        );
    }
    assert_eq!(
        click_action(&notified(PasteMode::Manual, "pending", false)),
        ClickAction::Ignore
    );
}
