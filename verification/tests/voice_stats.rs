use voice_vibe_local::voice_stats::{record_success, voice_input_stats, DayStats};

#[test]
fn a_success_adds_to_its_day_and_becomes_the_latest() {
    let first = record_success(None, "2024-05-01", 12, "2024-05-01T08:00:00Z");
    assert_eq!(first.success_count, 1);
    assert_eq!(first.success_chars, 12);
    let second = record_success(Some(first), "2024-05-01", 5, "2024-05-01T09:00:00Z");
    assert_eq!(second.success_count, 2);
    assert_eq!(second.success_chars, 17);
    assert_eq!(second.last_success_at.as_deref(), Some("2024-05-01T09:00:00Z"));
    assert_eq!(second.last_success_chars, 5);
}

#[test]
fn stats_show_today_the_totals_and_the_latest_success() {
    let days = vec![
        DayStats {
            day: "2024-05-02".to_string(),
            success_count: 3,
            success_chars: 40,
            last_success_at: Some("2024-05-02T10:00:00Z".to_string()),
            last_success_chars: 9,
        },
        DayStats {
            day: "2024-05-01".to_string(),
            success_count: 2,
            success_chars: 17,
            last_success_at: Some("2024-05-01T09:00:00Z".to_string()),
            last_success_chars: 5,
        },
    ];
    let stats = voice_input_stats(&days, "2024-05-01").unwrap();
    assert_eq!(stats.today_success_count, 2);
    assert_eq!(stats.today_success_chars, 17);
    assert_eq!(stats.total_success_count, 5);
    assert_eq!(stats.total_success_chars, 57);
    assert_eq!(stats.last_success_at.as_deref(), Some("2024-05-02T10:00:00Z"));
    assert_eq!(stats.last_success_chars, 9);
    let empty = voice_input_stats(&Vec::new(), "2024-05-03").unwrap();
    assert_eq!(empty.total_success_count, 0);
    assert_eq!(empty.last_success_at, None);
}

#[test]
fn recording_a_success_raises_the_totals_by_one_and_its_characters() {
    let mut days = vec![
        DayStats {
            day: "2024-05-01".to_string(),
            success_count: 2,
            success_chars: 17,
            last_success_at: Some("2024-05-01T09:00:00Z".to_string()),
            last_success_chars: 5,
        },
        DayStats {
            day: "2024-05-02".to_string(),
            success_count: 1,
            success_chars: 4,
            last_success_at: Some("2024-05-02T08:00:00Z".to_string()),
            last_success_chars: 4,
        },
    ];
    let before = voice_input_stats(&days, "2024-05-02").unwrap();
    let recorded = record_success(Some(days[1].clone()), "2024-05-02", 6, "2024-05-02T10:00:00Z");
    days[1] = recorded;
    let after = voice_input_stats(&days, "2024-05-02").unwrap();
    assert_eq!(after.today_success_count, before.today_success_count + 1);
    assert_eq!(after.today_success_chars, before.today_success_chars + 6);
    assert_eq!(after.total_success_count, before.total_success_count + 1);
    assert_eq!(after.total_success_chars, before.total_success_chars + 6);
    assert_eq!(after.last_success_at.as_deref(), Some("2024-05-02T10:00:00Z"));
    assert_eq!(after.last_success_chars, 6);

    let fresh = record_success(None, "2024-05-03", 3, "2024-05-03T07:00:00Z");
    days.push(fresh);
    let next = voice_input_stats(&days, "2024-05-03").unwrap();
    assert_eq!(next.total_success_count, after.total_success_count + 1);
    assert_eq!(next.total_success_chars, after.total_success_chars + 3);
    assert_eq!(next.today_success_count, 1);
    assert_eq!(next.last_success_chars, 3);
}
