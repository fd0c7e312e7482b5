use voice_vibe_local::templates::template_listing_order;

#[test]
fn built_in_templates_come_first_then_names_ascend() {
    let templates = vec![
        (false, "周报".to_string()),
        (true, "会议纪要".to_string()),
        (false, "Agenda".to_string()),
        (true, "Action items".to_string()),
    ];
    assert_eq!(template_listing_order(&templates), vec![3, 1, 2, 0]);
}
