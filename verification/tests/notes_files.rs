use voice_vibe_local::notes::{
    is_audio_path, recording_deletion_result, recording_file,
    is_note_file_of, notes_newest_first, prepared_note, LocalNote,
    docx_text, imported_note, note_import_format, DocxBlock, DocxParagraphPart, DocxRunPart,
    NoteFormat,
    audio_import_target, convert_txt_to_markdown_newlines, metadata_delete_candidates,
    normalized_audio_candidate_ids, note_file_name, push_unique,
    recording_id_stem, recording_matches_delete_request, sanitize_note_title,
    split_note_file_stem, split_note_stem, ImportSkip,
};

#[test]
fn note_titles_become_safe_file_names() {
    assert_eq!(sanitize_note_title("  a/b:c*?  "), "a_b_c__");
    assert_eq!(sanitize_note_title("..hidden.."), "hidden");
    assert_eq!(sanitize_note_title(" \u{7} "), "_");
    assert_eq!(sanitize_note_title("  ...  "), "未命名笔记");
    assert_eq!(sanitize_note_title(&"长".repeat(100)).chars().count(), 80);
    assert_eq!(note_file_name("n1", "周报: 第一周"), "n1__周报_ 第一周.md");
}

#[test]
fn stored_note_names_are_read_back() {
    assert_eq!(
        split_note_file_stem("/notes/n1__周报.md"),
        Some(("n1".to_string(), "周报".to_string()))
    );
    assert_eq!(split_note_stem("n1__a__b"), Some(("n1".to_string(), "a__b".to_string())));
    assert_eq!(split_note_stem("  __title"), None);
    assert_eq!(split_note_stem("no-separator"), None);
}

#[test]
fn recording_ids_and_deletion_requests() {
    assert_eq!(recording_id_stem("w__take1", "w"), "take1");
    assert_eq!(recording_id_stem("other__take1", "w"), "take1");
    assert_eq!(recording_id_stem("take1", "w"), "take1");
    assert!(recording_matches_delete_request("w__take1", "/x/take1.wav", "w__take1", "w"));
    assert!(recording_matches_delete_request("w__take1", "/x/take1.wav", "take1", "w"));
    assert!(recording_matches_delete_request("z", "/x/take1.wav", "other__take1", "w"));
    assert!(!recording_matches_delete_request("z", "/x/take2.wav", "take1", "w"));
}

#[test]
fn deletion_candidates_are_unique_and_not_blank() {
    let matched = vec!["w__take1".to_string(), "legacy".to_string(), " ".to_string()];
    assert_eq!(
        metadata_delete_candidates("w", "take1", &matched),
        ["take1", "w__take1", "legacy"]
    );
    let metadata = vec!["legacy".to_string(), "take1".to_string()];
    assert_eq!(
        normalized_audio_candidate_ids("w", "w__take1", &metadata),
        ["legacy", "take1", "w__take1"]
    );
    let mut values = vec!["a".to_string()];
    push_unique(&mut values, "a".to_string());
    push_unique(&mut values, "".to_string());
    push_unique(&mut values, "b".to_string());
    assert_eq!(values, ["a", "b"]);
}

#[test]
fn text_files_become_markdown_paragraphs() {
    assert_eq!(convert_txt_to_markdown_newlines("a\r\nb\rc"), "a\n\nb\n\nc");
    assert_eq!(convert_txt_to_markdown_newlines("  one  \n\n\n\n two \n"), "one\n\ntwo");
    assert_eq!(convert_txt_to_markdown_newlines("x\\ny"), "x\n\ny");
    assert_eq!(convert_txt_to_markdown_newlines("hard\\\nbreak"), "hard\n\nbreak");
    assert_eq!(convert_txt_to_markdown_newlines("   \n  "), "");
}

#[test]
fn only_audio_files_are_imported() {
    assert_eq!(audio_import_target("/in/Meeting.MP3"), Ok("Meeting.MP3".to_string()));
    assert_eq!(audio_import_target("/in/voice.ogg"), Ok("voice.ogg".to_string()));
    assert_eq!(audio_import_target("/in/notes.txt"), Err(ImportSkip::UnsupportedFormat));
    assert_eq!(audio_import_target("/in/noext"), Err(ImportSkip::NoExtension));
}

#[test]
fn note_formats_follow_the_extension_in_any_case() {
    assert_eq!(note_import_format("/a/b.MD"), Some(NoteFormat::Markdown));
    assert_eq!(note_import_format("/a/b.txt"), Some(NoteFormat::Text));
    assert_eq!(note_import_format("/a/b.Docx"), Some(NoteFormat::Word));
    assert_eq!(note_import_format("/a/b.pdf"), None);
    assert_eq!(note_import_format("/a/README"), None);
}

#[test]
fn imported_notes_are_titled_by_the_file_stem() {
    let note = imported_note("/notes/会议 记录.md", "# x".to_string());
    assert_eq!(note.title, "会议 记录");
    assert_eq!(note.file_name, "会议 记录.md");
    assert_eq!(note.content, "# x");
    let note = imported_note("/", String::new());
    assert_eq!(note.title, "Untitled");
    assert_eq!(note.file_name, "Untitled");
}

#[test]
fn word_text_keeps_paragraphs_that_hold_text() {
    let text = |s: &str| DocxRunPart::Text(s.to_string());
    let blocks = vec![
        DocxBlock::Paragraph(vec![
            DocxParagraphPart::Run(vec![text("Hello"), DocxRunPart::Other, text(", ")]),
            DocxParagraphPart::Other,
            DocxParagraphPart::Run(vec![text("world")]),
        ]),
        DocxBlock::Other,
        DocxBlock::Paragraph(vec![DocxParagraphPart::Run(vec![DocxRunPart::Other])]),
        DocxBlock::Paragraph(vec![DocxParagraphPart::Run(vec![text("第二段")])]),
    ];
    assert_eq!(docx_text(&blocks), "Hello, world\n\n第二段");
    assert_eq!(docx_text(&Vec::new()), "");
}

fn local_note(id: &str, title: &str, updated: &str) -> LocalNote {
    LocalNote {
        id: id.to_string(),
        title: title.to_string(),
        content: format!("# {title}"),
        created: String::new(),
        updated: updated.to_string(),
    }
}

#[test]
fn saved_notes_get_a_title_and_times() {
    let note = prepared_note(local_note("n1", "   ", " "), "2026-02-01T00:00:00Z");
    assert_eq!(note.title, "未命名笔记");
    assert_eq!(note.created, "2026-02-01T00:00:00Z");
    assert_eq!(note.updated, "2026-02-01T00:00:00Z");
    let note = prepared_note(local_note("n1", " Plan ", "2025"), "2026");
    assert_eq!(note.title, "Plan");
    assert_eq!(note.updated, "2025");
    assert_eq!(note.id, "n1");
}

#[test]
fn note_files_are_found_by_id_prefix() {
    assert!(is_note_file_of("/w/notes/abc__Plan.md", "abc"));
    assert!(!is_note_file_of("/w/notes/abc__Plan.txt", "abc"));
    assert!(!is_note_file_of("/w/notes/abcd__Plan.md", "abc"));
    assert!(!is_note_file_of("/w/notes/abc_Plan.md", "abc"));
}

#[test]
fn a_saved_note_name_reads_back_its_id_and_title() {
    let id = "0b9c2d1e-7f3a-4c55-9d2e-1a2b3c4d5e6f";
    let name = note_file_name(id, " 周会: 纪要 ");
    let stem = name.strip_suffix(".md").expect("markdown name");
    assert_eq!(
        split_note_stem(stem),
        Some((id.to_string(), sanitize_note_title(" 周会: 纪要 ")))
    );
}

#[test]
fn notes_are_listed_most_recently_updated_first() {
    let notes = vec![
        local_note("a", "A", "2026-01-01"),
        local_note("b", "B", "2026-03-01"),
        local_note("c", "C", "2026-01-01"),
        local_note("d", "D", "2026-02-01"),
    ];
    let sorted = notes_newest_first(&notes);
    let ids: Vec<&str> = sorted.iter().map(|n| n.id.as_str()).collect();
    assert_eq!(ids, vec!["b", "d", "a", "c"]);
}

#[test]
fn recordings_are_audio_files_of_known_formats() {
    assert!(is_audio_path("/w/recordings/a.WAV"));
    assert!(is_audio_path("/w/recordings/b.m4a"));
    assert!(!is_audio_path("/w/recordings/notes.txt"));
    assert!(!is_audio_path("/w/recordings/flac"));
    let entry = recording_file("/data/workspaces/space-a/recordings/meeting.wav", "2026-01-01 10:00:00".to_string(), 42);
    assert_eq!(entry.name, "meeting.wav");
    assert_eq!(entry.id, "space-a__meeting");
    assert_eq!(entry.size, 42);
    assert_eq!(recording_deletion_result(true, "w", "r"), Ok(()));
    assert_eq!(
        recording_deletion_result(false, "space-a", "r1"),
        Err("Recording not found in workspace space-a: r1".to_string())
    );
}
