use voice_vibe_local::chunking::{
    batch_texts, char_count, greedy_merge_chunks, split_text, MAX_SEGMENT_CHARS,
    MERGE_BATCH_SEPARATOR,
};

#[test]
fn short_text_is_not_split() {
    let chunks = split_text("短文本。", MAX_SEGMENT_CHARS);

    assert_eq!(chunks, vec!["短文本。"]);
}

#[test]
fn markdown_boundaries_are_preserved_when_possible() {
    let text = format!(
        "# 本地空间：测试\n\n# 文本材料\n\n## 文本：A\n\n{}\n\n## 文本：B\n\n{}",
        "甲".repeat(200),
        "乙".repeat(200)
    );

    let chunks = split_text(&text, 260);

    assert!(chunks.len() >= 2);
    assert!(chunks.iter().any(|chunk| chunk.contains("## 文本：A")));
    assert!(chunks.iter().any(|chunk| chunk.contains("## 文本：B")));
    assert!(chunks.iter().all(|chunk| char_count(chunk) <= 260));
}

#[test]
fn oversized_text_without_punctuation_is_force_split() {
    let text = "无".repeat(MAX_SEGMENT_CHARS * 2 + 333);

    let chunks = split_text(&text, MAX_SEGMENT_CHARS);

    assert!(chunks.len() >= 3);
    assert!(chunks
        .iter()
        .all(|chunk| char_count(chunk) <= MAX_SEGMENT_CHARS));
    assert_eq!(chunks.join("").chars().count(), text.chars().count());
}

#[test]
fn merge_batches_respect_char_limit() {
    let summaries = (0..7)
        .map(|index| format!("## 分段 {}\n{}", index + 1, "内容".repeat(80)))
        .collect::<Vec<_>>();

    let batches = batch_texts(&summaries, 360);

    assert!(batches.len() > 1);
    assert!(batches
        .iter()
        .all(|batch| { char_count(&batch.join(MERGE_BATCH_SEPARATOR)) <= 360 }));
}

#[test]
fn oversized_single_summary_is_split_for_merge_batching() {
    let summaries = vec!["长".repeat(1_000)];

    let batches = batch_texts(&summaries, 300);

    assert!(batches.len() > 1);
    assert!(batches
        .iter()
        .flat_map(|batch| batch.iter())
        .all(|part| char_count(part) <= 300));
}

#[test]
fn blank_text_gives_no_chunks() {
    assert!(split_text("  \n\t ", 100).is_empty());
}

#[test]
fn split_keeps_every_visible_character() {
    let text = "第一段。\n\n第二段比较长，".to_string() + &"字".repeat(50) + "。\n\n第三段";
    let chunks = split_text(&text, 20);
    let joined: String = chunks.concat().chars().filter(|c| !c.is_whitespace()).collect();
    let source_visible: String = text.chars().filter(|c| !c.is_whitespace()).collect();
    assert_eq!(joined, source_visible);
    assert!(chunks.iter().all(|c| char_count(c) <= 20 && !c.is_empty()));
}

fn chars(s: &str) -> Vec<char> {
    s.chars().collect()
}

#[test]
fn greedy_packing_keeps_an_oversized_piece_alone() {
    let pieces = vec![chars("ab"), chars("  "), chars("cdefgh"), chars("i"), chars("j")];
    let packed = greedy_merge_chunks(pieces, &['\n'], 4);
    assert_eq!(packed, vec![chars("ab"), chars("cdefgh"), chars("i\nj")]);
}

#[test]
fn batches_close_only_when_the_next_piece_does_not_fit() {
    let texts = vec!["aaa".to_string(), "bbb".to_string(), " ".to_string(), "c".to_string()];
    let batches = batch_texts(&texts, 14);
    assert_eq!(
        batches,
        vec![vec!["aaa".to_string(), "bbb".to_string()], vec!["c".to_string()]]
    );
}
