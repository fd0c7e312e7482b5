use voice_vibe_local::prompts::{merge_prompt, render_template, segment_prompt};
use voice_vibe_local::summary::{
    advance_summary, start_summary, summary_job_kind, text_material, text_summary_template,
    transcript_block, workspace_job_input, workspace_material, workspace_summary_template,
    workspace_summary_title, SummaryAction, SummaryJobKind, SummaryPhase, TextDocument,
};

const TEMPLATE: &str = "请总结：{{ transcript }}";

#[test]
fn blank_inputs_are_refused() {
    assert_eq!(start_summary("  ", TEMPLATE).err(), Some("Transcript is empty".to_string()));
    assert_eq!(start_summary("内容", " ").err(), Some("Summary template is empty".to_string()));
}

#[test]
fn a_short_text_takes_one_call() {
    let (run, prompt) = start_summary("今天开会。", TEMPLATE).unwrap();
    assert_eq!(prompt, render_template(TEMPLATE, "今天开会。"));
    assert!(matches!(run.phase, SummaryPhase::Single));
    let (run, action) = advance_summary(run, "摘要".to_string());
    assert!(matches!(run.phase, SummaryPhase::Finished));
    match action {
        SummaryAction::Finish { content, strategy, segment_count, merge_rounds, calls } => {
            assert_eq!(content, "摘要");
            assert_eq!(strategy, "single_call");
            assert_eq!(segment_count, 1);
            assert_eq!(merge_rounds, 0);
            assert_eq!(calls, 1);
        }
        SummaryAction::Call(_) => panic!("a single call finishes the summary"),
    }
}

#[test]
fn a_long_text_is_summarised_by_segments_then_merged() {
    let text = "无".repeat(12_000 * 2 + 500);
    let (mut run, prompt) = start_summary(&text, TEMPLATE).unwrap();
    let segments = match &run.phase {
        SummaryPhase::Segments { segments, summaries } => {
            assert!(summaries.is_empty());
            segments.iter().cloned().collect::<Vec<String>>()
        }
        _ => panic!("a long text is cut into segments"),
    };
    let count = segments.len();
    assert_eq!(count, 3);
    assert_eq!(prompt, segment_prompt(TEMPLATE, &segments[0], 1, count));
    for index in 0..count {
        let (next, action) = advance_summary(run, format!("摘要{}", index + 1));
        run = next;
        match action {
            SummaryAction::Call(p) if index + 1 < count => {
                assert_eq!(p, segment_prompt(TEMPLATE, &segments[index + 1], index + 2, count));
            }
            SummaryAction::Call(p) => {
                let batch = vec![
                    "## 分段 1\n摘要1".to_string(),
                    "## 分段 2\n摘要2".to_string(),
                    "## 分段 3\n摘要3".to_string(),
                ];
                assert_eq!(p, merge_prompt(TEMPLATE, &batch, 1, 1, 1));
            }
            SummaryAction::Finish { .. } => panic!("segments are merged before finishing"),
        }
    }
    let (run, action) = advance_summary(run, "最终".to_string());
    assert!(matches!(run.phase, SummaryPhase::Finished));
    match action {
        SummaryAction::Finish { content, strategy, segment_count, merge_rounds, calls } => {
            assert_eq!(content, "最终");
            assert_eq!(strategy, "chunk_then_recursive_merge");
            assert_eq!(segment_count, 3);
            assert_eq!(merge_rounds, 1);
            assert_eq!(calls, 4);
        }
        SummaryAction::Call(_) => panic!("one merged result finishes the summary"),
    }
}

#[test]
fn workspace_material_lists_transcripts_and_notes() {
    let blocks = vec![
        transcript_block(" 晨会 ", " 第一段 "),
        transcript_block("复盘", "第二段"),
    ];
    assert_eq!(blocks[0], "## 录音：晨会\n\n第一段");
    let material = workspace_material(" 项目A ", &blocks, &vec!["  ".to_string(), " 备注 ".to_string()]);
    assert_eq!(
        material,
        "# 工作区：项目A\n\n# 转录材料\n\n## 录音：晨会\n\n第一段\n\n---\n\n## 录音：复盘\n\n第二段\n\n# 工作区笔记\n\n备注"
    );
    let without_notes = workspace_material("W", &blocks[..1].to_vec(), &Vec::new());
    assert_eq!(without_notes, "# 工作区：W\n\n# 转录材料\n\n## 录音：晨会\n\n第一段");
    assert!(workspace_summary_template("模板").starts_with("模板\n\n请将以下同一工作目录下的全部转录和笔记作为一个整体处理"));
}

#[test]
fn summary_jobs_follow_their_scope() {
    assert_eq!(summary_job_kind(Some("workspace")), SummaryJobKind::Workspace);
    assert_eq!(summary_job_kind(Some("workspace_text")), SummaryJobKind::Texts);
    assert_eq!(summary_job_kind(Some("single_text")), SummaryJobKind::Texts);
    assert_eq!(summary_job_kind(Some("single_transcript")), SummaryJobKind::SingleTranscript);
    assert_eq!(summary_job_kind(None), SummaryJobKind::SingleTranscript);
}

#[test]
fn text_material_keeps_documents_with_content() {
    let doc = |t: &str, c: &str| TextDocument { title: t.to_string(), content: c.to_string() };
    let docs = vec![doc(" 周报 ", " 内容一 "), doc("空", "   "), doc("", "内容二")];
    assert_eq!(
        text_material(" 项目 ", &docs),
        Ok("# 本地空间：项目\n\n# 文本材料\n\n## 文本：周报\n\n内容一\n\n---\n\n## 文本：未命名文本\n\n内容二".to_string())
    );
    assert_eq!(
        text_material("项目", &vec![doc("a", " ")]),
        Err("当前本地空间没有可总结的文本文件".to_string())
    );
    assert!(text_summary_template("T").starts_with("T\n\n请将以下同一本地空间下的全部文本文件"));
}

#[test]
fn workspace_jobs_read_their_transcripts_title_and_notes() {
    let meta = r#"{"transcript_ids":["t1",3,"t2"],"workspace_title":"项目","notes":["n1",null]}"#;
    let input = workspace_job_input(Some("tpl".to_string()), Some(meta)).unwrap();
    assert_eq!(input.template_id, "tpl");
    assert_eq!(input.transcript_ids, vec!["t1".to_string(), "t2".to_string()]);
    assert_eq!(input.workspace_title, "项目");
    assert_eq!(input.notes, vec!["n1".to_string()]);
    let plain = workspace_job_input(Some("tpl".to_string()), Some(r#"{"transcript_ids":["t1"]}"#))
        .unwrap();
    assert_eq!(plain.workspace_title, "本地工作区");
    assert!(plain.notes.is_empty());
    assert_eq!(workspace_summary_title(" 项目 "), "项目 综合总结");
}

#[test]
fn workspace_jobs_without_material_are_refused() {
    assert_eq!(
        workspace_job_input(None, Some("{}")).err(),
        Some("Workspace summary job missing template_id".to_string())
    );
    assert_eq!(
        workspace_job_input(Some("tpl".to_string()), None).err(),
        Some("Workspace summary job missing transcript_ids".to_string())
    );
    assert_eq!(
        workspace_job_input(Some("tpl".to_string()), Some(r#"{"transcript_ids":[1]}"#)).err(),
        Some("当前工作区没有可总结的转录".to_string())
    );
}
