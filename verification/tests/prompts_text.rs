use voice_vibe_local::prompts::{
    chat_completions_endpoint, check_voice_input_text, render_voice_input_prompt,
};

#[test]
fn voice_input_prompts_fill_the_first_placeholder_found() {
    assert_eq!(
        render_voice_input_prompt("  ", " hi "),
        "请整理下面的语音输入文本，只输出最终文本：\n\n hi "
    );
    assert_eq!(render_voice_input_prompt("Fix: {{ transcript }}", " hi "), "Fix: hi");
    assert_eq!(render_voice_input_prompt("Fix: {{text}}", "hi"), "Fix: hi");
    assert_eq!(render_voice_input_prompt("Polish", " hi "), "Polish\n\n转写文本：\nhi");
    assert_eq!(check_voice_input_text(" \n"), Err("语音输入转写结果为空".to_string()));
    assert_eq!(check_voice_input_text("x"), Ok(()));
}

#[test]
fn chat_endpoints_end_in_chat_completions() {
    assert_eq!(
        chat_completions_endpoint("openai", "https://api.x.com/"),
        "https://api.x.com/v1/chat/completions"
    );
    assert_eq!(
        chat_completions_endpoint("openai", " https://api.x.com/v1 "),
        "https://api.x.com/v1/chat/completions"
    );
    assert_eq!(
        chat_completions_endpoint("openai", "https://api.x.com/v1/chat/completions"),
        "https://api.x.com/v1/chat/completions"
    );
}
