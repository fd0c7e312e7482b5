use voice_vibe_local::ax_helper::{
    check_helper_reply, helper_call_outcome, HelperOutcome, HelperReply, HelperTransport,
};

fn reply(id_matches: bool, error: Option<&str>, result: bool, verified: bool, message: bool) -> HelperReply {
    HelperReply {
        id_matches,
        error: error.map(|e| e.to_string()),
        result_is_object: result,
        verified_is_bool: verified,
        message_is_string: message,
    }
}

#[test]
fn helper_replies_must_answer_the_request_with_a_result() {
    assert_eq!(
        check_helper_reply(false, &reply(false, None, true, true, true)),
        Err("辅助功能响应编号不匹配".to_string())
    );
    assert_eq!(check_helper_reply(false, &reply(true, None, true, false, false)), Ok(()));
    assert_eq!(
        check_helper_reply(true, &reply(true, None, true, true, false)),
        Err("辅助功能响应缺少必要的结果字段".to_string())
    );
    assert_eq!(check_helper_reply(true, &reply(true, Some("denied"), false, false, false)), Ok(()));
}

#[test]
fn a_paste_with_a_lost_reply_is_never_repeated() {
    assert!(matches!(
        helper_call_outcome(true, HelperTransport::TimedOut),
        HelperOutcome::Unconfirmed(ref m) if m == "辅助功能服务中断，粘贴结果不确定；请检查内容并重新记录位置"
    ));
    assert!(matches!(
        helper_call_outcome(true, HelperTransport::Broken("pipe".to_string())),
        HelperOutcome::Unconfirmed(_)
    ));
    assert!(matches!(
        helper_call_outcome(false, HelperTransport::TimedOut),
        HelperOutcome::Failed(ref m) if m == "辅助功能服务响应超时，旧目标已失效"
    ));
    assert!(matches!(
        helper_call_outcome(false, HelperTransport::Broken("pipe".to_string())),
        HelperOutcome::Failed(ref m) if m == "pipe"
    ));
    assert!(matches!(
        helper_call_outcome(true, HelperTransport::Replied { error: Some("no focus".to_string()) }),
        HelperOutcome::Failed(ref m) if m == "no focus"
    ));
    assert!(matches!(
        helper_call_outcome(true, HelperTransport::Replied { error: None }),
        HelperOutcome::Result
    ));
}
