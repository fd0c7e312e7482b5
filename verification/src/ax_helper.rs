//! The accessibility helper that captures input positions and pastes into them: which
//! of its replies are accepted, and what a call amounts to. A paste whose reply is lost
//! is never repeated: it is reported as unconfirmed instead.
use vstd::prelude::*;

use crate::text::owned;

verus! {

broadcast use vstd::string::group_string_axioms;

/// The shape of a helper reply, as far as it is checked: whether it answers the request
/// sent, the error it reports, and which parts of its result are present.
pub struct HelperReply {
    pub id_matches: bool,
    pub error: Option<String>,
    pub result_is_object: bool,
    pub verified_is_bool: bool,
    pub message_is_string: bool,
}

/// Why a reply is refused, if it is: it must answer the request sent; unless it reports
/// an error, it must hold a result, and the result of a paste must say whether the
/// paste was verified and with what message.
pub open spec fn reply_problem(is_paste: bool, reply: HelperReply) -> Option<Seq<char>> {
    if !reply.id_matches {
        Some("辅助功能响应编号不匹配"@)
    } else if reply.error is None && (!reply.result_is_object || (is_paste && (
    !reply.verified_is_bool || !reply.message_is_string))) {
        Some("辅助功能响应缺少必要的结果字段"@)
    } else {
        None
    }
}

/// Checks a helper reply.
pub fn check_helper_reply(is_paste: bool, reply: &HelperReply) -> (r: Result<(), String>)
    ensures
        match reply_problem(is_paste, *reply) {
            Some(m) => r matches Err(e) && e@ == m,
            None => r is Ok,
        },
{
    if !reply.id_matches {
        return Err(owned("辅助功能响应编号不匹配"));
    }
    if reply.error.is_none() && (!reply.result_is_object || (is_paste && (!reply.verified_is_bool
        || !reply.message_is_string))) {
        return Err(owned("辅助功能响应缺少必要的结果字段"));
    }
    Ok(())
}

/// How a call to the helper went.
pub enum HelperTransport {
    /// A checked reply came back, reporting this error, if any.
    Replied { error: Option<String> },
    /// The exchange failed with this error.
    Broken(String),
    /// No reply came in time.
    TimedOut,
}

/// What a call to the helper amounts to.
pub enum HelperOutcome {
    /// The reply's result.
    Result,
    /// The call failed with this error.
    Failed(String),
    /// A paste whose outcome is unknown: reported as not verified, with this message.
    Unconfirmed(String),
}

/// The message of a paste whose reply was lost.
pub open spec fn unconfirmed_paste() -> Seq<char> {
    "辅助功能服务中断，粘贴结果不确定；请检查内容并重新记录位置"@
}

/// What a call to the helper amounts to: a reply's error, or its result; where the
/// exchange broke, a paste is unconfirmed (never sent again), and any other operation
/// fails with the error (or with the timeout).
pub fn helper_call_outcome(is_paste: bool, transport: HelperTransport) -> (r: HelperOutcome)
    ensures
        match transport {
            HelperTransport::Replied { error: Some(e) } => r matches HelperOutcome::Failed(x)
                && x@ == e@,
            HelperTransport::Replied { error: None } => r is Result,
            HelperTransport::Broken(e) => if is_paste {
                r matches HelperOutcome::Unconfirmed(m) && m@ == unconfirmed_paste()
            } else {
                r matches HelperOutcome::Failed(x) && x@ == e@
            },
            HelperTransport::TimedOut => if is_paste {
                r matches HelperOutcome::Unconfirmed(m) && m@ == unconfirmed_paste()
            } else {
                r matches HelperOutcome::Failed(x) && x@ == "辅助功能服务响应超时，旧目标已失效"@
            },
        },
{
    match transport {
        HelperTransport::Replied { error: Some(e) } => HelperOutcome::Failed(e),
        HelperTransport::Replied { error: None } => HelperOutcome::Result,
        HelperTransport::Broken(e) => if is_paste {
            HelperOutcome::Unconfirmed(owned("辅助功能服务中断，粘贴结果不确定；请检查内容并重新记录位置"))
        } else {
            HelperOutcome::Failed(e)
        },
        HelperTransport::TimedOut => if is_paste {
            HelperOutcome::Unconfirmed(owned("辅助功能服务中断，粘贴结果不确定；请检查内容并重新记录位置"))
        } else {
            HelperOutcome::Failed(owned("辅助功能服务响应超时，旧目标已失效"))
        },
    }
}

} // verus!
