//! Delivering a dictation result from the paste box: what is sent where, how the
//! outcome is recorded, what its notification says, and what the user is told after
//! clicking one.
use vstd::prelude::*;

use crate::outbox::{click_action, click_action_spec, ClickAction, PasteItem, PasteMode};
use crate::text::{append_chars, chars_of, owned, str_is, string_from_chars, sub_chars};

verus! {

broadcast use vstd::string::group_string_axioms;

/// What a delivery does.
pub enum DeliveryPlan {
    /// Copy this text to the clipboard.
    Copy(String),
    /// Paste this text into the target with this id.
    Paste { target_id: String, text: String },
    /// Nothing can be done: no target is known.
    NoTarget,
}

/// The text a delivery sends: the raw transcript, or the refined text.
pub open spec fn delivered_text(item: PasteItem, raw: bool) -> Seq<char> {
    if raw {
        item.raw_text@
    } else {
        item.text@
    }
}

/// What delivering `item` does: copying where only a copy is asked for; else pasting
/// into the requested target, or the one recorded with the item.
pub fn plan_delivery(item: &PasteItem, target_id: Option<String>, raw: bool, copy_only: bool) -> (p:
    DeliveryPlan)
    ensures
        copy_only ==> (p matches DeliveryPlan::Copy(t) && t@ == delivered_text(*item, raw)),
        !copy_only ==> match (if target_id is Some {
            target_id
        } else {
            item.target
        }) {
            Some(id) => p matches DeliveryPlan::Paste { target_id: t, text } && t@ == id@ && text@
                == delivered_text(*item, raw),
            None => p is NoTarget,
        },
{
    let text = if raw {
        owned(item.raw_text.as_str())
    } else {
        owned(item.text.as_str())
    };
    if copy_only {
        return DeliveryPlan::Copy(text);
    }
    match target_id {
        Some(t) => DeliveryPlan::Paste { target_id: t, text },
        None => match &item.target {
            Some(t) => DeliveryPlan::Paste { target_id: owned(t.as_str()), text },
            None => DeliveryPlan::NoTarget,
        },
    }
}

/// How a delivery went.
pub enum DeliveryReply {
    /// The text was copied.
    Copied,
    /// The text was pasted; whether that was verified, and what the helper said.
    Pasted { verified: bool, message: String },
    /// No target was known.
    NoTarget,
    /// The delivery failed with this error.
    Failed(String),
}

/// The error recorded when no target is known.
pub open spec fn no_target_message() -> Seq<char> {
    "本条记录没有可恢复的目标，请选择位置或仅复制"@
}

/// The delivery status recorded for a reply, and its error or note: `copied`;
/// `verified`; `sent` with the helper's message where the paste was not verified;
/// `failed` with the error.
pub fn delivery_record(reply: DeliveryReply) -> (r: (String, Option<String>))
    ensures
        match reply {
            DeliveryReply::Copied => r.0@ == "copied"@ && r.1 is None,
            DeliveryReply::Pasted { verified: true, .. } => r.0@ == "verified"@ && r.1 is None,
            DeliveryReply::Pasted { verified: false, message } => {
                &&& r.0@ == "sent"@
                &&& r.1 matches Some(m)
                &&& m@ == message@
            },
            DeliveryReply::NoTarget => {
                &&& r.0@ == "failed"@
                &&& r.1 matches Some(m)
                &&& m@ == no_target_message()
            },
            DeliveryReply::Failed(e) => {
                &&& r.0@ == "failed"@
                &&& r.1 matches Some(m)
                &&& m@ == e@
            },
        },
{
    match reply {
        DeliveryReply::Copied => (owned("copied"), None),
        DeliveryReply::Pasted { verified, message } => if verified {
            (owned("verified"), None)
        } else {
            (owned("sent"), Some(message))
        },
        DeliveryReply::NoTarget => (
            owned("failed"),
            Some(owned("本条记录没有可恢复的目标，请选择位置或仅复制")),
        ),
        DeliveryReply::Failed(e) => (owned("failed"), Some(e)),
    }
}

/// Whether the paste box opens on the item after a delivery: it does after a failure,
/// where the delivery may show feedback and is not an automatic one (an automatic
/// delivery is one of a pending item that may show feedback).
pub fn reopen_after_delivery(status: &str, pending_only: bool, open_on_failure: bool) -> (b: bool)
    ensures
        b == (status@ == "failed"@ && open_on_failure && !(pending_only && open_on_failure)),
{
    let automatic = pending_only && open_on_failure;
    str_is(status, "failed") && open_on_failure && !automatic
}

/// The title of a result's notification, by how its delivery went.
pub open spec fn notification_title_spec(delivery_status: Seq<char>) -> Seq<char> {
    if delivery_status == "sent"@ || delivery_status == "uncertain"@ {
        "语音结果已就绪，请检查原窗口"@
    } else if delivery_status == "failed"@ {
        "语音已完成，可复制结果"@
    } else {
        "语音结果已就绪"@
    }
}

/// How many characters of the result a notification shows.
pub const PREVIEW_CHARS: usize = 90;

/// What a result's notification holds.
pub struct NotificationContent {
    pub title: String,
    pub target_name: String,
    pub preview: String,
}

/// The notification of a finished result: none for a manual item, with notifications
/// off, or where clicking it would do nothing; otherwise titled by how the delivery
/// went, naming the target application (`原位置` where none is known) and showing the
/// start of the result.
pub fn notification_content(
    item: &PasteItem,
    notifications_enabled: bool,
    target_app_name: Option<&str>,
) -> (r: Option<NotificationContent>)
    ensures
        (item.mode == PasteMode::Manual || !notifications_enabled || click_action_spec(*item)
            == ClickAction::Ignore) ==> r is None,
        !(item.mode == PasteMode::Manual || !notifications_enabled || click_action_spec(*item)
            == ClickAction::Ignore) ==> (r matches Some(n) && {
            &&& n.title@ == notification_title_spec(item.delivery_status@)
            &&& n.target_name@ == match target_app_name {
                Some(a) => a@,
                None => "原位置"@,
            }
            &&& n.preview@ == item.text@.take(
                if item.text@.len() < PREVIEW_CHARS {
                    item.text@.len() as int
                } else {
                    PREVIEW_CHARS as int
                },
            )
        }),
{
    if item.mode == PasteMode::Manual || !notifications_enabled {
        return None;
    }
    match click_action(item) {
        ClickAction::Ignore => return None,
        ClickAction::CopyAndRestore => {},
    }
    let status = item.delivery_status.as_str();
    proof {
        reveal_strlit("sent");
        reveal_strlit("uncertain");
        reveal_strlit("failed");
    }
    let title = if str_is(status, "sent") || str_is(status, "uncertain") {
        owned("语音结果已就绪，请检查原窗口")
    } else if str_is(status, "failed") {
        owned("语音已完成，可复制结果")
    } else {
        owned("语音结果已就绪")
    };
    let target_name = match target_app_name {
        Some(a) => owned(a),
        None => owned("原位置"),
    };
    let text = chars_of(item.text.as_str());
    let end = if text.len() < PREVIEW_CHARS {
        text.len()
    } else {
        PREVIEW_CHARS
    };
    let preview = string_from_chars(&sub_chars(&text, 0, end));
    proof {
        assert(text@.subrange(0, end as int) =~= item.text@.take(end as int));
    }
    Some(NotificationContent { title, target_name, preview })
}

/// What the user is told after the app returned to the recorded target: the return
/// must be confirmed (`restored`, with a yes-or-no on the caret); back at the caret,
/// nothing more is noted; back in the window only, the helper's message (or that the
/// caret was not confirmed) is shown and its reason noted.
pub fn restore_feedback(
    restored: bool,
    caret_restored: Option<bool>,
    message: Option<&str>,
    reason: Option<&str>,
) -> (r: Result<(String, Option<String>), String>)
    ensures
        (!restored || caret_restored is None) ==> (r matches Err(e) && e@
            == "目标返回操作未提供可确认的结果"@),
        restored && caret_restored == Some(true) ==> (r matches Ok((m, d)) && m@
            == "已复制到剪贴板，并返回对应光标位置"@ && d is None),
        restored && caret_restored == Some(false) ==> {
            &&& r matches Ok((m, d))
            &&& m@ == "已复制到剪贴板，并返回原窗口："@ + match message {
                Some(x) => x@,
                None => "光标位置未确认"@,
            }
            &&& d matches Some(y)
            &&& y@ == match reason {
                Some(x) => x@,
                None => "无法确认原光标"@,
            }
        },
{
    let caret = match caret_restored {
        Some(c) => c,
        None => return Err(owned("目标返回操作未提供可确认的结果")),
    };
    if !restored {
        return Err(owned("目标返回操作未提供可确认的结果"));
    }
    if caret {
        return Ok((owned("已复制到剪贴板，并返回对应光标位置"), None));
    }
    let mut m = chars_of("已复制到剪贴板，并返回原窗口：");
    match message {
        Some(x) => append_chars(&mut m, &chars_of(x)),
        None => append_chars(&mut m, &chars_of("光标位置未确认")),
    }
    let detail = match reason {
        Some(x) => owned(x),
        None => owned("无法确认原光标"),
    };
    Ok((string_from_chars(&m), Some(detail)))
}

/// What the user is told after clicking a notification, and what is noted on the
/// item: the outcome of the click, or that returning to the target failed.
pub fn click_feedback(result: Result<(String, Option<String>), String>) -> (r: (
    String,
    Option<String>,
))
    ensures
        match result {
            Ok((m, d)) => r.0 == m && r.1 == d,
            Err(e) => {
                &&& r.0@ == "无法返回目标："@ + e@
                &&& r.1 matches Some(x)
                &&& x@ == e@
            },
        },
{
    match result {
        Ok((m, d)) => (m, d),
        Err(e) => {
            let mut m = chars_of("无法返回目标：");
            append_chars(&mut m, &chars_of(e.as_str()));
            (string_from_chars(&m), Some(e))
        },
    }
}

/// How many captured targets the paste box remembers.
pub const REMEMBERED_TARGETS: usize = 10;

/// The targets other than the one with id `id`, in order.
pub open spec fn without_id<T>(targets: Seq<(String, T)>, id: Seq<char>) -> Seq<(String, T)>
    decreases targets.len(),
{
    if targets.len() == 0 {
        Seq::empty()
    } else {
        let before = without_id(targets.drop_last(), id);
        if targets.last().0@ == id {
            before
        } else {
            before.push(targets.last())
        }
    }
}

/// The remembered targets after capturing `target` (under its id): it comes first,
/// replacing an earlier capture of the same id, and only the most recent
/// `REMEMBERED_TARGETS` are kept.
pub open spec fn remembered<T>(targets: Seq<(String, T)>, id: String, target: T) -> Seq<(String, T)> {
    let all = seq![(id, target)] + without_id(targets, id@);
    if all.len() <= REMEMBERED_TARGETS {
        all
    } else {
        all.take(REMEMBERED_TARGETS as int)
    }
}

/// Remembers a captured target, each held with its id.
pub fn remember_target<T>(targets: Vec<(String, T)>, id: String, target: T) -> (r: Vec<(String, T)>)
    ensures
        r@ == remembered(targets@, id, target),
{
    let ghost start = targets@;
    let n = targets.len();
    let mut rest = targets;
    let mut kept: Vec<(String, T)> = Vec::new();
    let mut i: usize = 0;
    assert(start.take(0) =~= Seq::<(String, T)>::empty());
    while rest.len() > 0
        invariant
            i <= start.len() == n,
            rest@ == start.subrange(i as int, start.len() as int),
            kept@ == without_id(start.take(i as int), id@),
        decreases rest.len(),
    {
        let entry = rest.remove(0);
        proof {
            assert(start.take(i + 1).drop_last() =~= start.take(i as int));
            assert(start.take(i + 1).last() == start[i as int]);
            assert(rest@ =~= start.subrange(i + 1, start.len() as int));
        }
        if !str_is(entry.0.as_str(), id.as_str()) {
            kept.push(entry);
        }
        i += 1;
    }
    proof {
        assert(start.take(i as int) =~= start);
    }
    let ghost kept_view = kept@;
    kept.insert(0, (id, target));
    proof {
        assert(kept@ =~= seq![kept@[0]] + kept_view);
    }
    kept.truncate(REMEMBERED_TARGETS);
    kept
}

/// No two remembered targets share an id.
pub open spec fn distinct_ids<T>(targets: Seq<(String, T)>) -> bool {
    forall|i: int, j: int|
        0 <= i < j < targets.len() ==> (#[trigger] targets[i]).0@ != (#[trigger] targets[j]).0@
}

proof fn lemma_without_id<T>(targets: Seq<(String, T)>, id: Seq<char>)
    requires
        distinct_ids(targets),
    ensures
        distinct_ids(without_id(targets, id)),
        forall|k: int|
            0 <= k < without_id(targets, id).len() ==> (#[trigger] without_id(targets, id)[k]).0@
                != id && exists|j: int| 0 <= j < targets.len() && targets[j] == without_id(targets, id)[k],
    decreases targets.len(),
{
    if targets.len() > 0 {
        let rest = targets.drop_last();
        assert(distinct_ids(rest)) by {
            assert forall|i: int, j: int| 0 <= i < j < rest.len() implies (#[trigger] rest[i]).0@
                != (#[trigger] rest[j]).0@ by {
                assert(rest[i] == targets[i] && rest[j] == targets[j]);
            }
        }
        lemma_without_id(rest, id);
        let w = without_id(rest, id);
        let last = targets.last();
        if last.0@ != id {
            let w2 = w.push(last);
            assert forall|k: int| 0 <= k < w.len() implies (#[trigger] w[k]).0@ != last.0@ by {
                let j = choose|j: int| 0 <= j < rest.len() && rest[j] == w[k];
                assert(targets[j] == w[k]);
                assert(targets[targets.len() - 1] == last);
            }
            assert forall|i: int, j: int| 0 <= i < j < w2.len() implies (#[trigger] w2[i]).0@
                != (#[trigger] w2[j]).0@ by {
                if j < w.len() {
                    assert(w2[i] == w[i] && w2[j] == w[j]);
                } else {
                    assert(w2[i] == w[i] && w2[j] == last);
                }
            }
            assert forall|k: int| 0 <= k < w2.len() implies (#[trigger] w2[k]).0@ != id
                && exists|j: int| 0 <= j < targets.len() && targets[j] == w2[k] by {
                if k < w.len() {
                    let j = choose|j: int| 0 <= j < rest.len() && rest[j] == w[k];
                    assert(targets[j] == w2[k]);
                } else {
                    assert(targets[targets.len() - 1] == w2[k]);
                }
            }
        } else {
            assert forall|k: int| 0 <= k < w.len() implies (#[trigger] w[k]).0@ != id
                && exists|j: int| 0 <= j < targets.len() && targets[j] == w[k] by {
                let j = choose|j: int| 0 <= j < rest.len() && rest[j] == w[k];
                assert(targets[j] == w[k]);
            }
        }
    }
}

/// Remembering a capture keeps the remembered targets free of repeated ids, puts the
/// new capture first and keeps at most `REMEMBERED_TARGETS` of them.
pub proof fn lemma_remembered_targets_stay_unique<T>(targets: Seq<(String, T)>, id: String, target: T)
    requires
        distinct_ids(targets),
    ensures
        distinct_ids(remembered(targets, id, target)),
        remembered(targets, id, target).len() <= REMEMBERED_TARGETS,
        remembered(targets, id, target)[0] == (id, target),
{
    lemma_without_id(targets, id@);
    let w = without_id(targets, id@);
    let all = seq![(id, target)] + w;
    assert(distinct_ids(all)) by {
        assert forall|i: int, j: int| 0 <= i < j < all.len() implies (#[trigger] all[i]).0@
            != (#[trigger] all[j]).0@ by {
            assert(all[j] == w[j - 1]);
            if i > 0 {
                assert(all[i] == w[i - 1]);
            }
        }
    }
    let r = remembered(targets, id, target);
    if all.len() > REMEMBERED_TARGETS {
        assert forall|i: int, j: int| 0 <= i < j < r.len() implies (#[trigger] r[i]).0@
            != (#[trigger] r[j]).0@ by {
            assert(r[i] == all[i] && r[j] == all[j]);
        }
    }
}

} // verus!
