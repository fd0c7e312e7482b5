//! The dictation outbox ("paste box"): every dictation becomes an entry that moves
//! through processing (queued, preparing the model, transcribing, refining, ready or
//! failed) and delivery (pending, delivering, delivered, failed, uncertain). This module
//! holds the rules that select and update entries: which entries count as active or
//! pending, which one is delivered next, what clearing the history removes, and how
//! entries interrupted by a restart are recovered.
use vstd::prelude::*;

use crate::text::{opt_views, owned, str_is};

verus! {

broadcast use vstd::string::group_string_axioms;

/// How a finished dictation reaches its target.
#[derive(PartialEq, Eq, Structural, Clone, Copy, Debug)]
pub enum PasteMode {
    /// Pasted into the captured target as soon as it is ready.
    Automatic,
    /// Announced by a notification; a click copies it and returns to its target.
    Notify,
    /// Kept in the paste box until the user acts.
    Manual,
}

/// What clicking the notification of an entry does.
#[derive(PartialEq, Eq, Structural, Clone, Copy, Debug)]
pub enum ClickAction {
    CopyAndRestore,
    Ignore,
}

/// An entry of the outbox. `target` is the captured paste target as JSON text.
pub struct PasteItem {
    pub id: String,
    pub seq: i64,
    pub raw_text: String,
    pub text: String,
    pub processing_status: String,
    pub delivery_status: String,
    pub mode: PasteMode,
    pub target: Option<String>,
    pub created_at: String,
    pub version: i64,
    pub actioned: bool,
    pub delivery_token: Option<String>,
    pub error: Option<String>,
    pub polish_error: Option<String>,
    pub notification_error: Option<String>,
}

/// The entry is still being recorded, transcribed or refined.
pub open spec fn is_active(item: PasteItem) -> bool {
    let p = item.processing_status@;
    p == "queued"@ || p == "preparing_model"@ || p == "transcribing"@ || p == "refining"@
}

/// The entry still waits for a delivery outcome the user may act on.
pub open spec fn awaits_delivery(item: PasteItem) -> bool {
    let d = item.delivery_status@;
    d == "pending"@ || d == "failed"@ || d == "uncertain"@ || d == "delivering"@
}

/// The entry is an automatic paste still waiting to be delivered.
pub open spec fn is_waiting_automatic(item: PasteItem) -> bool {
    &&& item.mode == PasteMode::Automatic
    &&& !item.actioned
    &&& item.delivery_status@ == "pending"@
    &&& item.processing_status@ != "failed"@
}

/// The entry is ready and waits to be delivered.
pub open spec fn is_deliverable(item: PasteItem) -> bool {
    &&& item.delivery_status@ == "pending"@
    &&& item.processing_status@ == "ready"@
    &&& !item.actioned
}

/// The entry belongs to the history that clearing removes: finished (ready or failed)
/// and not being delivered.
pub open spec fn is_history(item: PasteItem) -> bool {
    &&& item.delivery_status@ != "delivering"@
    &&& (item.processing_status@ == "ready"@ || item.processing_status@ == "failed"@)
}

/// How many entries satisfy `f`.
pub open spec fn count_where(items: Seq<PasteItem>, f: spec_fn(PasteItem) -> bool) -> nat
    decreases items.len(),
{
    if items.len() == 0 {
        0
    } else {
        count_where(items.drop_last(), f) + if f(items.last()) {
            1nat
        } else {
            0nat
        }
    }
}

proof fn lemma_count_where_bound(items: Seq<PasteItem>, f: spec_fn(PasteItem) -> bool)
    ensures
        count_where(items, f) <= items.len(),
    decreases items.len(),
{
    if items.len() > 0 {
        lemma_count_where_bound(items.drop_last(), f);
    }
}

fn is_active_exec(item: &PasteItem) -> (b: bool)
    ensures
        b == is_active(*item),
{
    let p = item.processing_status.as_str();
    str_is(p, "queued") || str_is(p, "preparing_model") || str_is(p, "transcribing") || str_is(
        p,
        "refining",
    )
}

fn awaits_delivery_exec(item: &PasteItem) -> (b: bool)
    ensures
        b == awaits_delivery(*item),
{
    let d = item.delivery_status.as_str();
    str_is(d, "pending") || str_is(d, "failed") || str_is(d, "uncertain") || str_is(
        d,
        "delivering",
    )
}

fn is_automatic(mode: &PasteMode) -> (b: bool)
    ensures
        b == (*mode == PasteMode::Automatic),
{
    match mode {
        PasteMode::Automatic => true,
        _ => false,
    }
}

/// Whether an automatic paste queued before `seq` still waits to be delivered (a later
/// automatic paste must wait for it).
pub fn has_earlier_automatic_job(items: &Vec<PasteItem>, seq: i64) -> (b: bool)
    ensures
        b == exists|i: int|
            0 <= i < items@.len() && (#[trigger] items@[i]).seq < seq && is_waiting_automatic(
                items@[i],
            ),
{
    let mut i: usize = 0;
    while i < items.len()
        invariant
            i <= items@.len(),
            forall|k: int|
                0 <= k < i ==> !((#[trigger] items@[k]).seq < seq && is_waiting_automatic(
                    items@[k],
                )),
        decreases items.len() - i,
    {
        let item = &items[i];
        if item.seq < seq && is_automatic(&item.mode) && !item.actioned && str_is(
            item.delivery_status.as_str(),
            "pending",
        ) && !str_is(item.processing_status.as_str(), "failed") {
            return true;
        }
        i += 1;
    }
    false
}

/// The number of entries still being recorded, transcribed or refined.
pub fn active_dictation_count(items: &Vec<PasteItem>) -> (n: usize)
    ensures
        n == count_where(items@, |item: PasteItem| is_active(item)),
{
    let ghost f = |item: PasteItem| is_active(item);
    let mut n: usize = 0;
    let mut i: usize = 0;
    while i < items.len()
        invariant
            i <= items@.len(),
            f == (|item: PasteItem| is_active(item)),
            n == count_where(items@.take(i as int), f),
        decreases items.len() - i,
    {
        proof {
            assert(items@.take(i + 1).drop_last() =~= items@.take(i as int));
            lemma_count_where_bound(items@.take(i as int), f);
        }
        if is_active_exec(&items[i]) {
            n = n + 1;
        }
        i += 1;
    }
    assert(items@.take(items@.len() as int) =~= items@);
    n
}

/// The number of entries the paste box shows as waiting: pending, failed, uncertain or
/// being delivered.
pub fn pending_paste_count(items: &Vec<PasteItem>) -> (n: usize)
    ensures
        n == count_where(items@, |item: PasteItem| awaits_delivery(item)),
{
    let ghost f = |item: PasteItem| awaits_delivery(item);
    let mut n: usize = 0;
    let mut i: usize = 0;
    while i < items.len()
        invariant
            i <= items@.len(),
            f == (|item: PasteItem| awaits_delivery(item)),
            n == count_where(items@.take(i as int), f),
        decreases items.len() - i,
    {
        proof {
            assert(items@.take(i + 1).drop_last() =~= items@.take(i as int));
            lemma_count_where_bound(items@.take(i as int), f);
        }
        if awaits_delivery_exec(&items[i]) {
            n = n + 1;
        }
        i += 1;
    }
    assert(items@.take(items@.len() as int) =~= items@);
    n
}

fn is_deliverable_exec(item: &PasteItem) -> (b: bool)
    ensures
        b == is_deliverable(*item),
{
    str_is(item.delivery_status.as_str(), "pending") && str_is(
        item.processing_status.as_str(),
        "ready",
    ) && !item.actioned
}

/// Position `k` holds the deliverable entry with the smallest sequence number (the
/// first of them where several share it).
pub open spec fn is_next_deliverable(items: Seq<PasteItem>, k: int) -> bool {
    &&& 0 <= k < items.len()
    &&& is_deliverable(items[k])
    &&& forall|j: int|
        0 <= j < items.len() && is_deliverable(#[trigger] items[j]) ==> items[k].seq < items[j].seq
            || (items[k].seq == items[j].seq && k <= j)
}

/// The ready entry that is delivered next: the one with the smallest sequence number
/// among those pending and not acted on, or `None` where there is none.
pub fn next_pending_paste_item(items: Vec<PasteItem>) -> (r: Option<PasteItem>)
    ensures
        match r {
            Some(item) => exists|k: int| is_next_deliverable(items@, k) && item == items@[k],
            None => forall|j: int| 0 <= j < items@.len() ==> !is_deliverable(#[trigger] items@[j]),
        },
{
    let mut best: Option<usize> = None;
    let mut i: usize = 0;
    while i < items.len()
        invariant
            i <= items@.len(),
            match best {
                Some(k) => k < i && is_deliverable(items@[k as int]) && forall|j: int|
                    0 <= j < i && is_deliverable(#[trigger] items@[j]) ==> items@[k as int].seq
                        < items@[j].seq || (items@[k as int].seq == items@[j].seq && k <= j),
                None => forall|j: int| 0 <= j < i ==> !is_deliverable(#[trigger] items@[j]),
            },
        decreases items.len() - i,
    {
        if is_deliverable_exec(&items[i]) {
            match best {
                Some(k) => {
                    if items[i].seq < items[k].seq {
                        best = Some(i);
                    }
                },
                None => {
                    best = Some(i);
                },
            }
        }
        i += 1;
    }
    match best {
        Some(k) => {
            let ghost all = items@;
            let mut rest = items;
            let item = rest.swap_remove(k);
            proof {
                assert(is_next_deliverable(all, k as int));
            }
            Some(item)
        },
        None => None,
    }
}

/// The entries that clearing the history keeps, in their order.
pub open spec fn kept_after_clear(items: Seq<PasteItem>) -> Seq<PasteItem>
    decreases items.len(),
{
    if items.len() == 0 {
        Seq::empty()
    } else if is_history(items.last()) {
        kept_after_clear(items.drop_last())
    } else {
        kept_after_clear(items.drop_last()).push(items.last())
    }
}

/// The ids of the entries that clearing the history removes, in their order.
pub open spec fn cleared_ids(items: Seq<PasteItem>) -> Seq<Seq<char>>
    decreases items.len(),
{
    if items.len() == 0 {
        Seq::empty()
    } else if is_history(items.last()) {
        cleared_ids(items.drop_last()).push(items.last().id@)
    } else {
        cleared_ids(items.drop_last())
    }
}

fn is_history_exec(item: &PasteItem) -> (b: bool)
    ensures
        b == is_history(*item),
{
    !str_is(item.delivery_status.as_str(), "delivering") && (str_is(
        item.processing_status.as_str(),
        "ready",
    ) || str_is(item.processing_status.as_str(), "failed"))
}

/// Clears the history: removes every finished entry that is not being delivered and
/// gives back the entries kept and the ids removed (whose notifications and audio are
/// cleaned up afterwards). Entries still recording, transcribing, refining or being
/// delivered stay.
pub fn clear_paste_history(items: Vec<PasteItem>) -> (r: (Vec<PasteItem>, Vec<String>))
    ensures
        r.0@ == kept_after_clear(items@),
        r.1@.map_values(|s: String| s@) == cleared_ids(items@),
{
    let ghost all = items@;
    let mut kept: Vec<PasteItem> = Vec::new();
    let mut ids: Vec<String> = Vec::new();
    for item in it: items
        invariant
            it.seq() == all,
            kept@ == kept_after_clear(all.take(it.index() as int)),
            ids@.map_values(|s: String| s@) == cleared_ids(all.take(it.index() as int)),
    {
        proof {
            assert(all.take(it.index() + 1).drop_last() =~= all.take(it.index() as int));
            assert(all.take(it.index() + 1).last() == item);
        }
        if is_history_exec(&item) {
            let ghost before = ids@;
            ids.push(item.id);
            proof {
                assert(ids@.map_values(|s: String| s@) =~= before.map_values(|s: String| s@).push(
                    ids@.last()@,
                ));
            }
        } else {
            kept.push(item);
        }
    }
    proof {
        assert(all.take(all.len() as int) =~= all);
    }
    (kept, ids)
}

/// The message for a dictation whose transcription a restart interrupted.
pub open spec fn interrupted_transcription_message() -> Seq<char> {
    "应用退出中断了转录，录音已保留，可以重试"@
}

/// The message for an automatic paste whose target must be confirmed after a restart.
pub open spec fn unconfirmed_target_message() -> Seq<char> {
    "应用已重启，原位置需要重新确认，请手动选择位置"@
}

/// The note for a refinement a restart interrupted.
pub open spec fn interrupted_refinement_message() -> Seq<char> {
    "应用重启中断了润色，已保留原文"@
}

/// The message for a paste a restart interrupted.
pub open spec fn interrupted_delivery_message() -> Seq<char> {
    "应用在粘贴期间退出，请检查目标内容后再操作"@
}

/// `version + 1`, saturating at the largest `i64`.
pub open spec fn bumped(v: i64) -> i64 {
    if v == i64::MAX {
        v
    } else {
        (v + 1) as i64
    }
}

/// The text state of an entry: what recovery reads and writes.
pub struct PasteState {
    pub processing_status: Seq<char>,
    pub delivery_status: Seq<char>,
    pub mode: PasteMode,
    pub version: i64,
    pub delivery_token: Option<Seq<char>>,
    pub error: Option<Seq<char>>,
    pub polish_error: Option<Seq<char>>,
}

/// The state of an entry.
pub open spec fn state_of(item: PasteItem) -> PasteState {
    PasteState {
        processing_status: item.processing_status@,
        delivery_status: item.delivery_status@,
        mode: item.mode,
        version: item.version,
        delivery_token: opt_views(item.delivery_token),
        error: opt_views(item.error),
        polish_error: opt_views(item.polish_error),
    }
}

/// Recovery, first step: a transcription that was under way fails and keeps its
/// recording.
pub open spec fn recover_transcription(s: PasteState) -> PasteState {
    let p = s.processing_status;
    if p == "queued"@ || p == "preparing_model"@ || p == "transcribing"@ {
        PasteState {
            processing_status: "failed"@,
            error: Some(interrupted_transcription_message()),
            version: bumped(s.version),
            ..s
        }
    } else {
        s
    }
}

/// Recovery, second step: an automatic paste that was refining or ready fails its
/// delivery, since its target must be confirmed again.
pub open spec fn recover_target(s: PasteState) -> PasteState {
    if s.mode == PasteMode::Automatic && (s.processing_status == "refining"@
        || s.processing_status == "ready"@) && s.delivery_status == "pending"@ {
        PasteState {
            delivery_status: "failed"@,
            error: Some(unconfirmed_target_message()),
            version: bumped(s.version),
            ..s
        }
    } else {
        s
    }
}

/// Recovery, third step: an interrupted refinement keeps the raw text and is ready.
pub open spec fn recover_refinement(s: PasteState) -> PasteState {
    if s.processing_status == "refining"@ {
        PasteState {
            processing_status: "ready"@,
            polish_error: Some(interrupted_refinement_message()),
            version: bumped(s.version),
            ..s
        }
    } else {
        s
    }
}

/// Recovery, fourth step: an interrupted paste becomes uncertain and loses its lease.
pub open spec fn recover_delivery(s: PasteState) -> PasteState {
    if s.delivery_status == "delivering"@ {
        PasteState {
            delivery_status: "uncertain"@,
            delivery_token: None,
            error: Some(interrupted_delivery_message()),
            version: bumped(s.version),
            ..s
        }
    } else {
        s
    }
}

/// The state of an entry after recovery: the four steps in turn.
pub open spec fn recovered(s: PasteState) -> PasteState {
    recover_delivery(recover_refinement(recover_target(recover_transcription(s))))
}

fn bump(v: i64) -> (r: i64)
    ensures
        r == bumped(v),
{
    if v == i64::MAX {
        v
    } else {
        v + 1
    }
}

fn recover_item(item: &mut PasteItem)
    ensures
        state_of(*final(item)) == recovered(state_of(*old(item))),
        final(item).id == old(item).id,
        final(item).seq == old(item).seq,
        final(item).raw_text == old(item).raw_text,
        final(item).text == old(item).text,
        final(item).target == old(item).target,
        final(item).created_at == old(item).created_at,
        final(item).actioned == old(item).actioned,
        final(item).notification_error == old(item).notification_error,
{
    let p = item.processing_status.as_str();
    if str_is(p, "queued") || str_is(p, "preparing_model") || str_is(p, "transcribing") {
        item.processing_status = owned("failed");
        item.error = Some(owned("应用退出中断了转录，录音已保留，可以重试"));
        item.version = bump(item.version);
    }
    let p = item.processing_status.as_str();
    if is_automatic(&item.mode) && (str_is(p, "refining") || str_is(p, "ready")) && str_is(
        item.delivery_status.as_str(),
        "pending",
    ) {
        item.delivery_status = owned("failed");
        item.error = Some(owned("应用已重启，原位置需要重新确认，请手动选择位置"));
        item.version = bump(item.version);
    }
    if str_is(item.processing_status.as_str(), "refining") {
        item.processing_status = owned("ready");
        item.polish_error = Some(owned("应用重启中断了润色，已保留原文"));
        item.version = bump(item.version);
    }
    if str_is(item.delivery_status.as_str(), "delivering") {
        item.delivery_status = owned("uncertain");
        item.delivery_token = None;
        item.error = Some(owned("应用在粘贴期间退出，请检查目标内容后再操作"));
        item.version = bump(item.version);
    }
}

/// Recovers the outbox after a restart: entries interrupted while transcribing,
/// refining or being delivered are moved to a state the user can act on, each change
/// bumping the entry's version.
pub fn recover_pastebox(items: Vec<PasteItem>) -> (r: Vec<PasteItem>)
    ensures
        r@.len() == items@.len(),
        forall|i: int|
            0 <= i < r@.len() ==> state_of(#[trigger] r@[i]) == recovered(state_of(items@[i]))
                && r@[i].id == items@[i].id && r@[i].seq == items@[i].seq && r@[i].raw_text
                == items@[i].raw_text && r@[i].text == items@[i].text && r@[i].target
                == items@[i].target && r@[i].created_at == items@[i].created_at
                && r@[i].actioned == items@[i].actioned && r@[i].notification_error
                == items@[i].notification_error,
{
    let ghost all = items@;
    let mut out: Vec<PasteItem> = Vec::new();
    for item in it: items
        invariant
            it.seq() == all,
            out@.len() == it.index(),
            forall|k: int|
                0 <= k < it.index() ==> state_of(#[trigger] out@[k]) == recovered(
                    state_of(all[k]),
                ) && out@[k].id == all[k].id && out@[k].seq == all[k].seq && out@[k].raw_text
                    == all[k].raw_text && out@[k].text == all[k].text && out@[k].target
                    == all[k].target && out@[k].created_at == all[k].created_at
                    && out@[k].actioned == all[k].actioned && out@[k].notification_error
                    == all[k].notification_error,
    {
        let mut entry = item;
        recover_item(&mut entry);
        out.push(entry);
    }
    out
}

/// After recovery no entry is still recording, transcribing, refining or being
/// delivered.
pub proof fn lemma_recovery_leaves_nothing_in_flight(s: PasteState)
    ensures
        ({
            let r = recovered(s);
            &&& r.processing_status != "queued"@
            &&& r.processing_status != "preparing_model"@
            &&& r.processing_status != "transcribing"@
            &&& r.processing_status != "refining"@
            &&& r.delivery_status != "delivering"@
        }),
{
    reveal_strlit("queued");
    reveal_strlit("preparing_model");
    reveal_strlit("transcribing");
    reveal_strlit("refining");
    reveal_strlit("failed");
    reveal_strlit("ready");
    reveal_strlit("delivering");
    reveal_strlit("uncertain");
    assert("failed"@[0] != "queued"@[0]);
    assert("failed"@.len() != "preparing_model"@.len());
    assert("failed"@.len() != "transcribing"@.len());
    assert("failed"@.len() != "refining"@.len());
    assert("ready"@.len() != "queued"@.len());
    assert("ready"@.len() != "preparing_model"@.len());
    assert("ready"@.len() != "transcribing"@.len());
    assert("ready"@.len() != "refining"@.len());
    assert("uncertain"@.len() != "delivering"@.len());
}

/// Recovery changes nothing in an entry that nothing interrupted: a finished entry that
/// is not an automatic paste waiting for delivery and is not being delivered.
pub proof fn lemma_recovery_keeps_settled_entries(s: PasteState)
    requires
        s.processing_status == "ready"@ || s.processing_status == "failed"@,
        s.delivery_status != "delivering"@,
        !(s.mode == PasteMode::Automatic && s.processing_status == "ready"@ && s.delivery_status
            == "pending"@),
    ensures
        recovered(s) == s,
{
    reveal_strlit("queued");
    reveal_strlit("preparing_model");
    reveal_strlit("transcribing");
    reveal_strlit("refining");
    reveal_strlit("failed");
    reveal_strlit("ready");
    assert("failed"@[0] != "queued"@[0]);
    assert("failed"@.len() != "preparing_model"@.len());
    assert("failed"@.len() != "transcribing"@.len());
    assert("failed"@.len() != "refining"@.len());
    assert("ready"@.len() != "queued"@.len());
    assert("ready"@.len() != "preparing_model"@.len());
    assert("ready"@.len() != "transcribing"@.len());
    assert("ready"@.len() != "refining"@.len());
}

/// Recovering twice changes nothing more than recovering once.
pub proof fn lemma_recovery_is_idempotent(s: PasteState)
    ensures
        recovered(recovered(s)) == recovered(s),
{
    lemma_recovery_leaves_nothing_in_flight(s);
    reveal_strlit("ready");
    reveal_strlit("refining");
    reveal_strlit("pending");
    reveal_strlit("failed");
    reveal_strlit("uncertain");
    assert("failed"@.len() != "pending"@.len());
    assert("uncertain"@.len() != "pending"@.len());
    assert("ready"@.len() != "refining"@.len());
    let r = recovered(s);
    assert(recover_transcription(r) == r);
    assert(recover_target(r) == r);
    assert(recover_refinement(r) == r);
    assert(recover_delivery(r) == r);
}

/// What clicking the notification of an entry does: for an automatic paste, and for a
/// notified entry that is ready, pending and not acted on, its text is copied and its
/// target brought back; anything else is ignored. No click ever pastes.
pub open spec fn click_action_spec(item: PasteItem) -> ClickAction {
    match item.mode {
        PasteMode::Automatic => ClickAction::CopyAndRestore,
        PasteMode::Notify => if !item.actioned && item.processing_status@ == "ready"@
            && item.delivery_status@ == "pending"@ {
            ClickAction::CopyAndRestore
        } else {
            ClickAction::Ignore
        },
        PasteMode::Manual => ClickAction::Ignore,
    }
}

/// What clicking the notification of an entry does.
pub fn click_action(item: &PasteItem) -> (a: ClickAction)
    ensures
        a == click_action_spec(*item),
{
    match item.mode {
        PasteMode::Automatic => ClickAction::CopyAndRestore,
        PasteMode::Notify => {
            if !item.actioned && str_is(item.processing_status.as_str(), "ready") && str_is(
                item.delivery_status.as_str(),
                "pending",
            ) {
                ClickAction::CopyAndRestore
            } else {
                ClickAction::Ignore
            }
        },
        PasteMode::Manual => ClickAction::Ignore,
    }
}

/// Clicking the notification of an automatic paste only copies its text and brings its
/// target back, whatever its status and whether it was acted on: it never asks for a
/// paste, not even after a failed delivery.
pub proof fn lemma_automatic_clicks_never_paste(item: PasteItem)
    requires
        item.mode == PasteMode::Automatic,
    ensures
        click_action_spec(item) == ClickAction::CopyAndRestore,
{
}

/// A click on a notification consumes only a notified entry that is still pending:
/// once it was acted on, or for an entry kept in the box, the click is ignored.
pub proof fn lemma_notify_clicks_consume_only_pending_entries(item: PasteItem)
    requires
        item.mode == PasteMode::Manual || (item.mode == PasteMode::Notify && item.actioned),
    ensures
        click_action_spec(item) == ClickAction::Ignore,
{
}

} // verus!
