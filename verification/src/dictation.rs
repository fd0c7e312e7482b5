//! Dictation around the focused input: recordings and deliveries take turns at the
//! focus, and the captured input position tells the user where a result will go.
//!
//! A recording is reserved at once when its shortcut is pressed. Deliveries waiting
//! to paste never prevent another recording; a delivery already writing into an input
//! is atomic, and no recording starts until it is done.
use vstd::prelude::*;

use crate::outbox::PasteMode;
use crate::text::{append_chars, chars_of, owned, string_from_chars};

verus! {

broadcast use vstd::string::group_string_axioms;

/// How long after the last recording ends an automatic delivery waits, in milliseconds.
pub const QUIET_AFTER_RECORDING_MS: u64 = 600;

/// Who holds the focus: how many recordings are under way, whether a delivery is
/// writing, and when (in milliseconds of a monotonic clock) the last recording ended.
#[derive(PartialEq, Eq, Structural, Clone, Copy, Debug)]
pub struct FocusState {
    pub recordings: usize,
    pub writing: bool,
    pub released_at_ms: Option<u64>,
}

/// The error for a recording asked for while a delivery writes.
pub open spec fn busy_writing() -> Seq<char> {
    "正在完成一次位置恢复，请稍后再按录音快捷键"@
}

impl FocusState {
    /// A recording and a delivery never hold the focus together.
    pub open spec fn wf(self) -> bool {
        self.writing ==> self.recordings == 0
    }

    /// Whether a delivery may start writing at `now_ms`: no recording is under way, no
    /// other delivery writes, and an automatic one waits until the last recording ended
    /// at least `QUIET_AFTER_RECORDING_MS` ago.
    pub open spec fn writable(self, automatic: bool, now_ms: u64) -> bool {
        &&& self.recordings == 0
        &&& !self.writing
        &&& (!automatic || match self.released_at_ms {
            None => true,
            Some(at) => now_ms >= at && now_ms - at >= QUIET_AFTER_RECORDING_MS,
        })
    }

    /// Nothing holds the focus.
    pub fn new() -> (s: FocusState)
        ensures
            s.wf(),
            s == (FocusState { recordings: 0, writing: false, released_at_ms: None }),
    {
        FocusState { recordings: 0, writing: false, released_at_ms: None }
    }

    /// Reserves the focus for a recording: refused while a delivery writes.
    pub fn take_recording(&mut self) -> (r: Result<(), String>)
        requires
            old(self).wf(),
            old(self).recordings < usize::MAX,
        ensures
            final(self).wf(),
            old(self).writing ==> (r matches Err(e) && e@ == busy_writing() && *final(self)
                == *old(self)),
            !old(self).writing ==> (r is Ok && *final(self) == (FocusState {
                recordings: (old(self).recordings + 1) as usize,
                ..*old(self)
            })),
    {
        if self.writing {
            return Err(owned("正在完成一次位置恢复，请稍后再按录音快捷键"));
        }
        self.recordings = self.recordings + 1;
        Ok(())
    }

    /// Whether a delivery may start writing at `now_ms`.
    pub fn may_write(&self, automatic: bool, now_ms: u64) -> (b: bool)
        ensures
            b == self.writable(automatic, now_ms),
    {
        let quiet = !automatic || match self.released_at_ms {
            None => true,
            Some(at) => now_ms >= at && now_ms - at >= QUIET_AFTER_RECORDING_MS,
        };
        self.recordings == 0 && !self.writing && quiet
    }

    /// Starts a delivery writing at `now_ms` where it may; says whether it did.
    pub fn try_start_write(&mut self, automatic: bool, now_ms: u64) -> (started: bool)
        requires
            old(self).wf(),
        ensures
            final(self).wf(),
            started == old(self).writable(automatic, now_ms),
            started ==> *final(self) == (FocusState { writing: true, ..*old(self) }),
            !started ==> *final(self) == *old(self),
    {
        if self.may_write(automatic, now_ms) {
            self.writing = true;
            true
        } else {
            false
        }
    }

    /// Ends a recording at `now_ms`.
    pub fn release_recording(&mut self, now_ms: u64)
        requires
            old(self).wf(),
            old(self).recordings > 0,
        ensures
            final(self).wf(),
            *final(self) == (FocusState {
                recordings: (old(self).recordings - 1) as usize,
                writing: old(self).writing,
                released_at_ms: Some(now_ms),
            }),
    {
        self.recordings = self.recordings - 1;
        self.released_at_ms = Some(now_ms);
    }

    /// Ends the delivery that was writing.
    pub fn release_write(&mut self)
        requires
            old(self).wf(),
        ensures
            final(self).wf(),
            *final(self) == (FocusState { writing: false, ..*old(self) }),
    {
        self.writing = false;
    }
}

/// A delivery waiting to write never keeps a recording from starting, and while any
/// recording is under way no delivery writes: of a focus state that is consistent,
/// whenever a delivery may write, a recording could be taken instead, and whenever a
/// recording is under way, no delivery may write.
pub proof fn lemma_recordings_come_first(s: FocusState, automatic: bool, now_ms: u64)
    requires
        s.wf(),
    ensures
        s.writable(automatic, now_ms) ==> !s.writing,
        s.recordings > 0 ==> !s.writable(automatic, now_ms),
        s.recordings > 0 ==> !s.writing,
{
}

/// Ending a recording gives the focus back: taking a recording and then ending it
/// leaves as many recordings as before, and a delivery that was blocked only by that
/// recording may write again once the quiet time has passed (or at once, if it is not
/// automatic).
pub proof fn lemma_release_undoes_take(s: FocusState, now_ms: u64)
    requires
        s.wf(),
        !s.writing,
        s.recordings < usize::MAX,
    ensures
        ({
            let taken = FocusState { recordings: (s.recordings + 1) as usize, ..s };
            let released = FocusState {
                recordings: (taken.recordings - 1) as usize,
                writing: taken.writing,
                released_at_ms: Some(now_ms),
            };
            &&& taken.wf()
            &&& !taken.writable(false, now_ms)
            &&& released.recordings == s.recordings
            &&& released.writing == s.writing
            &&& (s.recordings == 0 ==> released.writable(false, now_ms))
            &&& (s.recordings == 0 && now_ms <= u64::MAX - QUIET_AFTER_RECORDING_MS ==> released.writable(
                true,
                (now_ms + QUIET_AFTER_RECORDING_MS) as u64,
            ))
        }),
{
}

/// Where the input position of a dictation stands.
pub enum CaptureState {
    /// It is still being recorded.
    Pending,
    /// The task recording it ended without a result.
    Interrupted,
    /// It was recorded, in this application; `target` is the captured position as the
    /// paste box keeps it (JSON text).
    Captured { app_name: String, target: String },
    /// It could not be recorded, for this reason.
    Failed(String),
}

/// What the user is told about where a dictation's result will go.
pub open spec fn hint(mode: PasteMode, capture: CaptureState) -> Seq<char> {
    if mode == PasteMode::Manual {
        "结果将保留到粘贴箱"@
    } else {
        match capture {
            CaptureState::Captured { app_name, .. } => "已记录 "@ + app_name@ + " 的输入位置"@,
            CaptureState::Failed(_) => "未记录到输入位置，结果将保留到粘贴箱"@,
            CaptureState::Interrupted => "位置采集已中断，结果将保留到粘贴箱"@,
            CaptureState::Pending => "正在记录原输入位置"@,
        }
    }
}

/// What the user is told about where a dictation's result will go: a manual dictation
/// stays in the paste box; otherwise it goes to the recorded application, or stays in
/// the paste box where the position was not recorded.
pub fn target_hint(mode: PasteMode, capture: &CaptureState) -> (r: String)
    ensures
        r@ == hint(mode, *capture),
{
    if mode == PasteMode::Manual {
        return owned("结果将保留到粘贴箱");
    }
    match capture {
        CaptureState::Captured { app_name, .. } => {
            let mut m = chars_of("已记录 ");
            append_chars(&mut m, &chars_of(app_name.as_str()));
            append_chars(&mut m, &chars_of(" 的输入位置"));
            string_from_chars(&m)
        },
        CaptureState::Failed(_) => owned("未记录到输入位置，结果将保留到粘贴箱"),
        CaptureState::Interrupted => owned("位置采集已中断，结果将保留到粘贴箱"),
        CaptureState::Pending => owned("正在记录原输入位置"),
    }
}

/// Why the input position was not recorded, where it was not.
pub fn capture_error(capture: &CaptureState) -> (r: Option<String>)
    ensures
        match *capture {
            CaptureState::Failed(e) => r matches Some(s) && s@ == e@,
            CaptureState::Interrupted => r matches Some(s) && s@ == "位置采集任务已中断"@,
            _ => r is None,
        },
{
    match capture {
        CaptureState::Failed(e) => Some(owned(e.as_str())),
        CaptureState::Interrupted => Some(owned("位置采集任务已中断")),
        _ => None,
    }
}

/// Where a dictation's result goes once the capture of its input position has settled:
/// the dictation's own mode, with the captured target where there is one and none
/// otherwise; nothing yet while the capture is still pending.
pub open spec fn resolution(mode: PasteMode, capture: CaptureState) -> Option<(PasteMode, Option<Seq<char>>)> {
    match capture {
        CaptureState::Pending => None,
        CaptureState::Captured { target, .. } => Some((mode, Some(target@))),
        CaptureState::Interrupted => Some((mode, None)),
        CaptureState::Failed(_) => Some((mode, None)),
    }
}

/// Where a dictation's result goes, once its capture has settled.
pub fn resolve_capture(mode: PasteMode, capture: &CaptureState) -> (r: Option<(PasteMode, Option<String>)>)
    ensures
        match r {
            Some((m, t)) => resolution(mode, *capture) == Some((m, match t {
                Some(s) => Some(s@),
                None => None,
            })),
            None => resolution(mode, *capture) is None,
        },
{
    match capture {
        CaptureState::Pending => None,
        CaptureState::Captured { target, .. } => Some((mode, Some(owned(target.as_str())))),
        CaptureState::Interrupted => Some((mode, None)),
        CaptureState::Failed(_) => Some((mode, None)),
    }
}

/// A capture that failed or was interrupted keeps the dictation's mode and offers no
/// other target in its place: the result waits in the paste box.
pub proof fn lemma_failed_capture_has_no_fallback_target(mode: PasteMode, capture: CaptureState)
    requires
        capture is Failed || capture is Interrupted,
    ensures
        resolution(mode, capture) == Some((mode, None::<Seq<char>>)),
{
}

} // verus!
