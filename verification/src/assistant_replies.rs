//! What the notes assistant's sidecar sends back: the events it streams while it
//! works, and its final answer.
use vstd::prelude::*;

use crate::sidecar_requests::SidecarRequest;
use crate::text::{
    chars_of, has_prefix, opt_views, owned, str_is, string_from_chars, trim, trim_chars,
};

verus! {

broadcast use vstd::string::group_string_axioms;

/// What a streamed event changes in the stored run.
pub enum StreamEventEffect {
    /// Append this text to the answer so far.
    AppendDelta(String),
    /// The run reached this turn, out of at most `max_turns` where the event says.
    UpdateTurn { current_turn: u64, max_turns: Option<String> },
    /// Nothing: the event is only passed on to the window.
    Nothing,
}

/// The name of an event: the one it gives, else `progress`.
pub open spec fn event_name(event: Option<Seq<char>>) -> Seq<char> {
    match event {
        Some(e) => e,
        None => "progress"@,
    }
}

/// The name of a streamed event and what it changes in the stored run: a `delta` with
/// text appends the text; a `turn` with a turn number records the turn (and the turn
/// limit, where the event gives one); anything else changes nothing.
pub fn stream_event_effect(
    event: Option<&str>,
    text: Option<&str>,
    current_turn: Option<u64>,
    max_turns: Option<String>,
) -> (r: (String, StreamEventEffect))
    ensures
        r.0@ == event_name(
            match event {
                Some(e) => Some(e@),
                None => None,
            },
        ),
        r.0@ == "delta"@ && text is Some ==> (r.1 matches StreamEventEffect::AppendDelta(t)
            && t@ == text->0@),
        r.0@ == "turn"@ && current_turn is Some ==> (r.1 matches StreamEventEffect::UpdateTurn {
            current_turn: n,
            max_turns: m,
        } && n == current_turn->0 && opt_views(m) == opt_views(max_turns)),
        !(r.0@ == "delta"@ && text is Some) && !(r.0@ == "turn"@ && current_turn is Some) ==> r.1 is Nothing,
{
    proof {
        reveal_strlit("delta");
        reveal_strlit("turn");
        assert("delta"@.len() != "turn"@.len());
    }
    let name = match event {
        Some(e) => owned(e),
        None => owned("progress"),
    };
    let is_delta = str_is(name.as_str(), "delta");
    let is_turn = str_is(name.as_str(), "turn");
    assert(!(is_delta && is_turn));
    let effect = match (text, current_turn) {
        (Some(t), _) if is_delta => StreamEventEffect::AppendDelta(owned(t)),
        (_, Some(n)) if is_turn => StreamEventEffect::UpdateTurn { current_turn: n, max_turns },
        _ => StreamEventEffect::Nothing,
    };
    (name, effect)
}

/// The answer of a finished assistant run: the reply must hold a result, whose answer,
/// trimmed, is not empty.
pub fn sidecar_answer(has_result: bool, answer: Option<&str>) -> (r: Result<String, String>)
    ensures
        !has_result ==> (r matches Err(e) && e@
            == "ASSISTANT_SIDECAR_FAILED: sidecar response missing result"@),
        has_result ==> match answer {
            Some(a) if trim(a@).len() > 0 => r matches Ok(s) && s@ == trim(a@),
            _ => r matches Err(e) && e@ == "ASSISTANT_SIDECAR_FAILED: sidecar returned empty answer"@,
        },
{
    if !has_result {
        return Err(owned("ASSISTANT_SIDECAR_FAILED: sidecar response missing result"));
    }
    match answer {
        Some(a) => {
            let t = trim_chars(&chars_of(a));
            if t.len() > 0 {
                Ok(string_from_chars(&t))
            } else {
                Err(owned("ASSISTANT_SIDECAR_FAILED: sidecar returned empty answer"))
            }
        },
        None => Err(owned("ASSISTANT_SIDECAR_FAILED: sidecar returned empty answer")),
    }
}

/// The request for a streamed run: the same request, sent under the run's id and with
/// the streaming type.
pub fn streaming_request(request: SidecarRequest, request_id: &str) -> (r: SidecarRequest)
    ensures
        r.id@ == request_id@,
        r.request_type@ == "ask_local_notes_stream"@,
        r.payload@ == request.payload@,
{
    SidecarRequest {
        id: owned(request_id),
        request_type: owned("ask_local_notes_stream"),
        payload: request.payload,
    }
}

/// The answer a sidecar reply gives: an error where it has no result or no non-blank
/// answer, else the answer trimmed.
pub open spec fn reply_answer(has_result: bool, answer: Option<Seq<char>>) -> Result<Seq<char>, Seq<char>> {
    if !has_result {
        Err("ASSISTANT_SIDECAR_FAILED: sidecar response missing result"@)
    } else {
        match answer {
            Some(a) if trim(a).len() > 0 => Ok(trim(a)),
            _ => Err("ASSISTANT_SIDECAR_FAILED: sidecar returned empty answer"@),
        }
    }
}

/// What the sidecar's final reply held: whether it had a result, its answer, and how the
/// check of its sources went.
pub struct SidecarReply {
    pub has_result: bool,
    pub answer: Option<String>,
    pub sources_checked: Result<(), String>,
}

/// Where finishing an assistant run stands, once its request has been sent.
#[derive(PartialEq, Eq, Structural, Clone, Copy, Debug)]
pub enum RunStage {
    /// Waiting for the sidecar's reply.
    AwaitingReply,
    /// Storing the question as the user's message.
    StoringQuestion,
    /// Storing the answer as the assistant's message.
    StoringAnswer,
    /// Marking the run as completed.
    Completing,
    /// Reading the session back.
    LoadingSession,
    /// Nothing: the run is finished.
    Finished,
}

/// A run being finished: where it stands, its answer once known, and whether the
/// question is an earlier user message that is asked again (and is not stored anew).
pub struct RunFinish {
    pub stage: RunStage,
    pub answer: String,
    pub reuses_question: bool,
}

/// What the caller found out.
pub enum RunEvent {
    /// The sidecar's final reply, or the error of the exchange.
    Replied(Result<SidecarReply, String>),
    /// How the step asked for (storing, completing, reading back) went.
    StepDone(Result<(), String>),
}

/// What the caller does next.
pub enum RunAction {
    /// Store the question as the user's message.
    StoreQuestion,
    /// Store this answer, with the reply's sources, as the assistant's message.
    StoreAnswer(String),
    /// Mark the run as completed with this answer.
    Complete(String),
    /// Read the session back.
    LoadSession,
    /// Report the run as done and return the messages and the session.
    Done,
    /// Mark the run as failed with `recorded`, report that, and return `returned`.
    Fail { recorded: String, returned: String },
}

/// The event the stage waits for.
pub open spec fn run_awaits(stage: RunStage, event: RunEvent) -> bool {
    match stage {
        RunStage::AwaitingReply => event is Replied,
        RunStage::Finished => false,
        _ => event is StepDone,
    }
}

/// The action fails the run with `e`, recorded as it is and returned as `returned`.
pub open spec fn fails_with(action: RunAction, e: Seq<char>, returned: Seq<char>) -> bool {
    action matches RunAction::Fail { recorded, returned: r } && recorded@ == e && r@ == returned
}

/// Starts finishing a run whose request was sent.
pub fn start_run_finish(reuses_question: bool) -> (f: RunFinish)
    ensures
        f.stage == RunStage::AwaitingReply,
        f.reuses_question == reuses_question,
{
    RunFinish { stage: RunStage::AwaitingReply, answer: String::new(), reuses_question }
}

fn fail(e: String, returned: String) -> (r: (RunFinish, RunAction))
    ensures
        r.0.stage == RunStage::Finished,
        fails_with(r.1, e@, returned@),
{
    (
        RunFinish { stage: RunStage::Finished, answer: String::new(), reuses_question: false },
        RunAction::Fail { recorded: e, returned },
    )
}

/// Hands the caller's finding to the run and says what to do next. A failed exchange
/// fails the run, returning the error under `ASSISTANT_SIDECAR_FAILED`. A reply without
/// a result or a non-blank answer, or with sources that do not pass their check, fails
/// it with that error. Otherwise the question is stored (unless it is asked again), then
/// the answer, then the run is marked completed and the session read back, and the run
/// is done; the first of these steps that fails fails the run with its error.
pub fn advance_run_finish(f: RunFinish, event: RunEvent) -> (r: (RunFinish, RunAction))
    requires
        run_awaits(f.stage, event),
    ensures
        match (f.stage, event) {
            (RunStage::AwaitingReply, RunEvent::Replied(Err(e))) => {
                let returned = if has_prefix(e@, "ASSISTANT_SIDECAR_FAILED"@) {
                    e@
                } else {
                    "ASSISTANT_SIDECAR_FAILED"@ + ": "@ + e@
                };
                r.0.stage == RunStage::Finished && fails_with(r.1, e@, returned)
            },
            (RunStage::AwaitingReply, RunEvent::Replied(Ok(reply))) => match reply_answer(
                reply.has_result,
                opt_views(reply.answer),
            ) {
                Err(e) => r.0.stage == RunStage::Finished && fails_with(r.1, e, e),
                Ok(a) => match reply.sources_checked {
                    Err(e) => r.0.stage == RunStage::Finished && fails_with(r.1, e@, e@),
                    Ok(()) => {
                        &&& r.0.answer@ == a
                        &&& r.0.reuses_question == f.reuses_question
                        &&& if f.reuses_question {
                            r.0.stage == RunStage::StoringAnswer && (r.1 matches RunAction::StoreAnswer(
                                x,
                            ) && x@ == a)
                        } else {
                            r.0.stage == RunStage::StoringQuestion && r.1 is StoreQuestion
                        }
                    },
                },
            },
            (_, RunEvent::StepDone(Err(e))) => r.0.stage == RunStage::Finished && fails_with(
                r.1,
                e@,
                e@,
            ),
            (RunStage::StoringQuestion, RunEvent::StepDone(Ok(()))) => {
                &&& r.0.stage == RunStage::StoringAnswer
                &&& r.0.answer@ == f.answer@
                &&& r.1 matches RunAction::StoreAnswer(x) && x@ == f.answer@
            },
            (RunStage::StoringAnswer, RunEvent::StepDone(Ok(()))) => {
                &&& r.0.stage == RunStage::Completing
                &&& r.0.answer@ == f.answer@
                &&& r.1 matches RunAction::Complete(x) && x@ == f.answer@
            },
            (RunStage::Completing, RunEvent::StepDone(Ok(()))) => {
                &&& r.0.stage == RunStage::LoadingSession
                &&& r.1 is LoadSession
            },
            (RunStage::LoadingSession, RunEvent::StepDone(Ok(()))) => {
                &&& r.0.stage == RunStage::Finished
                &&& r.1 is Done
            },
            _ => false,
        },
{
    let RunFinish { stage, answer, reuses_question } = f;
    match event {
        RunEvent::Replied(Err(e)) => {
            let returned = crate::assistant::structured_error("ASSISTANT_SIDECAR_FAILED", owned(e.as_str()));
            proof {
                reveal_strlit("ASSISTANT_SIDECAR_FAILED");
            }
            fail(e, returned)
        },
        RunEvent::Replied(Ok(reply)) => {
            let SidecarReply { has_result, answer: reply_text, sources_checked } = reply;
            let a = match &reply_text {
                Some(t) => sidecar_answer(has_result, Some(t.as_str())),
                None => sidecar_answer(has_result, None),
            };
            match a {
                Err(e) => {
                    let returned = owned(e.as_str());
                    fail(e, returned)
                },
                Ok(a) => match sources_checked {
                    Err(e) => {
                        let returned = owned(e.as_str());
                        fail(e, returned)
                    },
                    Ok(()) => if reuses_question {
                        let x = owned(a.as_str());
                        (
                            RunFinish { stage: RunStage::StoringAnswer, answer: a, reuses_question },
                            RunAction::StoreAnswer(x),
                        )
                    } else {
                        (
                            RunFinish { stage: RunStage::StoringQuestion, answer: a, reuses_question },
                            RunAction::StoreQuestion,
                        )
                    },
                },
            }
        },
        RunEvent::StepDone(Err(e)) => {
            let returned = owned(e.as_str());
            fail(e, returned)
        },
        RunEvent::StepDone(Ok(())) => match stage {
            RunStage::StoringQuestion => {
                let x = owned(answer.as_str());
                (
                    RunFinish { stage: RunStage::StoringAnswer, answer, reuses_question },
                    RunAction::StoreAnswer(x),
                )
            },
            RunStage::StoringAnswer => {
                let x = owned(answer.as_str());
                (RunFinish { stage: RunStage::Completing, answer, reuses_question }, RunAction::Complete(x))
            },
            RunStage::Completing => (
                RunFinish { stage: RunStage::LoadingSession, answer, reuses_question },
                RunAction::LoadSession,
            ),
            _ => (RunFinish { stage: RunStage::Finished, answer, reuses_question }, RunAction::Done),
        },
    }
}

} // verus!
