//! The reusable speech worker: one Python process kept between transcriptions and shut
//! down once it has been idle long enough. Each worker started, or dropped after a
//! failure, begins a new generation, so that a shutdown scheduled for an older worker
//! never stops a newer one.
use vstd::prelude::*;

use crate::json_text::{
    json_bool_at, json_error_of, json_pointer_bool, json_pointer_string, json_str_at,
    json_syntax_error,
};
use crate::runtime::{idle_ttl_for_profile, profile_name, reply_error, reply_error_message,
    ASR_DICTATION_IDLE_TTL_SECS, ASR_IDLE_TTL_SECS, EnvAssignment, assigns};
use crate::settings::AppSettings;
use crate::text::{append_chars, chars_of, has_prefix, opt_views, owned, starts_with,
    string_from_chars, trim, trim_chars};

verus! {

broadcast use vstd::string::group_string_axioms;

/// The worker pool: whether a worker runs, its generation, and when (in milliseconds of
/// a monotonic clock) it last answered.
#[derive(PartialEq, Eq, Structural, Clone, Copy, Debug)]
pub struct WorkerPool {
    pub running: bool,
    pub generation: u64,
    pub last_used_ms: Option<u64>,
}

/// `generation + 1`, staying at the largest value.
pub open spec fn next_generation(generation: u64) -> u64 {
    if generation == u64::MAX {
        generation
    } else {
        (generation + 1) as u64
    }
}

/// Whether a shutdown scheduled for `generation` after `ttl_secs` stops the worker at
/// `now_ms`: the worker is the one it was scheduled for, and has not answered for at
/// least `ttl_secs` seconds.
pub open spec fn shutdown_due(pool: WorkerPool, generation: u64, ttl_secs: u64, now_ms: u64) -> bool {
    &&& pool.running
    &&& pool.generation == generation
    &&& match pool.last_used_ms {
        Some(at) => now_ms >= at && now_ms - at >= ttl_secs * 1000,
        None => false,
    }
}

impl WorkerPool {
    /// No worker yet.
    pub fn new() -> (p: WorkerPool)
        ensures
            p == (WorkerPool { running: false, generation: 0, last_used_ms: None }),
    {
        WorkerPool { running: false, generation: 0, last_used_ms: None }
    }

    /// Before a request: says whether a worker must be started for it; starting one
    /// begins a new generation.
    pub fn before_request(&mut self) -> (start: bool)
        ensures
            start == !old(self).running,
            final(self).running,
            final(self).last_used_ms == old(self).last_used_ms,
            final(self).generation == if start {
                next_generation(old(self).generation)
            } else {
                old(self).generation
            },
    {
        if self.running {
            return false;
        }
        self.running = true;
        self.generation = if self.generation == u64::MAX {
            self.generation
        } else {
            self.generation + 1
        };
        true
    }

    /// After an answer at `now_ms` to a request of `profile`: the answer is remembered,
    /// and the shutdown to schedule is given (the generation it is for, and after how
    /// many seconds).
    pub fn after_success(&mut self, now_ms: u64, profile: Option<&str>) -> (r: (u64, u64))
        ensures
            *final(self) == (WorkerPool { last_used_ms: Some(now_ms), ..*old(self) }),
            r.0 == old(self).generation,
            r.1 == if profile_name(
                match profile {
                    Some(p) => Some(p@),
                    None => None,
                },
            ) == "dictation"@ {
                ASR_DICTATION_IDLE_TTL_SECS
            } else {
                ASR_IDLE_TTL_SECS
            },
    {
        self.last_used_ms = Some(now_ms);
        (self.generation, idle_ttl_for_profile(profile))
    }

    /// After a failed request: the worker is dropped, and a new generation begins.
    pub fn after_failure(&mut self)
        ensures
            *final(self) == (WorkerPool {
                running: false,
                generation: next_generation(old(self).generation),
                last_used_ms: old(self).last_used_ms,
            }),
    {
        self.running = false;
        self.generation = if self.generation == u64::MAX {
            self.generation
        } else {
            self.generation + 1
        };
    }

    /// When a shutdown scheduled for `generation` after `ttl_secs` comes due at
    /// `now_ms`: says whether the worker is stopped, and stops it where it is.
    pub fn idle_shutdown(&mut self, generation: u64, ttl_secs: u64, now_ms: u64) -> (stop: bool)
        ensures
            stop == shutdown_due(*old(self), generation, ttl_secs, now_ms),
            stop ==> *final(self) == (WorkerPool { running: false, ..*old(self) }),
            !stop ==> *final(self) == *old(self),
    {
        if !self.running || self.generation != generation {
            return false;
        }
        let due = match self.last_used_ms {
            Some(at) => now_ms >= at && (now_ms - at) / 1000 >= ttl_secs,
            None => false,
        };
        proof {
            if let Some(at) = self.last_used_ms {
                if now_ms >= at {
                    let d = (now_ms - at) as int;
                    assert((d / 1000 >= ttl_secs) == (d >= ttl_secs * 1000)) by (nonlinear_arith)
                        requires
                            d >= 0,
                            ttl_secs >= 0,
                    ;
                }
            }
        }
        if due {
            self.running = false;
        }
        due
    }
}

/// A worker is never stopped by a shutdown meant for an earlier one: once a request
/// fails (or a worker is started), shutdowns scheduled before it no longer stop
/// anything, as long as the generations have not run out.
pub proof fn lemma_new_generation_cancels_old_shutdowns(
    pool: WorkerPool,
    ttl_secs: u64,
    now_ms: u64,
)
    requires
        pool.generation < u64::MAX,
    ensures
        ({
            let failed = WorkerPool {
                running: false,
                generation: next_generation(pool.generation),
                last_used_ms: pool.last_used_ms,
            };
            let restarted = WorkerPool { running: true, generation: next_generation(failed.generation), ..failed };
            &&& !shutdown_due(failed, pool.generation, ttl_secs, now_ms)
            &&& (failed.generation < u64::MAX ==> !shutdown_due(restarted, pool.generation, ttl_secs, now_ms))
        }),
{
}

/// A worker that answered within the last `ttl_secs` seconds is never stopped.
pub proof fn lemma_recent_use_keeps_the_worker(
    pool: WorkerPool,
    generation: u64,
    ttl_secs: u64,
    now_ms: u64,
)
    requires
        pool.last_used_ms matches Some(at) && now_ms >= at && now_ms - at < ttl_secs * 1000,
    ensures
        !shutdown_due(pool, generation, ttl_secs, now_ms),
{
}

/// What one line of the worker's output is.
pub enum WorkerLine {
    /// Not a reply (it does not start with `{`): read on.
    Skip,
    /// The reply, trimmed.
    Reply(String),
    /// The reply reports this error.
    Failed(String),
    /// The line starts like JSON but is not: the request fails with this error.
    Invalid(String),
}

/// What one line of the worker's output is: lines that are not JSON are passed over;
/// the first JSON line is the reply, unless it is not valid JSON or reports an error
/// (code `SIDECAR_ERROR` and message `Python ASR worker failed` where absent).
pub fn worker_line(line: &str) -> (r: WorkerLine)
    ensures
        ({
            let t = trim(line@);
            &&& !has_prefix(t, "{"@) ==> r is Skip
            &&& has_prefix(t, "{"@) ==> match json_syntax_error(t) {
                Some(e) => r matches WorkerLine::Invalid(x) && x@ == "Invalid ASR worker JSON response: "@
                    + e + "; line="@ + t,
                None => match reply_error(
                    json_pointer_bool(t, "/ok"@),
                    json_pointer_string(t, "/error/code"@),
                    json_pointer_string(t, "/error/message"@),
                    "Python ASR worker failed"@,
                ) {
                    Some(e) => r matches WorkerLine::Failed(x) && x@ == e,
                    None => r matches WorkerLine::Reply(x) && x@ == t,
                },
            }
        }),
{
    let t = trim_chars(&chars_of(line));
    if !starts_with(&t, &chars_of("{")) {
        return WorkerLine::Skip;
    }
    let text = string_from_chars(&t);
    if let Some(e) = json_error_of(text.as_str()) {
        let mut m = chars_of("Invalid ASR worker JSON response: ");
        append_chars(&mut m, &chars_of(e.as_str()));
        append_chars(&mut m, &chars_of("; line="));
        append_chars(&mut m, &t);
        return WorkerLine::Invalid(string_from_chars(&m));
    }
    let ok = json_bool_at(text.as_str(), "/ok");
    let code = json_str_at(text.as_str(), "/error/code");
    let message = json_str_at(text.as_str(), "/error/message");
    let code_ref = match &code {
        Some(c) => Some(c.as_str()),
        None => None,
    };
    let message_ref = match &message {
        Some(m) => Some(m.as_str()),
        None => None,
    };
    match reply_error_message(ok, code_ref, message_ref, "Python ASR worker failed") {
        Some(e) => WorkerLine::Failed(e),
        None => WorkerLine::Reply(text),
    }
}

/// The given value, where one is set.
pub open spec fn raw_or(a: Option<String>, b: Option<String>) -> Option<String> {
    if a is Some {
        a
    } else {
        b
    }
}

fn assignment(key: &str, value: &Option<String>) -> (a: EnvAssignment)
    ensures
        assigns(a, key@, *value),
{
    let v = match value {
        Some(s) => {
            let t = trim_chars(&chars_of(s.as_str()));
            if t.len() == 0 {
                None
            } else {
                Some(string_from_chars(&t))
            }
        },
        None => None,
    };
    EnvAssignment { key: owned(key), value: v }
}

/// How the worker is given the configured proxies: HTTP and the catch-all as
/// configured, HTTPS as configured or else the HTTP one, each under its lower- and
/// upper-case name; a blank or missing proxy removes its variables.
pub fn worker_proxy_assignments(settings: &AppSettings) -> (r: Vec<EnvAssignment>)
    ensures
        r@.len() == 6,
        assigns(r@[0], "http_proxy"@, settings.http_proxy),
        assigns(r@[1], "HTTP_PROXY"@, settings.http_proxy),
        assigns(r@[2], "https_proxy"@, raw_or(settings.https_proxy, settings.http_proxy)),
        assigns(r@[3], "HTTPS_PROXY"@, raw_or(settings.https_proxy, settings.http_proxy)),
        assigns(r@[4], "ALL_PROXY"@, settings.all_proxy),
        assigns(r@[5], "all_proxy"@, settings.all_proxy),
{
    let https = match &settings.https_proxy {
        Some(h) => Some(owned(h.as_str())),
        None => match &settings.http_proxy {
            Some(h) => Some(owned(h.as_str())),
            None => None,
        },
    };
    let mut r: Vec<EnvAssignment> = Vec::new();
    r.push(assignment("http_proxy", &settings.http_proxy));
    r.push(assignment("HTTP_PROXY", &settings.http_proxy));
    r.push(assignment("https_proxy", &https));
    r.push(assignment("HTTPS_PROXY", &https));
    r.push(assignment("ALL_PROXY", &settings.all_proxy));
    r.push(assignment("all_proxy", &settings.all_proxy));
    r
}

} // verus!
