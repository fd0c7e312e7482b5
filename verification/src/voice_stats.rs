//! Daily statistics of successful dictations: each day counts its successes and the
//! characters they inserted, and remembers the latest success.
use vstd::prelude::*;

use crate::sorting::{lemma_lex_trichotomy, lex_less};
use crate::text::{opt_views, owned, str_is};

verus! {

broadcast use vstd::string::group_string_axioms;

/// The statistics of one day.
#[derive(Clone, Debug, PartialEq)]
pub struct DayStats {
    pub day: String,
    pub success_count: i64,
    pub success_chars: i64,
    pub last_success_at: Option<String>,
    pub last_success_chars: i64,
}

/// What is shown: today's successes and characters, those of all days, and the latest
/// success with its characters (none and 0 where there was none).
#[derive(Clone, Debug, PartialEq)]
pub struct VoiceInputStats {
    pub today_success_count: i64,
    pub today_success_chars: i64,
    pub total_success_count: i64,
    pub total_success_chars: i64,
    pub last_success_at: Option<String>,
    pub last_success_chars: i64,
}

/// `r` is what `day` holds after one more success inserting `chars` characters at
/// `at`, where the day held `current` before (`None`: nothing yet).
pub open spec fn records_success(
    current: Option<DayStats>,
    day: Seq<char>,
    chars: int,
    at: Seq<char>,
    r: DayStats,
) -> bool {
    &&& r.day@ == day
    &&& r.success_count == match current {
        Some(c) => c.success_count + 1,
        None => 1,
    }
    &&& r.success_chars == match current {
        Some(c) => c.success_chars + chars,
        None => chars,
    }
    &&& r.last_success_at matches Some(a) && a@ == at
    &&& r.last_success_chars == chars
}

/// The statistics of `day` after one more success inserting `chars` characters at
/// `inserted_at`: a day seen before adds one success and its characters, and either
/// way the success is the day's latest.
pub fn record_success(current: Option<DayStats>, day: &str, chars: i64, inserted_at: &str) -> (r:
    DayStats)
    requires
        current matches Some(c) ==> c.success_count < i64::MAX && (0 <= chars ==> c.success_chars
            <= i64::MAX - chars) && (chars < 0 ==> c.success_chars >= i64::MIN - chars),
    ensures
        records_success(current, day@, chars as int, inserted_at@, r),
{
    match current {
        Some(c) => DayStats {
            day: owned(day),
            success_count: c.success_count + 1,
            success_chars: c.success_chars + chars,
            last_success_at: Some(owned(inserted_at)),
            last_success_chars: chars,
        },
        None => DayStats {
            day: owned(day),
            success_count: 1,
            success_chars: chars,
            last_success_at: Some(owned(inserted_at)),
            last_success_chars: chars,
        },
    }
}

/// No day is stored twice.
pub open spec fn distinct_days(days: Seq<DayStats>) -> bool {
    forall|i: int, j: int| 0 <= i < j < days.len() ==> (#[trigger] days[i]).day@ != (#[trigger] days[j]).day@
}

/// Whether some stored entry is the one of `day`.
pub open spec fn has_day(days: Seq<DayStats>, day: Seq<char>) -> bool {
    exists|i: int| 0 <= i < days.len() && (#[trigger] days[i]).day@ == day
}

/// The position of the entry of `day` (meaningful where `has_day` holds).
pub open spec fn day_index(days: Seq<DayStats>, day: Seq<char>) -> int {
    choose|i: int| 0 <= i < days.len() && (#[trigger] days[i]).day@ == day
}

/// What is stored for `day`: its entry, or nothing.
pub open spec fn stored_day(days: Seq<DayStats>, day: Seq<char>) -> Option<DayStats> {
    if has_day(days, day) {
        Some(days[day_index(days, day)])
    } else {
        None
    }
}

/// The stored days once `r` is written: it takes the place of the entry of its day, or
/// joins the others where its day had none.
pub open spec fn store_day(days: Seq<DayStats>, r: DayStats) -> Seq<DayStats> {
    if has_day(days, r.day@) {
        days.update(day_index(days, r.day@), r)
    } else {
        days.push(r)
    }
}

/// The sum of the success counts of `days`.
pub open spec fn total_count(days: Seq<DayStats>) -> int
    decreases days.len(),
{
    if days.len() == 0 {
        0
    } else {
        total_count(days.drop_last()) + days.last().success_count
    }
}

/// The sum of the success characters of `days`.
pub open spec fn total_chars(days: Seq<DayStats>) -> int
    decreases days.len(),
{
    if days.len() == 0 {
        0
    } else {
        total_chars(days.drop_last()) + days.last().success_chars
    }
}

/// The position of the day with the latest success among the first `n` days (the first
/// such day where several share it); `None` where none of them had one.
pub open spec fn latest_among(days: Seq<DayStats>, n: nat) -> Option<int>
    decreases n,
{
    if n == 0 {
        None
    } else {
        let before = latest_among(days, (n - 1) as nat);
        match days[n - 1].last_success_at {
            None => before,
            Some(at) => match before {
                None => Some(n - 1),
                Some(b) => if lex_less(days[b].last_success_at->Some_0@, at@) {
                    Some(n - 1)
                } else {
                    Some(b)
                },
            },
        }
    }
}

proof fn lemma_latest_in_range(days: Seq<DayStats>, n: nat)
    requires
        n <= days.len(),
    ensures
        latest_among(days, n) matches Some(k) ==> 0 <= k < n && days[k].last_success_at is Some,
    decreases n,
{
    if n > 0 {
        lemma_latest_in_range(days, (n - 1) as nat);
    }
}

/// Replacing the entry at `i` changes each total by the difference between the two
/// entries.
proof fn lemma_totals_after_update(days: Seq<DayStats>, i: int, x: DayStats)
    requires
        0 <= i < days.len(),
    ensures
        total_count(days.update(i, x)) == total_count(days) - days[i].success_count + x.success_count,
        total_chars(days.update(i, x)) == total_chars(days) - days[i].success_chars + x.success_chars,
    decreases days.len(),
{
    if i == days.len() - 1 {
        assert(days.update(i, x).drop_last() =~= days.drop_last());
    } else {
        lemma_totals_after_update(days.drop_last(), i, x);
        assert(days.update(i, x).drop_last() =~= days.drop_last().update(i, x));
    }
}

/// Where the success at `k` is strictly later than every other one, it is the latest
/// among any first `n` days that include it.
proof fn lemma_latest_is_the_newest(days: Seq<DayStats>, k: int, n: nat)
    requires
        n <= days.len(),
        0 <= k < days.len(),
        days[k].last_success_at is Some,
        forall|j: int|
            0 <= j < days.len() && j != k && (#[trigger] days[j]).last_success_at is Some
                ==> lex_less(days[j].last_success_at->Some_0@, days[k].last_success_at->Some_0@),
    ensures
        k < n ==> latest_among(days, n) == Some(k),
    decreases n,
{
    if n > 0 {
        lemma_latest_is_the_newest(days, k, (n - 1) as nat);
        lemma_latest_in_range(days, (n - 1) as nat);
        let newest = days[k].last_success_at->Some_0@;
        if n - 1 > k {
            match days[n - 1].last_success_at {
                None => {},
                Some(at) => {
                    assert(lex_less(at@, newest));
                    lemma_lex_trichotomy(at@, newest);
                },
            }
        }
    }
}

/// One more success recorded for `day` and written back over the stored days: no day is
/// stored twice, the day's entry is the recorded one, the totals grow by exactly one
/// success and by its characters, and, where every other stored success came strictly
/// earlier, the new success is the latest one shown.
pub proof fn lemma_recorded_success_updates_totals(
    days: Seq<DayStats>,
    day: Seq<char>,
    chars: int,
    at: Seq<char>,
    recorded: DayStats,
)
    requires
        distinct_days(days),
        records_success(stored_day(days, day), day, chars, at, recorded),
    ensures
        distinct_days(store_day(days, recorded)),
        stored_day(store_day(days, recorded), day) == Some(recorded),
        total_count(store_day(days, recorded)) == total_count(days) + 1,
        total_chars(store_day(days, recorded)) == total_chars(days) + chars,
        (forall|j: int|
            0 <= j < days.len() && (#[trigger] days[j]).day@ != day && days[j].last_success_at is Some
                ==> lex_less(days[j].last_success_at->Some_0@, at)) ==> ({
            let after = store_day(days, recorded);
            latest_among(after, after.len()) matches Some(k) && after[k] == recorded
        }),
{
    let after = store_day(days, recorded);
    let k = if has_day(days, day) {
        day_index(days, day)
    } else {
        days.len() as int
    };
    if has_day(days, day) {
        lemma_totals_after_update(days, k, recorded);
    } else {
        assert(after.drop_last() =~= days);
    }
    assert(after[k] == recorded);
    assert forall|j: int| 0 <= j < after.len() && j != k implies (#[trigger] after[j]).day@ != day
        && after[j] == days[j] by {}
    assert(has_day(after, day));
    assert(day_index(after, day) == k);
    if forall|j: int|
        0 <= j < days.len() && (#[trigger] days[j]).day@ != day && days[j].last_success_at is Some
            ==> lex_less(days[j].last_success_at->Some_0@, at) {
        assert forall|j: int|
            0 <= j < after.len() && j != k && (#[trigger] after[j]).last_success_at is Some implies lex_less(
            after[j].last_success_at->Some_0@,
            after[k].last_success_at->Some_0@,
        ) by {
            assert(after[j] == days[j]);
        }
        lemma_latest_is_the_newest(after, k, after.len());
    }
}

/// The statistics shown for `today`: that day's figures (0 where it has none), the
/// totals over all days, and the latest success of any day.
pub fn voice_input_stats(days: &Vec<DayStats>, today: &str) -> (r: Result<VoiceInputStats, String>)
    requires
        distinct_days(days@),
    ensures
        match r {
            Ok(s) => {
                &&& s.total_success_count == total_count(days@)
                &&& s.total_success_chars == total_chars(days@)
                &&& (forall|i: int| 0 <= i < days@.len() ==> (#[trigger] days@[i]).day@ != today@)
                    ==> s.today_success_count == 0 && s.today_success_chars == 0
                &&& forall|i: int|
                    0 <= i < days@.len() && (#[trigger] days@[i]).day@ == today@
                        ==> s.today_success_count == days@[i].success_count
                        && s.today_success_chars == days@[i].success_chars
                &&& match latest_among(days@, days@.len()) {
                    Some(k) => opt_views(s.last_success_at) == opt_views(days@[k].last_success_at)
                        && s.last_success_chars == days@[k].last_success_chars,
                    None => s.last_success_at is None && s.last_success_chars == 0,
                }
            },
            Err(e) => e@ == "Failed to read total voice input stats: integer overflow"@ && (
                total_count(days@) > i64::MAX || total_count(days@) < i64::MIN || total_chars(days@)
                    > i64::MAX || total_chars(days@) < i64::MIN || exists|n: nat| n <= days@.len() && (
                total_count(days@.take(n as int)) > i64::MAX || total_count(days@.take(n as int)) < i64::MIN
                    || total_chars(days@.take(n as int)) > i64::MAX || total_chars(days@.take(n as int))
                    < i64::MIN)),
        },
{
    let mut count: i64 = 0;
    let mut chars: i64 = 0;
    let mut today_count: i64 = 0;
    let mut today_chars: i64 = 0;
    let mut latest: Option<usize> = None;
    let mut i: usize = 0;
    while i < days.len()
        invariant
            i <= days@.len(),
            forall|a: int, b: int| 0 <= a < b < days@.len() ==> (#[trigger] days@[a]).day@ != (#[trigger] days@[b]).day@,
            count == total_count(days@.take(i as int)),
            chars == total_chars(days@.take(i as int)),
            (forall|m: int| 0 <= m < i ==> (#[trigger] days@[m]).day@ != today@) ==> today_count == 0
                && today_chars == 0,
            forall|m: int|
                0 <= m < i && (#[trigger] days@[m]).day@ == today@ ==> today_count
                    == days@[m].success_count && today_chars == days@[m].success_chars,
            match latest {
                Some(k) => latest_among(days@, i as nat) == Some(k as int),
                None => latest_among(days@, i as nat) is None,
            },
        decreases days.len() - i,
    {
        proof {
            assert(days@.take(i + 1).drop_last() =~= days@.take(i as int));
            assert(days@.take(i + 1).last() == days@[i as int]);
            assert(((i + 1) as nat - 1) as nat == i as nat);
            lemma_latest_in_range(days@, i as nat);
        }
        let d = &days[i];
        let next_count = count.checked_add(d.success_count);
        let next_chars = chars.checked_add(d.success_chars);
        match (next_count, next_chars) {
            (Some(c), Some(h)) => {
                count = c;
                chars = h;
            },
            _ => {
                proof {
                    assert(days@.take(i + 1).len() == i + 1);
                    let w = (i + 1) as nat;
                    assert(total_count(days@.take(w as int)) > i64::MAX || total_count(
                        days@.take(w as int),
                    ) < i64::MIN || total_chars(days@.take(w as int)) > i64::MAX || total_chars(
                        days@.take(w as int),
                    ) < i64::MIN);
                }
                return Err(owned("Failed to read total voice input stats: integer overflow"));
            },
        }
        if str_is(d.day.as_str(), today) {
            today_count = d.success_count;
            today_chars = d.success_chars;
        }
        match &d.last_success_at {
            None => {},
            Some(at) => {
                match latest {
                    None => {
                        latest = Some(i);
                    },
                    Some(b) => {
                        let best = match &days[b].last_success_at {
                            Some(x) => x,
                            None => {
                                proof {
                                    assert(false);
                                }
                                at
                            },
                        };
                        if crate::sorting::lex_less_exec(&crate::text::chars_of(best.as_str()), &crate::text::chars_of(at.as_str())) {
                            latest = Some(i);
                        }
                    },
                }
            },
        }
        i += 1;
    }
    proof {
        assert(days@.take(days@.len() as int) =~= days@);
        lemma_latest_in_range(days@, days@.len());
    }
    let (last_success_at, last_success_chars) = match latest {
        Some(k) => {
            let at = match &days[k].last_success_at {
                Some(x) => Some(owned(x.as_str())),
                None => None,
            };
            (at, days[k].last_success_chars)
        },
        None => (None, 0),
    };
    Ok(
        VoiceInputStats {
            today_success_count: today_count,
            today_success_chars: today_chars,
            total_success_count: count,
            total_success_chars: chars,
            last_success_at,
            last_success_chars,
        },
    )
}

} // verus!
