//! The trigger evaluator and the misfire evaluator.
//!
//! `compute_next_run` turns a trigger, the current local moment and the
//! task's runtime state into the next due instant, or nothing. The time
//! zone's resolution of a wall-clock reading is the only outside work;
//! it enters through [`crate::civil::resolve_local`], and the pure
//! search over the resolved candidates is verified separately in
//! [`pick_first_due`]. Malformed trigger data never raises an error: it
//! resolves to "never fires".

use vstd::prelude::*;

use crate::civil::{
    date_wf, lemma_date_plus_count, moment_civil_secs, moment_wf, next_day, parse_hhmm,
    resolve_local, spec_civil_secs, spec_date_days, spec_date_plus, spec_parse_hhmm, spec_weekday,
    weekday_index, CivilDate, LocalMoment,
};
use crate::models::{MisfirePolicy, TaskState, Trigger};
use crate::text::{eq_ignore_case, str_eq_ignore_ascii_case};

verus! {

/// Instants the scheduler works with: within ten thousand years or so
/// of the epoch, so that second arithmetic stays far from the integer
/// limits.
pub open spec fn instant_wf(t: int) -> bool {
    -300_000_000_000 <= t <= 300_000_000_000
}

/// The runtime record holds an instant the scheduler can do
/// arithmetic on.
pub open spec fn state_instants_wf(s: TaskState) -> bool {
    s.last_run_at_utc matches Some(t) ==> instant_wf(t as int)
}

/// A well-formed moment's instant is itself in range: the wall clock
/// reads a supported year and the instant sits within a zone offset of
/// it.
pub proof fn lemma_moment_instant_wf(m: LocalMoment)
    requires
        moment_wf(m),
    ensures
        instant_wf(m.utc_seconds as int),
{
    let y = m.date.year as int;
    let mo = m.date.month as int;
    let yy = if mo <= 2 {
        y - 1
    } else {
        y
    };
    assert(0 <= yy <= 9998);
    assert(0 <= yy / 400 <= 24);
    assert(0 <= yy % 400 < 400);
    assert(yy - (yy / 400) * 400 == yy % 400);
    assert(-719500 < crate::civil::spec_days_from_civil(
        y,
        mo,
        m.date.day as int,
    ) < 3_000_000);
}

/// The canonical three-letter name of a weekday index, Monday 0
/// through Sunday 6.
pub open spec fn spec_weekday_name(w: int) -> Seq<char> {
    if w == 0 {
        "Mon"@
    } else if w == 1 {
        "Tue"@
    } else if w == 2 {
        "Wed"@
    } else if w == 3 {
        "Thu"@
    } else if w == 4 {
        "Fri"@
    } else if w == 5 {
        "Sat"@
    } else {
        "Sun"@
    }
}

/// The canonical three-letter name of a weekday index.
pub fn weekday_name(w: u8) -> (s: &'static str)
    requires
        w < 7,
    ensures
        s@ == spec_weekday_name(w as int),
{
    if w == 0 {
        "Mon"
    } else if w == 1 {
        "Tue"
    } else if w == 2 {
        "Wed"
    } else if w == 3 {
        "Thu"
    } else if w == 4 {
        "Fri"
    } else if w == 5 {
        "Sat"
    } else {
        "Sun"
    }
}

/// Whether a day filter admits weekday `w`: no filter admits every
/// day, and a filter admits the days it names, compared without
/// regard to ASCII case.
pub open spec fn spec_day_allowed(filter: Option<Vec<String>>, w: int) -> bool {
    match filter {
        None => true,
        Some(days) => exists|i: int|
            0 <= i < days@.len() && eq_ignore_case(#[trigger] days@[i]@, spec_weekday_name(w)),
    }
}

/// Whether a day filter admits weekday `w`.
pub fn day_allowed(filter: &Option<Vec<String>>, w: u8) -> (r: bool)
    requires
        w < 7,
    ensures
        r == spec_day_allowed(*filter, w as int),
{
    match filter {
        None => true,
        Some(days) => {
            let name = weekday_name(w);
            let mut i: usize = 0;
            while i < days.len()
                invariant
                    i <= days@.len(),
                    *filter is Some,
                    (*filter)->0 == *days,
                    w < 7,
                    name@ == spec_weekday_name(w as int),
                    forall|j: int| 0 <= j < i ==> !eq_ignore_case(#[trigger] days@[j]@, name@),
                decreases days@.len() - i,
            {
                if str_eq_ignore_ascii_case(days[i].as_str(), name) {
                    proof {
                        assert(eq_ignore_case(days@[i as int]@, spec_weekday_name(w as int)));
                    }
                    return true;
                }
                i = i + 1;
            }
            false
        },
    }
}

/// A scanned day of the DailyAt search: the candidate date and what
/// the time zone resolved its wall-clock target to.
#[derive(Clone, Copy, Debug)]
pub struct DailyCandidate {
    pub date: CivilDate,
    pub resolved: Option<i64>,
}

/// The first candidate whose resolved instant lies strictly after
/// `now_utc` and whose date the day filter admits.
pub open spec fn spec_pick_first_due(
    cands: Seq<DailyCandidate>,
    now_utc: int,
    filter: Option<Vec<String>>,
) -> Option<i64>
    decreases cands.len(),
{
    if cands.len() == 0 {
        None
    } else {
        let c = cands.first();
        match c.resolved {
            Some(u) => if u > now_utc && spec_day_allowed(filter, spec_weekday(c.date)) {
                Some(u)
            } else {
                spec_pick_first_due(cands.drop_first(), now_utc, filter)
            },
            None => spec_pick_first_due(cands.drop_first(), now_utc, filter),
        }
    }
}

/// Picks the first due candidate of a DailyAt scan: the first whose
/// resolved instant lies strictly after `now_utc` on a date the day
/// filter admits.
pub fn pick_first_due(cands: &Vec<DailyCandidate>, now_utc: i64, filter: &Option<Vec<String>>)
    -> (r: Option<i64>)
    requires
        forall|i: int| 0 <= i < cands@.len() ==> date_wf(#[trigger] cands@[i].date),
    ensures
        r == spec_pick_first_due(cands@, now_utc as int, *filter),
{
    proof {
        assert(cands@.skip(0) =~= cands@);
    }
    let mut i: usize = 0;
    while i < cands.len()
        invariant
            i <= cands@.len(),
            forall|k: int| 0 <= k < cands@.len() ==> date_wf(#[trigger] cands@[k].date),
            spec_pick_first_due(cands@, now_utc as int, *filter) == spec_pick_first_due(
                cands@.skip(i as int),
                now_utc as int,
                *filter,
            ),
        decreases cands@.len() - i,
    {
        proof {
            assert(cands@.skip(i as int).first() == cands@[i as int]);
            assert(cands@.skip(i as int).drop_first() =~= cands@.skip(i as int + 1));
        }
        let c = &cands[i];
        if let Some(u) = c.resolved {
            if u > now_utc {
                let w = weekday_index(&c.date);
                if day_allowed(filter, w) {
                    return Some(u);
                }
            }
        }
        i = i + 1;
    }
    proof {
        assert(cands@.skip(cands@.len() as int) =~= Seq::<DailyCandidate>::empty());
    }
    None
}

/// A picked instant always belongs to a candidate that passed the
/// checks: it was resolved, lies after `now_utc`, and its date is
/// admitted.
proof fn lemma_pick_is_candidate(cands: Seq<DailyCandidate>, now_utc: int, filter: Option<
    Vec<String>,
>)
    ensures
        spec_pick_first_due(cands, now_utc, filter) matches Some(u) ==> exists|i: int|
            0 <= i < cands.len() && (#[trigger] cands[i].resolved) == Some(u) && u > now_utc
                && spec_day_allowed(filter, spec_weekday(cands[i].date)),
    decreases cands.len(),
{
    if cands.len() > 0 {
        lemma_pick_is_candidate(cands.drop_first(), now_utc, filter);
        match spec_pick_first_due(cands, now_utc, filter) {
            Some(u) => {
                let c = cands.first();
                let picked_first = c.resolved matches Some(v) && v > now_utc && spec_day_allowed(
                    filter,
                    spec_weekday(c.date),
                );
                if !picked_first {
                    let j = choose|j: int|
                        0 <= j < cands.drop_first().len() && (#[trigger] cands.drop_first()[
                            j
                        ].resolved) == Some(u) && u > now_utc && spec_day_allowed(
                            filter,
                            spec_weekday(cands.drop_first()[j].date),
                        );
                    assert(cands[j + 1] == cands.drop_first()[j]);
                }
            },
            None => {},
        }
    }
}

/// The interval trigger's next instant: one period (plus jitter)
/// after the last completed run — or after now, when the task never
/// ran — collapsed to now when already past.
pub open spec fn spec_interval_next(every: int, jitter: int, last: Option<i64>, now_utc: int)
    -> int {
    let base = match last {
        Some(t) => t as int,
        None => now_utc,
    };
    let next = base + every + jitter;
    if next <= now_utc {
        now_utc
    } else {
        next
    }
}

/// The earliest-time bound of a OncePerDay trigger, when it is set,
/// parses, and still lies ahead of the wall clock.
pub open spec fn spec_earliest_pending(earliest: Option<String>, now: LocalMoment) -> Option<
    (u8, u8),
> {
    match earliest {
        None => None,
        Some(s) => match spec_parse_hhmm(s@) {
            None => None,
            Some(hm) => if now.hour * 3600 + now.minute * 60 + now.second < hm.0 * 3600 + hm.1
                * 60 {
                Some(hm)
            } else {
                None
            },
        },
    }
}

/// What `compute_next_run` promises of its result, for a given jitter
/// draw.
///
/// Disabled or malformed triggers yield nothing. A OncePerDay trigger
/// yields nothing on the day it already ran (so it never fires twice
/// for one recorded local date), nothing on a filtered-out day, the
/// earliest-time bound resolved to an instant when that bound is
/// still ahead, and otherwise now. A DailyAt instant always lies
/// strictly after now, on one of the next eight calendar days, within
/// a zone offset of that day's wall-clock target, on an admitted day.
/// An interval trigger's instant is exactly one period plus jitter
/// after the last run, collapsed to now when already past.
pub open spec fn next_run_contract(
    trigger: Trigger,
    now: LocalMoment,
    state: TaskState,
    jitter: int,
    r: Option<i64>,
) -> bool {
    match trigger {
        Trigger::OnLogin { .. } => r is None,
        Trigger::OncePerDay { enabled, earliest_time_local, days_of_week } => {
            let ran_today = state.last_run_date_local == Some(now.date);
            let allowed = spec_day_allowed(days_of_week, spec_weekday(now.date));
            &&& (!enabled ==> r is None)
            &&& (enabled && ran_today ==> r is None)
            &&& (enabled && !ran_today && !allowed ==> r is None)
            &&& (enabled && !ran_today && allowed ==> match spec_earliest_pending(
                earliest_time_local,
                now,
            ) {
                None => r == Some(now.utc_seconds),
                Some(hm) => match r {
                    None => true,
                    Some(u) => spec_civil_secs(
                        now.date.year as int,
                        now.date.month as int,
                        now.date.day as int,
                        hm.0 as int,
                        hm.1 as int,
                        0,
                    ) - 86400 < u < spec_civil_secs(
                        now.date.year as int,
                        now.date.month as int,
                        now.date.day as int,
                        hm.0 as int,
                        hm.1 as int,
                        0,
                    ) + 86400,
                },
            })
        },
        Trigger::DailyAt { enabled, time_local, days_of_week } => {
            &&& (!enabled ==> r is None)
            &&& (spec_parse_hhmm(time_local@) is None ==> r is None)
            &&& (match (spec_parse_hhmm(time_local@), r) {
                (Some(hm), Some(u)) => u > now.utc_seconds && u < now.utc_seconds + 10 * 86400
                    && exists|d: int|
                    0 <= d < 8 && {
                        let target = #[trigger] spec_date_plus(now.date, d);
                        &&& spec_day_allowed(days_of_week, spec_weekday(target))
                        &&& spec_civil_secs(
                            target.year as int,
                            target.month as int,
                            target.day as int,
                            hm.0 as int,
                            hm.1 as int,
                            0,
                        ) - 86400 < u < spec_civil_secs(
                            target.year as int,
                            target.month as int,
                            target.day as int,
                            hm.0 as int,
                            hm.1 as int,
                            0,
                        ) + 86400
                    },
                _ => true,
            })
        },
        Trigger::Interval { enabled, every_seconds, jitter_seconds } => {
            &&& ((!enabled || every_seconds < 60) ==> r is None)
            &&& (enabled && every_seconds >= 60 ==> r == Some(
                spec_interval_next(
                    every_seconds as int,
                    jitter,
                    state.last_run_at_utc,
                    now.utc_seconds as int,
                ) as i64,
            ))
        },
    }
}

/// Computes the next due instant of a trigger with the jitter draw
/// supplied by the caller, so that interval scheduling is
/// deterministic under test.
pub fn compute_next_run_with(
    trigger: &Trigger,
    now: &LocalMoment,
    state: &TaskState,
    jitter: u32,
) -> (r: Option<i64>)
    requires
        moment_wf(*now),
        state_instants_wf(*state),
    ensures
        next_run_contract(*trigger, *now, *state, jitter as int, r),
{
    match trigger {
        Trigger::OnLogin { .. } => None,
        Trigger::OncePerDay { enabled, earliest_time_local, days_of_week } => {
            if !*enabled {
                return None;
            }
            let ran_today = match &state.last_run_date_local {
                Some(d) => *d == now.date,
                None => false,
            };
            if ran_today {
                return None;
            }
            let w = weekday_index(&now.date);
            if !day_allowed(days_of_week, w) {
                return None;
            }
            if let Some(ts) = earliest_time_local {
                if let Some((eh, em)) = parse_hhmm(ts.as_str()) {
                    let now_secs: u32 = now.hour as u32 * 3600 + now.minute as u32 * 60
                        + now.second as u32;
                    let e_secs: u32 = eh as u32 * 3600 + em as u32 * 60;
                    if now_secs < e_secs {
                        return resolve_local(
                            now.date.year,
                            now.date.month,
                            now.date.day,
                            eh,
                            em,
                            0,
                        );
                    }
                }
            }
            Some(now.utc_seconds)
        },
        Trigger::DailyAt { enabled, time_local, days_of_week } => {
            if !*enabled {
                return None;
            }
            let (h, mi) = match parse_hhmm(time_local.as_str()) {
                Some(t) => t,
                None => {
                    return None;
                },
            };
            let mut cands: Vec<DailyCandidate> = Vec::new();
            let mut date = now.date;
            let mut d: usize = 0;
            while d < 8
                invariant
                    moment_wf(*now),
                    d <= 8,
                    cands@.len() == d,
                    date == spec_date_plus(now.date, d as int),
                    date_wf(date),
                    date.year <= 9998 || (date.month == 1 && date.day <= 1 + d),
                    spec_parse_hhmm(time_local@) == Some::<(u8, u8)>((h, mi)),
                    forall|k: int| 0 <= k < d ==> (#[trigger] cands@[k]).date == spec_date_plus(
                        now.date,
                        k,
                    ),
                    forall|k: int| 0 <= k < d ==> date_wf((#[trigger] cands@[k]).date),
                    forall|k: int| 0 <= k < d ==> ((#[trigger] cands@[k]).resolved matches Some(u)
                        ==> spec_civil_secs(
                        cands@[k].date.year as int,
                        cands@[k].date.month as int,
                        cands@[k].date.day as int,
                        h as int,
                        mi as int,
                        0,
                    ) - 86400 < u < spec_civil_secs(
                        cands@[k].date.year as int,
                        cands@[k].date.month as int,
                        cands@[k].date.day as int,
                        h as int,
                        mi as int,
                        0,
                    ) + 86400),
                decreases 8 - d,
            {
                let resolved = resolve_local(date.year, date.month, date.day, h, mi, 0);
                cands.push(DailyCandidate { date, resolved });
                date = next_day(&date);
                d = d + 1;
            }
            let r = pick_first_due(&cands, now.utc_seconds, days_of_week);
            proof {
                lemma_pick_is_candidate(cands@, now.utc_seconds as int, *days_of_week);
                if r is Some {
                    let u = r->0;
                    let i = choose|i: int|
                        0 <= i < cands@.len() && (#[trigger] cands@[i].resolved) == Some(u) && u
                            > now.utc_seconds && spec_day_allowed(
                            *days_of_week,
                            spec_weekday(cands@[i].date),
                        );
                    lemma_date_plus_count(now.date, i);
                    assert(u < now.utc_seconds + 10 * 86400);
                }
            }
            r
        },
        Trigger::Interval { enabled, every_seconds, jitter_seconds: _ } => {
            if !*enabled || *every_seconds < 60 {
                return None;
            }
            proof {
                lemma_moment_instant_wf(*now);
            }
            let base: i64 = match state.last_run_at_utc {
                Some(t) => t,
                None => now.utc_seconds,
            };
            let next: i64 = base + *every_seconds as i64 + jitter as i64;
            if next <= now.utc_seconds {
                Some(now.utc_seconds)
            } else {
                Some(next)
            }
        },
    }
}

/// How the jitter drawn for a trigger relates to its configured
/// maximum: strictly below a positive maximum, zero otherwise.
pub open spec fn spec_valid_jitter(jitter_seconds: Option<u32>, j: int) -> bool {
    match jitter_seconds {
        Some(jm) => if jm > 0 {
            0 <= j < jm
        } else {
            j == 0
        },
        None => j == 0,
    }
}

/// Relies on std's `SystemTime::now`, `SystemTime::duration_since`
/// and `Duration::subsec_nanos`: the fractional-second part of the
/// clock reading, always below one billion; a clock before the epoch
/// reads as zero.
#[verifier::external_body]
fn clock_subsec_nanos() -> (r: u32)
    ensures
        r < 1_000_000_000,
{
    std::time::SystemTime::now()
        .duration_since(std::time::UNIX_EPOCH)
        .map(|d| d.subsec_nanos())
        .unwrap_or(0)
}

/// Draws a jitter strictly below `max_jitter`, seeded from the
/// clock's nanosecond field.
pub fn rand_jitter(max_jitter: u32) -> (r: u32)
    requires
        max_jitter > 0,
    ensures
        r < max_jitter,
{
    clock_subsec_nanos() % max_jitter
}

/// Computes the next due instant of a trigger against the current
/// task state, drawing the interval jitter from the clock.
pub fn compute_next_run(trigger: &Trigger, now: &LocalMoment, state: &TaskState) -> (r: Option<
    i64,
>)
    requires
        moment_wf(*now),
        state_instants_wf(*state),
    ensures
        exists|j: int|
            #[trigger] next_run_contract(*trigger, *now, *state, j, r) && (trigger matches
                Trigger::Interval { jitter_seconds, .. } ==> spec_valid_jitter(*jitter_seconds, j)),
{
    let jitter: u32 = match trigger {
        Trigger::Interval { jitter_seconds: Some(j), .. } => if *j > 0 {
            rand_jitter(*j)
        } else {
            0
        },
        _ => 0,
    };
    let r = compute_next_run_with(trigger, now, state, jitter);
    proof {
        assert(next_run_contract(*trigger, *now, *state, jitter as int, r));
    }
    r
}

/// Whether a late fire should be skipped under a misfire policy:
/// never for RunImmediately, and exactly when the lateness strictly
/// exceeds the threshold for SkipIfLateOverSeconds.
pub open spec fn spec_should_skip(policy: MisfirePolicy, scheduled: int, now: int) -> bool {
    match policy {
        MisfirePolicy::RunImmediately => false,
        MisfirePolicy::SkipIfLateOverSeconds { seconds } => now - scheduled > seconds,
    }
}

/// Decides whether a fire at `now` of an instant scheduled at
/// `scheduled` is skipped under the misfire policy. Equality with the
/// threshold is not a skip.
pub fn check_misfire(policy: &MisfirePolicy, scheduled: i64, now: i64) -> (r: bool)
    requires
        instant_wf(scheduled as int),
        instant_wf(now as int),
    ensures
        r == spec_should_skip(*policy, scheduled as int, now as int),
{
    match policy {
        MisfirePolicy::RunImmediately => false,
        MisfirePolicy::SkipIfLateOverSeconds { seconds } => now - scheduled > *seconds as i64,
    }
}

/// Law: a valid DailyAt trigger with no day filter comes due strictly
/// after now and at most seven days later.
///
/// The candidates are the next eight calendar days at the trigger's
/// wall-clock time, each resolved by the zone; the one assumption is
/// that the zone used a single fixed offset for the whole window (no
/// daylight-saving transition falls in it), which is also what makes
/// every candidate resolve at all.
pub proof fn lemma_daily_at_window(
    cands: Seq<DailyCandidate>,
    now: LocalMoment,
    hour: int,
    minute: int,
    off: int,
)
    requires
        moment_wf(now),
        -86400 < off < 86400,
        now.utc_seconds == moment_civil_secs(now) - off,
        0 <= hour < 24,
        0 <= minute < 60,
        cands.len() == 8,
        forall|d: int| 0 <= d < 8 ==> (#[trigger] cands[d]).date == spec_date_plus(now.date, d),
        forall|d: int|
            0 <= d < 8 ==> ((#[trigger] cands[d]).resolved matches Some(u) && u == spec_civil_secs(
                cands[d].date.year as int,
                cands[d].date.month as int,
                cands[d].date.day as int,
                hour,
                minute,
                0,
            ) - off),
    ensures
        spec_pick_first_due(cands, now.utc_seconds as int, Option::<Vec<String>>::None)
            matches Some(u) && now.utc_seconds < u <= now.utc_seconds + 7 * 86400,
{
    let now_utc = now.utc_seconds as int;
    lemma_date_plus_count(now.date, 0);
    lemma_date_plus_count(now.date, 1);
    let base = spec_date_days(now.date) * 86400;
    let target = hour * 3600 + minute * 60;
    let wall = now.hour * 3600 + now.minute * 60 + now.second;
    assert(now_utc == base + wall - off);
    assert(cands[0].resolved matches Some(u) && u == base + target - off);
    assert(cands[1].resolved matches Some(u) && u == base + 86400 + target - off);
    assert(cands.first() == cands[0]);
    if target > wall {
        assert(spec_pick_first_due(cands, now_utc, Option::<Vec<String>>::None)
            == cands[0].resolved);
    } else {
        assert(cands.drop_first().first() == cands[1]);
        assert(spec_pick_first_due(cands, now_utc, Option::<Vec<String>>::None)
            == spec_pick_first_due(cands.drop_first(), now_utc, Option::<Vec<String>>::None));
        assert(spec_pick_first_due(cands.drop_first(), now_utc, Option::<Vec<String>>::None)
            == cands[1].resolved);
    }
}

} // verus!
