//! Properties of the retention policies that hold for every listing, every configuration
//! and every moment.
use vstd::prelude::*;

use crate::calendar::{
    date_minus_days, date_of, day_number, hour_of, instant_ge, instant_of, iso_week_of, Instant, LocalDateTime,
    MAX_TIMESTAMP, MAX_YEAR, MIN_TIMESTAMP, MIN_YEAR,
};
use crate::config::RetentionConfig;
use crate::reason::{has_any_reason, kept_positions, RetentionReason};
use crate::rotation::{comes_before, newest_first_order_of, reorder};
use crate::selection::{
    in_window, is_period_pick, is_period_policy, period_key, retention_cutoffs, retention_model, Cutoffs, FileInfo,
};

verus! {

/// The setting of a configuration that drives policy `p`.
pub open spec fn policy_setting(config: RetentionConfig, p: RetentionReason) -> int {
    match p {
        RetentionReason::KeepLast => config.keep_last as int,
        RetentionReason::Hourly => config.keep_hourly as int,
        RetentionReason::Daily => config.keep_daily as int,
        RetentionReason::Weekly => config.keep_weekly as int,
        RetentionReason::Monthly => config.keep_monthly as int,
        RetentionReason::Yearly => config.keep_yearly as int,
    }
}

/// A period policy keeps at most one file per period: two different files kept for the
/// same period reason fall in different periods.
pub proof fn law_one_file_per_period(
    files: Seq<FileInfo>,
    keep_last: int,
    c: Cutoffs,
    p: RetentionReason,
    i: int,
    j: int,
)
    requires
        is_period_policy(p),
        0 <= i < files.len(),
        0 <= j < files.len(),
        i != j,
        retention_model(files, keep_last, c)[i].contains(p),
        retention_model(files, keep_last, c)[j].contains(p),
    ensures
        period_key(p, files[i].created) != period_key(p, files[j].created),
{
    assert(is_period_pick(files, c, p, i));
    assert(is_period_pick(files, c, p, j));
    if i < j {
        assert(in_window(p, files[j].created, c));
    } else {
        assert(in_window(p, files[i].created, c));
    }
}

/// Every period that holds a file inside a policy's window is kept: for a file inside the
/// window of period policy `p`, a file at the same or a later position in the same period is
/// kept for `p`.
pub proof fn law_every_period_kept(files: Seq<FileInfo>, keep_last: int, c: Cutoffs, p: RetentionReason, i: int)
    requires
        is_period_policy(p),
        0 <= i < files.len(),
        in_window(p, files[i].created, c),
    ensures
        exists|j: int|
            i <= j < files.len() && #[trigger] retention_model(files, keep_last, c)[j].contains(p) && period_key(
                p,
                files[j].created,
            ) == period_key(p, files[i].created),
    decreases files.len() - i,
{
    let model = retention_model(files, keep_last, c);
    if is_period_pick(files, c, p, i) {
        assert(model[i].contains(p));
    } else {
        let j: int = choose|j: int|
            i < j < files.len() && in_window(p, #[trigger] files[j].created, c) && period_key(p, files[j].created)
                == period_key(p, files[i].created);
        law_every_period_kept(files, keep_last, c, p, j);
        let k: int = choose|k: int|
            j <= k < files.len() && #[trigger] model[k].contains(p) && period_key(p, files[k].created) == period_key(
                p,
                files[j].created,
            );
        assert(i <= k < files.len() && model[k].contains(p));
    }
}

/// A file kept for a period policy lies inside that policy's window.
pub proof fn law_kept_file_in_window(files: Seq<FileInfo>, keep_last: int, c: Cutoffs, p: RetentionReason, i: int)
    requires
        is_period_policy(p),
        0 <= i < files.len(),
        retention_model(files, keep_last, c)[i].contains(p),
    ensures
        in_window(p, files[i].created, c),
{
    assert(is_period_pick(files, c, p, i));
}

/// On a listing sorted newest first, the file a period policy keeps for a period is the
/// oldest file of that period inside the window.
pub proof fn law_keeps_oldest_of_period(
    files: Seq<FileInfo>,
    keep_last: int,
    c: Cutoffs,
    p: RetentionReason,
    i: int,
    j: int,
)
    requires
        is_period_policy(p),
        forall|a: int, b: int|
            0 <= a < b < files.len() ==> instant_ge(instant_of(#[trigger] files[a].created), instant_of(#[trigger] files[b].created)),
        0 <= i < files.len(),
        0 <= j < files.len(),
        retention_model(files, keep_last, c)[i].contains(p),
        in_window(p, files[j].created, c),
        period_key(p, files[j].created) == period_key(p, files[i].created),
    ensures
        j <= i,
        instant_ge(instant_of(files[j].created), instant_of(files[i].created)),
{
    assert(is_period_pick(files, c, p, i));
    if j > i {
        assert(in_window(p, files[j].created, c));
    }
}

/// Keep-last keeps exactly the first `keep_last` files of the listing (all of them when
/// there are fewer).
pub proof fn law_keep_last_prefix(files: Seq<FileInfo>, keep_last: int, c: Cutoffs, i: int)
    requires
        0 <= i < files.len(),
    ensures
        retention_model(files, keep_last, c)[i].contains(RetentionReason::KeepLast) <==> i < keep_last,
{
}

/// Keep-last with a larger count keeps every file that a smaller count keeps.
pub proof fn law_keep_last_monotone(files: Seq<FileInfo>, n: int, m: int, c: Cutoffs, i: int)
    requires
        n <= m,
        0 <= i < files.len(),
        retention_model(files, n, c)[i].contains(RetentionReason::KeepLast),
    ensures
        retention_model(files, m, c)[i].contains(RetentionReason::KeepLast),
{
}

/// On a listing sorted newest first, keep-last keeps the newest files: each file it keeps is
/// at least as new as each file it does not keep.
pub proof fn law_keep_last_keeps_newest(
    input: Seq<FileInfo>,
    order: Seq<usize>,
    keep_last: int,
    c: Cutoffs,
    i: int,
    j: int,
)
    requires
        newest_first_order_of(input, order),
        0 <= i < input.len(),
        0 <= j < input.len(),
        retention_model(reorder(input, order), keep_last, c)[i].contains(RetentionReason::KeepLast),
        !retention_model(reorder(input, order), keep_last, c)[j].contains(RetentionReason::KeepLast),
    ensures
        instant_ge(instant_of(reorder(input, order)[i].created), instant_of(reorder(input, order)[j].created)),
{
    assert(i < j);
    assert(comes_before(input, order[i] as int, order[j] as int));
}

/// A policy whose setting is 0 keeps no file.
pub proof fn law_zero_setting_keeps_nothing(files: Seq<FileInfo>, config: RetentionConfig, now: LocalDateTime, p: RetentionReason, i: int)
    requires
        retention_cutoffs(config, now) is Some,
        policy_setting(config, p) == 0,
        0 <= i < files.len(),
    ensures
        !retention_model(files, config.keep_last as int, retention_cutoffs(config, now).unwrap())[i].contains(p),
{
    let c = retention_cutoffs(config, now).unwrap();
    if p != RetentionReason::KeepLast {
        assert(!in_window(p, files[i].created, c));
    }
}

/// The policies are independent: what policy `p` keeps depends on its own setting only,
/// not on the settings of the other policies.
pub proof fn law_policies_independent(
    files: Seq<FileInfo>,
    a: RetentionConfig,
    b: RetentionConfig,
    now: LocalDateTime,
    p: RetentionReason,
    i: int,
)
    requires
        retention_cutoffs(a, now) is Some,
        retention_cutoffs(b, now) is Some,
        policy_setting(a, p) == policy_setting(b, p),
        0 <= i < files.len(),
    ensures
        retention_model(files, a.keep_last as int, retention_cutoffs(a, now).unwrap())[i].contains(p)
            == retention_model(files, b.keep_last as int, retention_cutoffs(b, now).unwrap())[i].contains(p),
{
    let ca = retention_cutoffs(a, now).unwrap();
    let cb = retention_cutoffs(b, now).unwrap();
    if p != RetentionReason::KeepLast {
        assert forall|t: LocalDateTime| in_window(p, t, ca) == in_window(p, t, cb) by {}
        assert(is_period_pick(files, ca, p, i) == is_period_pick(files, cb, p, i));
    }
}

/// Whether two sets of windows give policy `p` the same window.
pub open spec fn same_window(c1: Cutoffs, c2: Cutoffs, p: RetentionReason) -> bool {
    match p {
        RetentionReason::KeepLast => true,
        RetentionReason::Hourly => c1.hourly == c2.hourly,
        RetentionReason::Daily => c1.daily == c2.daily,
        RetentionReason::Weekly => c1.weekly == c2.weekly,
        RetentionReason::Monthly => c1.monthly == c2.monthly,
        RetentionReason::Yearly => c1.yearly == c2.yearly,
    }
}

/// What policy `p` keeps depends on its own window (or, for keep-last, its own count) only,
/// whatever the windows of the other policies are.
pub proof fn law_policy_reads_only_its_window(
    files: Seq<FileInfo>,
    k1: int,
    k2: int,
    c1: Cutoffs,
    c2: Cutoffs,
    p: RetentionReason,
    i: int,
)
    requires
        same_window(c1, c2, p),
        p == RetentionReason::KeepLast ==> k1 == k2,
        0 <= i < files.len(),
    ensures
        retention_model(files, k1, c1)[i].contains(p) == retention_model(files, k2, c2)[i].contains(p),
{
    if p != RetentionReason::KeepLast {
        assert forall|t: LocalDateTime| in_window(p, t, c1) == in_window(p, t, c2) by {}
        assert(is_period_pick(files, c1, p, i) == is_period_pick(files, c2, p, i));
    }
}

/// An empty listing keeps nothing.
pub proof fn law_empty_listing_keeps_nothing(keep_last: int, c: Cutoffs)
    ensures
        kept_positions(retention_model(Seq::<FileInfo>::empty(), keep_last, c)).is_empty(),
{
    assert(kept_positions(retention_model(Seq::<FileInfo>::empty(), keep_last, c)) =~= Set::<usize>::empty());
}

/// A file has a reason exactly when some policy keeps it.
pub proof fn law_kept_iff_some_policy(files: Seq<FileInfo>, keep_last: int, c: Cutoffs, i: usize)
    requires
        i < files.len(),
    ensures
        kept_positions(retention_model(files, keep_last, c)).contains(i) <==> exists|p: RetentionReason|
            #[trigger] retention_model(files, keep_last, c)[i as int].contains(p),
{
    let s = retention_model(files, keep_last, c)[i as int];
    if exists|p: RetentionReason| #[trigger] s.contains(p) {
        let p = choose|p: RetentionReason| #[trigger] s.contains(p);
        assert(has_any_reason(s)) by {
            match p {
                RetentionReason::KeepLast => {},
                RetentionReason::Hourly => {},
                RetentionReason::Daily => {},
                RetentionReason::Weekly => {},
                RetentionReason::Monthly => {},
                RetentionReason::Yearly => {},
            }
        }
    }
}

/// Whether two moments fall in the same calendar period of policy `p`, read from their local
/// dates and hours: the same hour of the same day, the same day, the same ISO week of the
/// same ISO year, the same month of the same year, or the same year.
pub open spec fn same_calendar_period(p: RetentionReason, s: LocalDateTime, t: LocalDateTime) -> bool {
    let a = date_of(s);
    let b = date_of(t);
    match p {
        RetentionReason::Hourly => a.0 == b.0 && a.1 == b.1 && a.2 == b.2 && hour_of(s) == hour_of(t),
        RetentionReason::Daily => a.0 == b.0 && a.1 == b.1 && a.2 == b.2,
        RetentionReason::Weekly => iso_week_of(a.0, a.1, a.2) == iso_week_of(b.0, b.1, b.2),
        RetentionReason::Monthly => a.0 == b.0 && a.1 == b.1,
        RetentionReason::Yearly => a.0 == b.0,
        RetentionReason::KeepLast => true,
    }
}

/// Whether a moment lies inside the window of policy `p` as the cutoffs give it: at or after
/// the hourly cutoff instant, or on or after the cutoff date of a date-based policy, in the
/// order of years, then months, then days. Keep-last has no window.
pub open spec fn inside_cutoff(p: RetentionReason, t: LocalDateTime, c: Cutoffs) -> bool {
    let d = date_of(t);
    let on_or_after = |b: (i32, u32, u32)|
        d.0 > b.0 || (d.0 == b.0 && d.1 > b.1) || (d.0 == b.0 && d.1 == b.1 && d.2 >= b.2);
    match p {
        RetentionReason::Hourly => c.hourly matches Some(b) && (instant_of(t).secs > b.secs || (instant_of(t).secs
            == b.secs && instant_of(t).nanos >= b.nanos)),
        RetentionReason::Daily => c.daily matches Some(b) && on_or_after(b),
        RetentionReason::Weekly => c.weekly matches Some(b) && on_or_after(b),
        RetentionReason::Monthly => c.monthly matches Some(b) && on_or_after(b),
        RetentionReason::Yearly => c.yearly matches Some(b) && on_or_after(b),
        RetentionReason::KeepLast => false,
    }
}

/// The period a policy groups files by is the calendar period: two moments share a period of
/// policy `p` exactly when they fall in the same hour, day, ISO week, month or year. Backups
/// of the same month in different years, for instance, never share a monthly period.
pub proof fn law_period_is_calendar_period(p: RetentionReason, s: LocalDateTime, t: LocalDateTime)
    requires
        is_period_policy(p),
    ensures
        period_key(p, s) == period_key(p, t) <==> same_calendar_period(p, s, t),
{
}

/// The window of a policy is the part of the time line at or after its cutoff.
pub proof fn law_window_is_from_cutoff(p: RetentionReason, t: LocalDateTime, c: Cutoffs)
    ensures
        in_window(p, t, c) <==> inside_cutoff(p, t, c),
{
}

/// What a period policy keeps, in calendar terms: the file at position `i` is kept for `p`
/// exactly when it lies at or after the policy's cutoff and no later file at or after the
/// cutoff falls in the same calendar period.
pub proof fn law_kept_is_last_of_calendar_period(files: Seq<FileInfo>, keep_last: int, c: Cutoffs, p: RetentionReason, i: int)
    requires
        is_period_policy(p),
        0 <= i < files.len(),
    ensures
        retention_model(files, keep_last, c)[i].contains(p) <==> (inside_cutoff(p, files[i].created, c) && forall|j: int|
            i < j < files.len() && inside_cutoff(p, #[trigger] files[j].created, c) ==> !same_calendar_period(
                p,
                files[j].created,
                files[i].created,
            )),
{
    law_window_is_from_cutoff(p, files[i].created, c);
    if retention_model(files, keep_last, c)[i].contains(p) {
        assert(is_period_pick(files, c, p, i));
        assert forall|j: int|
            i < j < files.len() && inside_cutoff(p, #[trigger] files[j].created, c) implies !same_calendar_period(
                p,
                files[j].created,
                files[i].created,
            ) by {
            law_window_is_from_cutoff(p, files[j].created, c);
            law_period_is_calendar_period(p, files[j].created, files[i].created);
        }
    } else if inside_cutoff(p, files[i].created, c) {
        assert(!is_period_pick(files, c, p, i));
        let j: int = choose|j: int|
            i < j < files.len() && in_window(p, #[trigger] files[j].created, c) && period_key(p, files[j].created)
                == period_key(p, files[i].created);
        law_window_is_from_cutoff(p, files[j].created, c);
        law_period_is_calendar_period(p, files[j].created, files[i].created);
    }
}

/// Every calendar period that holds a file at or after a policy's cutoff keeps a file: for a
/// file inside the window of period policy `p`, a file at the same or a later position in the
/// same calendar hour, day, ISO week, month or year is kept for `p`.
pub proof fn law_every_calendar_period_kept(files: Seq<FileInfo>, keep_last: int, c: Cutoffs, p: RetentionReason, i: int)
    requires
        is_period_policy(p),
        0 <= i < files.len(),
        inside_cutoff(p, files[i].created, c),
    ensures
        exists|j: int|
            i <= j < files.len() && #[trigger] retention_model(files, keep_last, c)[j].contains(p)
                && same_calendar_period(p, files[j].created, files[i].created),
{
    law_window_is_from_cutoff(p, files[i].created, c);
    law_every_period_kept(files, keep_last, c, p, i);
    let j: int = choose|j: int|
        i <= j < files.len() && #[trigger] retention_model(files, keep_last, c)[j].contains(p) && period_key(
            p,
            files[j].created,
        ) == period_key(p, files[i].created);
    law_period_is_calendar_period(p, files[j].created, files[i].created);
}

/// Where each window begins: `keep_hourly` hours before the moment, and `keep_daily` days,
/// `7 * keep_weekly` days, `30 * keep_monthly` days and `365 * keep_yearly` days before its
/// local date, as chrono subtracts them; a policy set to 0 has no window. The windows exist
/// exactly when chrono can compute each of them: the moment and the hourly cutoff inside
/// chrono's range of instants, and each date subtraction inside its range of dates.
pub proof fn law_cutoffs_exact(config: RetentionConfig, now: LocalDateTime)
    ensures
        ({
            let secs = instant_of(now).secs;
            let today = date_of(now);
            let hourly_fits = config.keep_hourly == 0 || (MIN_TIMESTAMP <= secs <= MAX_TIMESTAMP && MIN_TIMESTAMP <= secs
                - 3600 * config.keep_hourly <= MAX_TIMESTAMP);
            let back = |n: int| date_minus_days(today.0, today.1, today.2, n as i64);
            let fits = |keep: u32, n: int| keep == 0 || back(n) is Some;
            let all_fit = hourly_fits && fits(config.keep_daily, config.keep_daily as int) && fits(
                config.keep_weekly,
                7 * config.keep_weekly,
            ) && fits(config.keep_monthly, 30 * config.keep_monthly) && fits(config.keep_yearly, 365 * config.keep_yearly);
            &&& retention_cutoffs(config, now) is Some <==> all_fit
            &&& retention_cutoffs(config, now) matches Some(c) ==> {
                &&& c.hourly == if config.keep_hourly == 0 {
                    None
                } else {
                    Some(Instant { secs: (secs - 3600 * config.keep_hourly) as i64, nanos: instant_of(now).nanos })
                }
                &&& c.daily == if config.keep_daily == 0 { None } else { back(config.keep_daily as int) }
                &&& c.weekly == if config.keep_weekly == 0 { None } else { back(7 * config.keep_weekly) }
                &&& c.monthly == if config.keep_monthly == 0 { None } else { back(30 * config.keep_monthly) }
                &&& c.yearly == if config.keep_yearly == 0 { None } else { back(365 * config.keep_yearly) }
            }
        }),
{
}

/// The day numbers of `day_number` agree with chrono's range of instants: the first second
/// of its first day and the last second of its last day are `MIN_TIMESTAMP` and
/// `MAX_TIMESTAMP`, and day 0 is 1970-01-01.
pub proof fn law_day_numbers_match_chrono_range()
    ensures
        day_number(1970, 1, 1) == 0,
        day_number(MIN_YEAR as int, 1, 1) * 86400 == MIN_TIMESTAMP,
        day_number(MAX_YEAR as int, 12, 31) * 86400 + 86399 == MAX_TIMESTAMP,
{
}

} // verus!
