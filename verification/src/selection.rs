//! Which files the retention policies keep, and for which reasons.
//!
//! Files are given by position in a listing. Keep-last keeps the first N positions. Each
//! period policy (hourly, daily, weekly, monthly, yearly) looks at the files whose time lies
//! inside its window and keeps, for every period (hour, day, ISO week, month, year) that
//! holds such a file, the one at the latest position. On a listing sorted newest first that
//! is the oldest file of the period. The policies are applied independently: a file may be
//! kept for several reasons.
use vstd::prelude::*;

use crate::calendar::{
    date_ge, date_minus_days, MAX_DAYS_BACK, MAX_HOURS_BACK, MAX_ORDINARY_SECS, MIN_YEAR_FOR_DAYS_BACK, date_of, hour_of, hours_before, instant_at_or_after, instant_ge,
    instant_of, iso_week_of, date_on_or_after, Instant, LocalDateTime,
};
use crate::config::RetentionConfig;
use crate::reason::{kept_positions, KeepReasons, RetentionReason};

use std::collections::HashSet;

verus! {

broadcast use vstd::std_specs::hash::group_hash_axioms;

/// A file of the listing and the time it was last modified (or created).
#[derive(Debug, Clone)]
pub struct FileInfo {
    pub path: String,
    pub created: LocalDateTime,
}

/// Where each period policy's window begins; `None` for a policy that is switched off.
/// The hourly window is bounded by an instant, the others by a local date.
#[derive(Debug, Clone, Copy)]
pub struct Cutoffs {
    pub hourly: Option<Instant>,
    pub daily: Option<(i32, u32, u32)>,
    pub weekly: Option<(i32, u32, u32)>,
    pub monthly: Option<(i32, u32, u32)>,
    pub yearly: Option<(i32, u32, u32)>,
}

/// Whether `p` is one of the period policies (every reason but keep-last).
pub open spec fn is_period_policy(p: RetentionReason) -> bool {
    p != RetentionReason::KeepLast
}

/// The date that bounds the window of a date-based policy.
pub open spec fn date_cutoff_of(p: RetentionReason, c: Cutoffs) -> Option<(i32, u32, u32)> {
    match p {
        RetentionReason::Daily => c.daily,
        RetentionReason::Weekly => c.weekly,
        RetentionReason::Monthly => c.monthly,
        RetentionReason::Yearly => c.yearly,
        _ => None,
    }
}

/// Whether a moment lies inside the window of policy `p`. A switched-off policy has an
/// empty window.
pub open spec fn in_window(p: RetentionReason, t: LocalDateTime, c: Cutoffs) -> bool {
    match p {
        RetentionReason::KeepLast => false,
        RetentionReason::Hourly => match c.hourly {
            Some(b) => instant_ge(instant_of(t), b),
            None => false,
        },
        _ => match date_cutoff_of(p, c) {
            Some(b) => date_ge(date_of(t), b),
            None => false,
        },
    }
}

/// The period of policy `p` that a moment falls in: (year, month, day, hour) for hours,
/// the local date for days, (ISO year, ISO week) for weeks, (year, month) for months and
/// the year for years, padded with zeros.
pub open spec fn period_key(p: RetentionReason, t: LocalDateTime) -> (i32, u32, u32, u32) {
    let d = date_of(t);
    match p {
        RetentionReason::Hourly => (d.0, d.1, d.2, hour_of(t)),
        RetentionReason::Daily => (d.0, d.1, d.2, 0),
        RetentionReason::Weekly => (iso_week_of(d.0, d.1, d.2).0, iso_week_of(d.0, d.1, d.2).1, 0, 0),
        RetentionReason::Monthly => (d.0, d.1, 0, 0),
        RetentionReason::Yearly => (d.0, 0, 0, 0),
        RetentionReason::KeepLast => (0, 0, 0, 0),
    }
}

/// Whether the file at position `i` is the one that period policy `p` keeps for its period:
/// it lies in the window, and no later file of the window falls in the same period.
pub open spec fn is_period_pick(files: Seq<FileInfo>, c: Cutoffs, p: RetentionReason, i: int) -> bool {
    &&& 0 <= i < files.len()
    &&& in_window(p, files[i].created, c)
    &&& forall|j: int|
        i < j < files.len() && in_window(p, #[trigger] files[j].created, c) ==> period_key(p, files[j].created)
            != period_key(p, files[i].created)
}

/// Whether policy `p` keeps the file at position `i`.
pub open spec fn policy_keeps(files: Seq<FileInfo>, keep_last: int, c: Cutoffs, p: RetentionReason, i: int) -> bool {
    if p == RetentionReason::KeepLast {
        0 <= i < keep_last && i < files.len()
    } else {
        is_period_pick(files, c, p, i)
    }
}

/// The reasons for which each file is kept.
pub open spec fn retention_model(files: Seq<FileInfo>, keep_last: int, c: Cutoffs) -> Seq<Set<RetentionReason>> {
    Seq::new(files.len(), |i: int| Set::new(|p: RetentionReason| policy_keeps(files, keep_last, c, p, i)))
}

/// The window of a date-based policy that keeps `keep` periods of `days_per_period` days:
/// `Some(None)` when switched off, `Some(Some(date))` for the first date inside it, and
/// `None` where chrono cannot compute that date.
pub open spec fn date_window(now: LocalDateTime, keep: u32, days_per_period: int) -> Option<Option<(i32, u32, u32)>> {
    if keep == 0 {
        Some(None)
    } else {
        match date_minus_days(date_of(now).0, date_of(now).1, date_of(now).2, (keep * days_per_period) as i64) {
            Some(d) => Some(Some(d)),
            None => None,
        }
    }
}

/// The window of the hourly policy, in the same form as `date_window`.
pub open spec fn hour_window(now: LocalDateTime, keep: u32) -> Option<Option<Instant>> {
    if keep == 0 {
        Some(None)
    } else {
        match hours_before(instant_of(now).secs, instant_of(now).nanos, keep as i64) {
            Some(t) => Some(Some(Instant { secs: t.0, nanos: t.1 })),
            None => None,
        }
    }
}

/// The windows of all period policies at `now`: hours back from `now`, days and weeks back
/// from today, months as 30 days and years as 365 days. `None` where one of them leaves
/// chrono's range.
pub open spec fn retention_cutoffs(config: RetentionConfig, now: LocalDateTime) -> Option<Cutoffs> {
    let h = hour_window(now, config.keep_hourly);
    let d = date_window(now, config.keep_daily, 1);
    let w = date_window(now, config.keep_weekly, 7);
    let m = date_window(now, config.keep_monthly, 30);
    let y = date_window(now, config.keep_yearly, 365);
    if h is Some && d is Some && w is Some && m is Some && y is Some {
        Some(Cutoffs { hourly: h.unwrap(), daily: d.unwrap(), weekly: w.unwrap(), monthly: m.unwrap(), yearly: y.unwrap() })
    } else {
        None
    }
}

/// Settings and a moment for which every window lies well inside chrono's range: the
/// moment within `MAX_ORDINARY_SECS` of the epoch and in a year of at least
/// `MIN_YEAR_FOR_DAYS_BACK`, at most `MAX_HOURS_BACK` hours, and at most `MAX_DAYS_BACK` days
/// for each date-based window (days, weeks of 7, months of 30, years of 365 days).
pub open spec fn windows_in_range(config: RetentionConfig, now: LocalDateTime) -> bool {
    &&& -MAX_ORDINARY_SECS <= instant_of(now).secs <= MAX_ORDINARY_SECS
    &&& MIN_YEAR_FOR_DAYS_BACK <= date_of(now).0
    &&& config.keep_hourly <= MAX_HOURS_BACK
    &&& config.keep_daily <= MAX_DAYS_BACK
    &&& config.keep_weekly * 7 <= MAX_DAYS_BACK
    &&& config.keep_monthly * 30 <= MAX_DAYS_BACK
    &&& config.keep_yearly * 365 <= MAX_DAYS_BACK
}

/// Whether a moment lies inside the window of period policy `p`.
pub fn in_policy_window(p: RetentionReason, t: &LocalDateTime, c: &Cutoffs) -> (r: bool)
    ensures
        r == in_window(p, *t, *c),
{
    match p {
        RetentionReason::KeepLast => false,
        RetentionReason::Hourly => match &c.hourly {
            Some(b) => instant_at_or_after(&t.instant(), b),
            None => false,
        },
        _ => {
            let cut = match p {
                RetentionReason::Daily => c.daily,
                RetentionReason::Weekly => c.weekly,
                RetentionReason::Monthly => c.monthly,
                _ => c.yearly,
            };
            match cut {
                Some(b) => date_on_or_after(t.date().ymd(), b),
                None => false,
            }
        },
    }
}

/// Returns (year, month, day, hour) as a unique key for the hour
pub fn get_hour_key(dt: &LocalDateTime) -> (r: (i32, u32, u32, u32))
    ensures
        r == period_key(RetentionReason::Hourly, *dt),
{
    let d = dt.date().ymd();
    (d.0, d.1, d.2, dt.hour())
}

/// Returns (year, week) using ISO week system
pub fn get_week_key(date: &crate::calendar::CivilDate) -> (r: (i32, u32))
    ensures
        r == iso_week_of(date@.0, date@.1, date@.2),
        1 <= r.1 <= 53,
{
    date.iso_week()
}

/// Returns (year, month) of a date.
pub fn get_month_key(date: &crate::calendar::CivilDate) -> (r: (i32, u32))
    ensures
        r == (date@.0, date@.1),
{
    (date.year(), date.month())
}

/// Returns the year of a date.
pub fn get_year_key(date: &crate::calendar::CivilDate) -> (r: i32)
    ensures
        r == date@.0,
{
    date.year()
}

/// The period of policy `p` that a moment falls in.
pub fn period_key_of(p: RetentionReason, t: &LocalDateTime) -> (r: (i32, u32, u32, u32))
    ensures
        r == period_key(p, *t),
{
    let date = t.date();
    match p {
        RetentionReason::Hourly => get_hour_key(t),
        RetentionReason::Daily => {
            let d = date.ymd();
            (d.0, d.1, d.2, 0)
        },
        RetentionReason::Weekly => {
            let w = get_week_key(&date);
            (w.0, w.1, 0, 0)
        },
        RetentionReason::Monthly => {
            let m = get_month_key(&date);
            (m.0, m.1, 0, 0)
        },
        RetentionReason::Yearly => (get_year_key(&date), 0, 0, 0),
        RetentionReason::KeepLast => (0, 0, 0, 0),
    }
}

/// A period key as one integer: (a, b, c, d) as a * 2^96 + b * 2^64 + c * 2^32 + d. Every
/// code fits in an `i128`, and distinct keys have distinct codes, so a hash set of codes
/// stands for a set of keys.
spec fn key_code(k: (i32, u32, u32, u32)) -> int {
    k.0 * 0x1_0000_0000_0000_0000_0000_0000 + k.1 * 0x1_0000_0000_0000_0000 + k.2 * 0x1_0000_0000 + k.3
}

fn key_code_of(k: (i32, u32, u32, u32)) -> (r: i128)
    ensures
        r == key_code(k),
{
    let a: i128 = k.0 as i128 * 0x1_0000_0000_0000_0000_0000_0000i128;
    let b: i128 = k.1 as i128 * 0x1_0000_0000_0000_0000i128;
    let c: i128 = k.2 as i128 * 0x1_0000_0000i128;
    a + b + c + k.3 as i128
}

proof fn lemma_key_code_injective(x: (i32, u32, u32, u32), y: (i32, u32, u32, u32))
    requires
        key_code(x) == key_code(y),
    ensures
        x == y,
{
}

/// For each file of a listing, the period of policy `p` it falls in when it lies inside the
/// policy's window, and `None` when it lies outside.
pub open spec fn window_keys(files: Seq<FileInfo>, c: Cutoffs, p: RetentionReason) -> Seq<Option<(i32, u32, u32, u32)>> {
    Seq::new(
        files.len(),
        |j: int|
            if in_window(p, files[j].created, c) {
                Some(period_key(p, files[j].created))
            } else {
                None
            },
    )
}

/// Whether position `i` is the one kept for its period, given for each position the period
/// it falls in (`None` outside the window): it has a period, and no later position has the
/// same one.
pub open spec fn is_key_pick(keys: Seq<Option<(i32, u32, u32, u32)>>, i: int) -> bool {
    &&& 0 <= i < keys.len()
    &&& keys[i] is Some
    &&& forall|j: int| i < j < keys.len() ==> #[trigger] keys[j] != keys[i]
}

/// The codes of the periods held at position `from` or later.
spec fn codes_from(keys: Seq<Option<(i32, u32, u32, u32)>>, from: int) -> Set<i128> {
    Set::new(
        |code: i128|
            exists|j: int| from <= j < keys.len() && #[trigger] keys[j] is Some && key_code(keys[j].unwrap()) == code,
    )
}

/// The picks of one period policy: given, for each file of a listing, the period it falls in
/// when it lies inside the window (`None` otherwise), marks for every period the last
/// position that falls in it. On a listing sorted newest first that is the oldest file of
/// the period.
pub fn pick_periods(keys: &[Option<(i32, u32, u32, u32)>]) -> (r: Vec<bool>)
    ensures
        r@.len() == keys@.len(),
        forall|i: int| 0 <= i < keys@.len() ==> #[trigger] r@[i] == is_key_pick(keys@, i),
{
    let n: usize = keys.len();
    let mut r: Vec<bool> = Vec::new();
    let mut i: usize = 0;
    while i < n
        invariant
            i <= n,
            n == keys@.len(),
            r@.len() == i,
            forall|j: int| 0 <= j < i ==> #[trigger] r@[j] == false,
        decreases n - i,
    {
        r.push(false);
        i = i + 1;
    }
    let mut covered: HashSet<i128> = HashSet::new();
    assert(covered@ =~= codes_from(keys@, n as int));
    while i > 0
        invariant
            i <= n,
            n == keys@.len(),
            r@.len() == n,
            forall|j: int| 0 <= j < i ==> #[trigger] r@[j] == false,
            forall|j: int| i <= j < n ==> #[trigger] r@[j] == is_key_pick(keys@, j),
            covered@ == codes_from(keys@, i as int),
        decreases i,
    {
        i = i - 1;
        let ghost later = codes_from(keys@, i + 1);
        let ghost here = codes_from(keys@, i as int);
        match keys[i] {
            Some(k) => {
                let code = key_code_of(k);
                let seen = covered.contains(&code);
                proof {
                    if seen {
                        let j: int = choose|j: int|
                            i + 1 <= j < keys@.len() && #[trigger] keys@[j] is Some && key_code(keys@[j].unwrap()) == code;
                        lemma_key_code_injective(keys@[j].unwrap(), k);
                        assert(keys@[j] == keys@[i as int]);
                        assert(!is_key_pick(keys@, i as int));
                    } else {
                        assert forall|j: int| i < j < keys@.len() implies #[trigger] keys@[j] != keys@[i as int] by {
                            if keys@[j] == keys@[i as int] {
                                assert(later.contains(code));
                            }
                        }
                        assert(is_key_pick(keys@, i as int));
                    }
                    assert forall|x: i128| here.contains(x) <==> later.insert(code).contains(x) by {
                        if here.contains(x) {
                            let j: int = choose|j: int|
                                i <= j < keys@.len() && #[trigger] keys@[j] is Some && key_code(keys@[j].unwrap()) == x;
                            if j > i {
                                assert(later.contains(x));
                            }
                        }
                        if later.contains(x) {
                            let j: int = choose|j: int|
                                i + 1 <= j < keys@.len() && #[trigger] keys@[j] is Some && key_code(keys@[j].unwrap()) == x;
                            assert(here.contains(x));
                        }
                        if x == code {
                            assert(keys@[i as int] is Some);
                            assert(here.contains(x));
                        }
                    }
                    assert(here =~= later.insert(code));
                }
                if !seen {
                    covered.insert(code);
                    r.set(i, true);
                }
            },
            None => {
                proof {
                    assert forall|x: i128| here.contains(x) <==> later.contains(x) by {
                        if here.contains(x) {
                            let j: int = choose|j: int|
                                i <= j < keys@.len() && #[trigger] keys@[j] is Some && key_code(keys@[j].unwrap()) == x;
                            if j > i {
                                assert(later.contains(x));
                            }
                        }
                        if later.contains(x) {
                            let j: int = choose|j: int|
                                i + 1 <= j < keys@.len() && #[trigger] keys@[j] is Some && key_code(keys@[j].unwrap()) == x;
                            assert(here.contains(x));
                        }
                    }
                    assert(here =~= later);
                }
            },
        }
    }
    r
}

/// The picks of period policy `p` are the positions that `pick_periods` marks on the
/// policy's window keys.
proof fn lemma_window_keys_pick(files: Seq<FileInfo>, c: Cutoffs, p: RetentionReason, i: int)
    requires
        0 <= i < files.len(),
    ensures
        is_key_pick(window_keys(files, c, p), i) == is_period_pick(files, c, p, i),
{
    let keys = window_keys(files, c, p);
    if is_key_pick(keys, i) {
        assert forall|j: int|
            i < j < files.len() && in_window(p, #[trigger] files[j].created, c) implies period_key(p, files[j].created)
                != period_key(p, files[i].created) by {
            assert(keys[j] != keys[i]);
        }
    }
    if is_period_pick(files, c, p, i) {
        assert forall|j: int| i < j < keys.len() implies #[trigger] keys[j] != keys[i] by {
            if in_window(p, files[j].created, c) {
                assert(period_key(p, files[j].created) != period_key(p, files[i].created));
            }
        }
    }
}

/// Adds reason `p` to every file that period policy `p` keeps.
fn mark_period(reasons: &mut KeepReasons, files: &[FileInfo], c: &Cutoffs, p: RetentionReason)
    requires
        is_period_policy(p),
        old(reasons)@.len() == files@.len(),
    ensures
        final(reasons)@.len() == files@.len(),
        forall|i: int|
            0 <= i < files@.len() ==> #[trigger] final(reasons)@[i] == if is_period_pick(files@, *c, p, i) {
                old(reasons)@[i].insert(p)
            } else {
                old(reasons)@[i]
            },
{
    let ghost before = reasons@;
    let n: usize = files.len();
    let mut keys: Vec<Option<(i32, u32, u32, u32)>> = Vec::new();
    let mut i: usize = 0;
    while i < n
        invariant
            i <= n,
            n == files@.len(),
            keys@.len() == i,
            forall|j: int| 0 <= j < i ==> #[trigger] keys@[j] == window_keys(files@, *c, p)[j],
        decreases n - i,
    {
        let t = &files[i].created;
        if in_policy_window(p, t, c) {
            keys.push(Some(period_key_of(p, t)));
        } else {
            keys.push(None);
        }
        i = i + 1;
    }
    assert(keys@ =~= window_keys(files@, *c, p));
    let picks = pick_periods(keys.as_slice());
    let mut i: usize = 0;
    while i < n
        invariant
            i <= n,
            n == files@.len(),
            picks@.len() == n,
            forall|j: int| 0 <= j < n ==> #[trigger] picks@[j] == is_key_pick(window_keys(files@, *c, p), j),
            reasons@.len() == n,
            forall|j: int| 0 <= j < i ==> #[trigger] reasons@[j] == if picks@[j] {
                before[j].insert(p)
            } else {
                before[j]
            },
            forall|j: int| i <= j < n ==> #[trigger] reasons@[j] == before[j],
        decreases n - i,
    {
        if picks[i] {
            reasons.add(i, p);
        }
        i = i + 1;
    }
    assert forall|j: int| 0 <= j < n implies #[trigger] picks@[j] == is_period_pick(files@, *c, p, j) by {
        lemma_window_keys_pick(files@, *c, p, j);
    }
}

/// The reasons for which each file is kept, given the keep-last count and the windows of
/// the period policies.
pub fn select_with_cutoffs(files: &[FileInfo], keep_last: usize, cutoffs: &Cutoffs) -> (r: KeepReasons)
    ensures
        r@ == retention_model(files@, keep_last as int, *cutoffs),
{
    let n: usize = files.len();
    let mut r = KeepReasons::empty(n);
    let limit: usize = if keep_last < n { keep_last } else { n };
    let mut i: usize = 0;
    while i < limit
        invariant
            i <= limit,
            limit <= n,
            n == files@.len(),
            limit == (if keep_last < n { keep_last } else { n }),
            r@.len() == n,
            forall|j: int| 0 <= j < i ==> #[trigger] r@[j] == Set::<RetentionReason>::empty().insert(RetentionReason::KeepLast),
            forall|j: int| i <= j < n ==> #[trigger] r@[j] == Set::<RetentionReason>::empty(),
        decreases limit - i,
    {
        r.add(i, RetentionReason::KeepLast);
        i = i + 1;
    }
    let ghost r0 = r@;
    mark_period(&mut r, files, cutoffs, RetentionReason::Hourly);
    let ghost r1 = r@;
    mark_period(&mut r, files, cutoffs, RetentionReason::Daily);
    let ghost r2 = r@;
    mark_period(&mut r, files, cutoffs, RetentionReason::Weekly);
    let ghost r3 = r@;
    mark_period(&mut r, files, cutoffs, RetentionReason::Monthly);
    let ghost r4 = r@;
    mark_period(&mut r, files, cutoffs, RetentionReason::Yearly);
    proof {
        let model = retention_model(files@, keep_last as int, *cutoffs);
        assert forall|j: int| 0 <= j < n implies #[trigger] r@[j] =~= model[j] by {
            assert(r0[j] == r1[j] || r1[j] == r0[j].insert(RetentionReason::Hourly));
            assert forall|q: RetentionReason| r@[j].contains(q) == model[j].contains(q) by {
                let a = r0[j];
                let b = r1[j];
                let cc = r2[j];
                let d = r3[j];
                let e = r4[j];
                assert(b == if is_period_pick(files@, *cutoffs, RetentionReason::Hourly, j) { a.insert(RetentionReason::Hourly) } else { a });
                assert(cc == if is_period_pick(files@, *cutoffs, RetentionReason::Daily, j) { b.insert(RetentionReason::Daily) } else { b });
                assert(d == if is_period_pick(files@, *cutoffs, RetentionReason::Weekly, j) { cc.insert(RetentionReason::Weekly) } else { cc });
                assert(e == if is_period_pick(files@, *cutoffs, RetentionReason::Monthly, j) { d.insert(RetentionReason::Monthly) } else { d });
                assert(r@[j] == if is_period_pick(files@, *cutoffs, RetentionReason::Yearly, j) { e.insert(RetentionReason::Yearly) } else { e });
            }
        }
        assert(r@ =~= model);
    }
    r
}

/// The window of a date-based policy at `now`.
fn date_window_exec(now: &LocalDateTime, keep: u32, days_per_period: u32) -> (r: Option<Option<(i32, u32, u32)>>)
    requires
        days_per_period <= 365,
    ensures
        r == date_window(*now, keep, days_per_period as int),
        MIN_YEAR_FOR_DAYS_BACK <= date_of(*now).0 && keep * days_per_period <= MAX_DAYS_BACK ==> r is Some,
{
    if keep == 0 {
        Some(None)
    } else {
        assert(keep as i64 * days_per_period as i64 <= 4294967295 * 365) by (nonlinear_arith)
            requires
                keep <= 4294967295,
                days_per_period <= 365,
        ;
        let days: i64 = keep as i64 * days_per_period as i64;
        match now.date().days_before(days) {
            Some(d) => Some(Some(d.ymd())),
            None => None,
        }
    }
}

/// Computes where the window of each period policy begins at `now`: `keep_hourly` hours
/// back from `now`, and `keep_daily` days, `keep_weekly` weeks, `keep_monthly` times 30 days
/// and `keep_yearly` times 365 days back from today's local date. `None` where chrono's
/// date range would be left. A window of `n` weeks is `n * 7` days, the same `TimeDelta`
/// as `TimeDelta::weeks(n)`.
pub fn compute_cutoffs(config: &RetentionConfig, now: &LocalDateTime) -> (r: Option<Cutoffs>)
    ensures
        r == retention_cutoffs(*config, *now),
        windows_in_range(*config, *now) ==> r is Some,
{
    let hourly = if config.keep_hourly == 0 {
        None
    } else {
        match now.hours_before(config.keep_hourly as i64) {
            Some(b) => Some(b),
            None => return None,
        }
    };
    let daily = match date_window_exec(now, config.keep_daily, 1) {
        Some(w) => w,
        None => return None,
    };
    let weekly = match date_window_exec(now, config.keep_weekly, 7) {
        Some(w) => w,
        None => return None,
    };
    let monthly = match date_window_exec(now, config.keep_monthly, 30) {
        Some(w) => w,
        None => return None,
    };
    let yearly = match date_window_exec(now, config.keep_yearly, 365) {
        Some(w) => w,
        None => return None,
    };
    Some(Cutoffs { hourly, daily, weekly, monthly, yearly })
}

/// Selects files to keep with reasons, using a specific datetime as "now".
///
/// Each retention policy is applied independently to all files. A file may be kept
/// by multiple policies, and all matching policies are tracked in the result.
/// `None` exactly where a window would leave chrono's date range.
pub fn select_files_to_keep_with_reasons(
    files: &[FileInfo],
    config: &RetentionConfig,
    now: LocalDateTime,
) -> (r: Option<KeepReasons>)
    ensures
        r is Some <==> retention_cutoffs(*config, now) is Some,
        windows_in_range(*config, now) ==> r is Some,
        r matches Some(k) ==> k@ == retention_model(files@, config.keep_last as int, retention_cutoffs(*config, now).unwrap()),
{
    match compute_cutoffs(config, &now) {
        Some(c) => Some(select_with_cutoffs(files, config.keep_last, &c)),
        None => None,
    }
}

/// The positions of the files to keep, using a specific datetime as "now".
pub fn select_files_to_keep_with_datetime(
    files: &[FileInfo],
    config: &RetentionConfig,
    now: LocalDateTime,
) -> (r: Option<HashSet<usize>>)
    ensures
        r is Some <==> retention_cutoffs(*config, now) is Some,
        windows_in_range(*config, now) ==> r is Some,
        r matches Some(s) ==> s@ == kept_positions(
            retention_model(files@, config.keep_last as int, retention_cutoffs(*config, now).unwrap()),
        ),
{
    match select_files_to_keep_with_reasons(files, config, now) {
        Some(k) => Some(k.keys()),
        None => None,
    }
}

/// The positions of the files to keep, with the current time as "now". `None` where the
/// current moment cannot be placed in the local calendar or a window would leave chrono's
/// range. The clock is read here, so the result is stated for whatever moment it gave.
pub fn select_files_to_keep(files: &[FileInfo], config: &RetentionConfig) -> (r: Option<HashSet<usize>>)
    ensures
        r matches Some(s) ==> exists|now: LocalDateTime|
            #[trigger] retention_cutoffs(*config, now) is Some && s@ == kept_positions(
                retention_model(files@, config.keep_last as int, retention_cutoffs(*config, now).unwrap()),
            ),
{
    match LocalDateTime::now() {
        Some(now) => select_files_to_keep_with_datetime(files, config, now),
        None => None,
    }
}

} // verus!
