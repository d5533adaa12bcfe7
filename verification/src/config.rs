//! Retention configuration: the built-in defaults, the optional values of a `.retention`
//! file, how command-line values, file values and defaults combine, and the `--keep-last`
//! argument check.
use vstd::prelude::*;
use vstd::string::StrSliceExecFns;
use vstd::string::StringExecFns;

verus! {

broadcast use vstd::string::group_string_axioms;

/// How many files each retention policy keeps. A policy with 0 is switched off.
#[derive(Debug, Clone, Copy, PartialEq, Eq, Structural)]
pub struct RetentionConfig {
    pub keep_last: usize,
    pub keep_hourly: u32,
    pub keep_daily: u32,
    pub keep_weekly: u32,
    pub keep_monthly: u32,
    pub keep_yearly: u32,
}

/// The built-in defaults.
pub open spec fn default_config() -> RetentionConfig {
    RetentionConfig {
        keep_last: 5,
        keep_hourly: 24,
        keep_daily: 7,
        keep_weekly: 4,
        keep_monthly: 12,
        keep_yearly: 10,
    }
}

impl Default for RetentionConfig {
    fn default() -> (r: Self)
        ensures
            r == default_config(),
    {
        Self {
            keep_last: 5,
            keep_hourly: 24,
            keep_daily: 7,
            keep_weekly: 4,
            keep_monthly: 12,
            keep_yearly: 10,
        }
    }
}

/// Configuration read from a `.retention` file in TOML format.
/// All fields are optional; missing fields will use CLI args or defaults.
#[derive(Debug, Clone, Copy, PartialEq, Eq, Structural)]
pub struct RetentionFileConfig {
    pub keep_last: Option<usize>,
    pub keep_hourly: Option<u32>,
    pub keep_daily: Option<u32>,
    pub keep_weekly: Option<u32>,
    pub keep_monthly: Option<u32>,
    pub keep_yearly: Option<u32>,
}

impl Default for RetentionFileConfig {
    fn default() -> (r: Self)
        ensures
            r.keep_last is None,
            r.keep_hourly is None,
            r.keep_daily is None,
            r.keep_weekly is None,
            r.keep_monthly is None,
            r.keep_yearly is None,
    {
        RetentionFileConfig {
            keep_last: None,
            keep_hourly: None,
            keep_daily: None,
            keep_weekly: None,
            keep_monthly: None,
            keep_yearly: None,
        }
    }
}

/// The name of the retention configuration file.
pub const RETENTION_FILE_NAME: &'static str = ".retention";

/// The first value present among the command line's, the file's, and the default.
pub open spec fn pick<T>(cli: Option<T>, file: Option<T>, default: T) -> T {
    match cli {
        Some(v) => v,
        None => match file {
            Some(v) => v,
            None => default,
        },
    }
}

/// What a `.retention` file, if there is one, says of each setting.
pub open spec fn file_settings(file_config: Option<&RetentionFileConfig>) -> RetentionFileConfig {
    match file_config {
        Some(f) => *f,
        None => RetentionFileConfig {
            keep_last: None,
            keep_hourly: None,
            keep_daily: None,
            keep_weekly: None,
            keep_monthly: None,
            keep_yearly: None,
        },
    }
}

fn pick_usize(cli: Option<usize>, file: Option<usize>, default: usize) -> (r: usize)
    ensures
        r == pick(cli, file, default),
{
    match cli {
        Some(v) => v,
        None => match file {
            Some(v) => v,
            None => default,
        },
    }
}

fn pick_u32(cli: Option<u32>, file: Option<u32>, default: u32) -> (r: u32)
    ensures
        r == pick(cli, file, default),
{
    match cli {
        Some(v) => v,
        None => match file {
            Some(v) => v,
            None => default,
        },
    }
}

/// Resolves the final retention configuration from CLI args and file config.
///
/// Priority (highest to lowest):
/// 1. CLI argument (if provided by user)
/// 2. File config value (if present in .retention file)
/// 3. Built-in default
pub fn resolve_config(
    cli_keep_last: Option<usize>,
    cli_keep_hourly: Option<u32>,
    cli_keep_daily: Option<u32>,
    cli_keep_weekly: Option<u32>,
    cli_keep_monthly: Option<u32>,
    cli_keep_yearly: Option<u32>,
    file_config: Option<&RetentionFileConfig>,
) -> (r: RetentionConfig)
    ensures
        r.keep_last == pick(cli_keep_last, file_settings(file_config).keep_last, default_config().keep_last),
        r.keep_hourly == pick(cli_keep_hourly, file_settings(file_config).keep_hourly, default_config().keep_hourly),
        r.keep_daily == pick(cli_keep_daily, file_settings(file_config).keep_daily, default_config().keep_daily),
        r.keep_weekly == pick(cli_keep_weekly, file_settings(file_config).keep_weekly, default_config().keep_weekly),
        r.keep_monthly == pick(cli_keep_monthly, file_settings(file_config).keep_monthly, default_config().keep_monthly),
        r.keep_yearly == pick(cli_keep_yearly, file_settings(file_config).keep_yearly, default_config().keep_yearly),
{
    let defaults = RetentionConfig::default();
    let (f_last, f_hourly, f_daily, f_weekly, f_monthly, f_yearly) = match file_config {
        Some(f) => (f.keep_last, f.keep_hourly, f.keep_daily, f.keep_weekly, f.keep_monthly, f.keep_yearly),
        None => (None, None, None, None, None, None),
    };
    RetentionConfig {
        keep_last: pick_usize(cli_keep_last, f_last, defaults.keep_last),
        keep_hourly: pick_u32(cli_keep_hourly, f_hourly, defaults.keep_hourly),
        keep_daily: pick_u32(cli_keep_daily, f_daily, defaults.keep_daily),
        keep_weekly: pick_u32(cli_keep_weekly, f_weekly, defaults.keep_weekly),
        keep_monthly: pick_u32(cli_keep_monthly, f_monthly, defaults.keep_monthly),
        keep_yearly: pick_u32(cli_keep_yearly, f_yearly, defaults.keep_yearly),
    }
}

/// Whether `c` is an ASCII decimal digit.
pub open spec fn is_digit(c: char) -> bool {
    '0' <= c <= '9'
}

/// The number that a string of decimal digits spells.
pub open spec fn digits_value(s: Seq<char>) -> int
    decreases s.len(),
{
    if s.len() == 0 {
        0
    } else {
        digits_value(s.drop_last()) * 10 + (s.last() as int - '0' as int)
    }
}

/// The digits of a decimal number, after an optional leading `+`.
pub open spec fn decimal_digits(s: Seq<char>) -> Seq<char> {
    if s.len() > 0 && s[0] == '+' {
        s.skip(1)
    } else {
        s
    }
}

/// What `usize::from_str` reads from `s`: an optional `+`, then one or more ASCII digits,
/// whose value must fit in a `usize`.
pub open spec fn parsed_usize(s: Seq<char>) -> Option<usize> {
    let d = decimal_digits(s);
    if d.len() > 0 && (forall|i: int| 0 <= i < d.len() ==> is_digit(#[trigger] d[i])) && digits_value(d) <= usize::MAX {
        Some(digits_value(d) as usize)
    } else {
        None
    }
}

proof fn lemma_digits_value_nonneg(s: Seq<char>)
    requires
        forall|i: int| 0 <= i < s.len() ==> is_digit(#[trigger] s[i]),
    ensures
        digits_value(s) >= 0,
    decreases s.len(),
{
    if s.len() > 0 {
        lemma_digits_value_nonneg(s.drop_last());
    }
}

/// A prefix of a string of digits spells no larger a number than the whole.
proof fn lemma_digits_prefix(s: Seq<char>, k: int)
    requires
        0 <= k <= s.len(),
        forall|i: int| 0 <= i < s.len() ==> is_digit(#[trigger] s[i]),
    ensures
        digits_value(s.take(k)) <= digits_value(s),
    decreases s.len() - k,
{
    if k < s.len() {
        lemma_digits_prefix(s, k + 1);
        assert(s.take(k + 1).drop_last() =~= s.take(k));
        lemma_digits_value_nonneg(s.take(k));
    } else {
        assert(s.take(k) =~= s);
    }
}

/// Reads a decimal `usize` as `str::parse::<usize>` does.
fn parse_usize(s: &str) -> (r: Option<usize>)
    ensures
        r == parsed_usize(s@),
{
    let n: usize = s.unicode_len();
    let start: usize = if n > 0 && s.get_char(0) == '+' { 1 } else { 0 };
    let ghost d = decimal_digits(s@);
    assert(d =~= s@.skip(start as int));
    if start >= n {
        return None;
    }
    let mut acc: usize = 0;
    let mut i: usize = start;
    while i < n
        invariant
            start <= i <= n,
            n == s@.len(),
            d == s@.skip(start as int),
            d == decimal_digits(s@),
            forall|j: int| 0 <= j < i - start ==> is_digit(#[trigger] d[j]),
            acc == digits_value(d.take(i - start)),
        decreases n - i,
    {
        let c = s.get_char(i);
        assert(c == d[i - start]);
        if c < '0' || c > '9' {
            assert(!is_digit(d[i - start]));
            return None;
        }
        proof {
            assert(d.take(i - start + 1).drop_last() =~= d.take(i - start));
        }
        let digit: usize = (c as u32 - '0' as u32) as usize;
        let next: Option<usize> = match acc.checked_mul(10) {
            Some(m) => m.checked_add(digit),
            None => None,
        };
        match next {
            Some(v) => {
                acc = v;
            },
            None => {
                proof {
                    assert(digits_value(d.take(i - start + 1)) == acc * 10 + digit);
                    assert(acc * 10 + digit > usize::MAX);
                    if forall|j: int| 0 <= j < d.len() ==> is_digit(#[trigger] d[j]) {
                        lemma_digits_prefix(d, i - start + 1);
                    }
                }
                return None;
            },
        }
        i = i + 1;
    }
    assert(d.take(n - start) =~= d);
    Some(acc)
}

/// Checks a `--keep-last` argument: a decimal number of at least 1.
pub fn parse_keep_last(s: &str) -> (r: Result<usize, String>)
    ensures
        match parsed_usize(s@) {
            None => r matches Err(e) && e@ == "'"@ + s@ + "' is not a valid number"@,
            Some(v) => if v == 0 {
                r matches Err(e) && e@ == "keep-last must be at least 1"@
            } else {
                r == Ok::<usize, String>(v)
            },
        },
{
    match parse_usize(s) {
        None => {
            let mut e: String = "'".to_string();
            e.append(s);
            e.append("' is not a valid number");
            Err(e)
        },
        Some(v) => {
            if v == 0 {
                Err("keep-last must be at least 1".to_string())
            } else {
                Ok(v)
            }
        },
    }
}

} // verus!
