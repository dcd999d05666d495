//! Calendar arithmetic for the registry's timestamps: ISO-8601 UTC text
//! (`YYYY-MM-DDTHH:MM:SSZ`) to and from seconds since the Unix epoch, and the
//! human-readable age of a timestamp.
use vstd::prelude::*;

use crate::matching::{strip_trailing, strip_trailing_chars};
use crate::text::{chars_of, find, find_from, slice_of, split, split_chars, string_of};

verus! {

/// Whether `y` is a leap year in the Gregorian calendar.
pub open spec fn leap(y: int) -> bool {
    (y % 4 == 0 && y % 100 != 0) || y % 400 == 0
}

/// The number of days of month `m` of year `y` (30 for a number that names no month).
pub open spec fn month_days(y: int, m: int) -> int {
    if m == 2 {
        if leap(y) {
            29
        } else {
            28
        }
    } else if m == 4 || m == 6 || m == 9 || m == 11 {
        30
    } else if 1 <= m <= 12 {
        31
    } else {
        30
    }
}

/// The number of days of year `y`.
pub open spec fn year_days(y: int) -> int {
    if leap(y) {
        366
    } else {
        365
    }
}

/// The number of days from 1970-01-01 to the first day of year `y` (0 before 1970).
pub open spec fn days_before_year(y: int) -> int
    decreases y - 1970,
{
    if y <= 1970 {
        0
    } else {
        days_before_year(y - 1) + year_days(y - 1)
    }
}

/// The number of days of year `y` before the first day of month `m`.
pub open spec fn days_before_month(y: int, m: int) -> int
    decreases m,
{
    if m <= 1 {
        0
    } else {
        days_before_month(y, m - 1) + month_days(y, m - 1)
    }
}

/// Whether `y` is a leap year.
pub fn is_leap_year(y: u64) -> (r: bool)
    ensures
        r == leap(y as int),
{
    (y % 4 == 0 && y % 100 != 0) || y % 400 == 0
}

/// The number of days of month `m` of year `y` (30 for a number that names no month).
pub fn days_in_month(y: u64, m: u64) -> (r: u64)
    ensures
        r == month_days(y as int, m as int),
{
    match m {
        1 => 31,
        2 => {
            if is_leap_year(y) {
                29
            } else {
                28
            }
        },
        3 => 31,
        4 => 30,
        5 => 31,
        6 => 30,
        7 => 31,
        8 => 31,
        9 => 30,
        10 => 31,
        11 => 30,
        12 => 31,
        _ => 30,
    }
}

// ---------------------------------------------------------------- decimal text

/// The decimal digit `d` as a character.
pub open spec fn digit_char(d: int) -> char {
    ((d + 48) as u8) as char
}

/// The decimal digits of `n`, without leading zeros.
pub open spec fn decimal(n: nat) -> Seq<char>
    decreases n,
{
    if n < 10 {
        seq![digit_char(n as int)]
    } else {
        decimal(n / 10).push(digit_char((n % 10) as int))
    }
}

/// `s` preceded by zeros up to width `w` (`{:0w}`).
pub open spec fn pad(s: Seq<char>, w: nat) -> Seq<char> {
    if s.len() >= w {
        s
    } else {
        Seq::new((w - s.len()) as nat, |i: int| '0') + s
    }
}

/// The decimal digits of `n`.
pub fn decimal_chars(n: u64) -> (r: Vec<char>)
    ensures
        r@ == decimal(n as nat),
    decreases n,
{
    if n < 10 {
        let mut v: Vec<char> = Vec::new();
        v.push(((n as u8) + 48u8) as char);
        v
    } else {
        let mut v = decimal_chars(n / 10);
        v.push((((n % 10) as u8) + 48u8) as char);
        v
    }
}

/// The decimal digits of `n` preceded by zeros up to width `w`.
pub fn padded(n: u64, w: usize) -> (r: Vec<char>)
    ensures
        r@ == pad(decimal(n as nat), w as nat),
{
    let d = decimal_chars(n);
    if d.len() >= w {
        return d;
    }
    let mut r: Vec<char> = Vec::new();
    let k = w - d.len();
    let mut i: usize = 0;
    while i < k
        invariant
            i <= k,
            r@ == Seq::new(i as nat, |j: int| '0'),
        decreases k - i,
    {
        r.push('0');
        i = i + 1;
        assert(r@ =~= Seq::new(i as nat, |j: int| '0'));
    }
    let mut j: usize = 0;
    let ghost zeros = r@;
    while j < d.len()
        invariant
            j <= d.len(),
            r@ == zeros + d@.take(j as int),
        decreases d.len() - j,
    {
        r.push(d[j]);
        j = j + 1;
        assert(r@ =~= zeros + d@.take(j as int));
    }
    assert(d@.take(d.len() as int) == d@);
    r
}

/// The value of a sequence of decimal digits.
pub open spec fn digits_value(d: Seq<char>) -> nat
    decreases d.len(),
{
    if d.len() == 0 {
        0
    } else {
        digits_value(d.drop_last()) * 10 + ((d.last() as u32) - 48) as nat
    }
}

/// Whether every character of `d` is a decimal digit.
pub open spec fn all_digits(d: Seq<char>) -> bool {
    forall|i: int| 0 <= i < d.len() ==> '0' <= #[trigger] d[i] <= '9'
}

/// The `u64` that `s` denotes (`str::parse::<u64>`): an optional `+` and at
/// least one decimal digit, the value not above `u64::MAX`.
pub open spec fn parse_u64(s: Seq<char>) -> Option<u64> {
    let d = if s.len() > 0 && s[0] == '+' {
        s.skip(1)
    } else {
        s
    };
    if d.len() > 0 && all_digits(d) && digits_value(d) <= u64::MAX {
        Some(digits_value(d) as u64)
    } else {
        None
    }
}

proof fn lemma_digits_value_grows(d: Seq<char>, j: int, k: int)
    requires
        0 <= j <= k <= d.len(),
        all_digits(d),
    ensures
        digits_value(d.take(j)) <= digits_value(d.take(k)),
    decreases k - j,
{
    if j < k {
        lemma_digits_value_grows(d, j, k - 1);
        assert(d.take(k).drop_last() == d.take(k - 1));
    }
}

/// Reads a `u64` from decimal text (`str::parse::<u64>`).
pub fn parse_u64_chars(s: &[char]) -> (r: Option<u64>)
    ensures
        r == parse_u64(s@),
{
    let start: usize = if s.len() > 0 && s[0] == '+' {
        1
    } else {
        0
    };
    let d = slice_of(s, start, s.len());
    assert(d@ == (if s@.len() > 0 && s@[0] == '+' {
        s@.skip(1)
    } else {
        s@
    }));
    if d.len() == 0 {
        return None;
    }
    let mut v: u64 = 0;
    let mut i: usize = 0;
    while i < d.len()
        invariant
            i <= d.len(),
            v == digits_value(d@.take(i as int)),
            forall|k: int| 0 <= k < i ==> '0' <= #[trigger] d@[k] <= '9',
            d@.len() > 0,
            parse_u64(s@) == (if all_digits(d@) && digits_value(d@) <= u64::MAX {
                Some(digits_value(d@) as u64)
            } else {
                None
            }),
        decreases d.len() - i,
    {
        let c = d[i];
        if c < '0' || c > '9' {
            assert(!all_digits(d@));
            return None;
        }
        assert(d@.take(i + 1).drop_last() == d@.take(i as int));
        let dv = (c as u32 - 48) as u64;
        match v.checked_mul(10) {
            Some(t) => match t.checked_add(dv) {
                Some(u) => {
                    v = u;
                },
                None => {
                    proof {
                        overflow_means_too_big(d@, i as int);
                    }
                    return None;
                },
            },
            None => {
                proof {
                    overflow_means_too_big(d@, i as int);
                }
                return None;
            },
        }
        i = i + 1;
    }
    assert(d@.take(d.len() as int) == d@);
    Some(v)
}

/// When the value of a prefix of digits passes `u64::MAX`, so does that of the
/// whole, or the whole is not made of digits.
proof fn overflow_means_too_big(d: Seq<char>, i: int)
    requires
        0 <= i < d.len(),
        '0' <= d[i] <= '9',
        digits_value(d.take(i)) * 10 + ((d[i] as u32) - 48) > u64::MAX,
    ensures
        !(all_digits(d) && digits_value(d) <= u64::MAX),
{
    if all_digits(d) {
        assert(d.take(i + 1).drop_last() == d.take(i));
        lemma_digits_value_grows(d, i + 1, d.len() as int);
        assert(d.take(d.len() as int) == d);
    }
}

// ---------------------------------------------------------------- epoch to ISO-8601

/// The year that `days` days after the first day of year `y` fall in, and the
/// day of that year (from 0).
pub open spec fn civil_year(days: int, y: int) -> (int, int)
    decreases days,
{
    if days < year_days(y) || days < 0 {
        (y, days)
    } else {
        civil_year(days - year_days(y), y + 1)
    }
}

/// The month that day `days` (from 0) of year `y` falls in, counting from month
/// `m`, and the day of that month (from 0).
pub open spec fn civil_month(days: int, y: int, m: int) -> (int, int)
    decreases days,
{
    if days < month_days(y, m) || days < 0 {
        (m, days)
    } else {
        civil_month(days - month_days(y, m), y, m + 1)
    }
}

/// `YYYY-MM-DDTHH:MM:SSZ` for `secs` seconds after the Unix epoch (UTC).
pub open spec fn iso_text(secs: nat) -> Seq<char> {
    let tod = secs % 86400;
    let (year, rem) = civil_year((secs / 86400) as int, 1970);
    let (month, d0) = civil_month(rem, year, 1);
    pad(decimal(year as nat), 4) + seq!['-'] + pad(decimal(month as nat), 2) + seq!['-'] + pad(
        decimal((d0 + 1) as nat),
        2,
    ) + seq!['T'] + pad(decimal(tod / 3600), 2) + seq![':'] + pad(decimal((tod % 3600) / 60), 2)
        + seq![':'] + pad(decimal(tod % 60), 2) + seq!['Z']
}

fn append_chars(dst: &mut Vec<char>, src: &[char])
    ensures
        final(dst)@ == old(dst)@ + src@,
{
    let mut i: usize = 0;
    let ghost start = dst@;
    while i < src.len()
        invariant
            i <= src.len(),
            dst@ == start + src@.take(i as int),
        decreases src.len() - i,
    {
        dst.push(src[i]);
        i = i + 1;
        assert(dst@ =~= start + src@.take(i as int));
    }
    assert(src@.take(src.len() as int) == src@);
}

/// Converts seconds since the Unix epoch to `YYYY-MM-DDTHH:MM:SSZ` (UTC).
pub fn epoch_to_iso8601(epoch_secs: u64) -> (r: String)
    ensures
        r@ == iso_text(epoch_secs as nat),
{
    let secs_in_day: u64 = 86400;
    let time_of_day = epoch_secs % secs_in_day;
    let days0 = epoch_secs / secs_in_day;
    let mut days = days0;
    let hour = time_of_day / 3600;
    let minute = (time_of_day % 3600) / 60;
    let second = time_of_day % 60;
    let mut year: u64 = 1970;
    loop
        invariant
            days <= days0,
            days0 == epoch_secs / 86400,
            1970 <= year,
            (year - 1970) * 365 <= days0 - days,
            civil_year(days0 as int, 1970) == civil_year(days as int, year as int),
        ensures
            days < year_days(year as int),
            civil_year(days0 as int, 1970) == civil_year(days as int, year as int),
            1970 <= year,
            days <= days0,
            days0 == epoch_secs / 86400,
        decreases days,
    {
        let days_in_year: u64 = if is_leap_year(year) {
            366
        } else {
            365
        };
        if days < days_in_year {
            break;
        }
        days = days - days_in_year;
        year = year + 1;
    }
    let ghost ydays = days;
    let mut month: u64 = 1;
    loop
        invariant
            days <= ydays,
            1 <= month,
            (month - 1) * 28 <= ydays - days,
            ydays <= epoch_secs,
            civil_month(ydays as int, year as int, 1) == civil_month(days as int, year as int, month as int),
        ensures
            days < month_days(year as int, month as int),
            civil_month(ydays as int, year as int, 1) == civil_month(days as int, year as int, month as int),
            days <= ydays,
            ydays <= epoch_secs,
        decreases days,
    {
        let dim = days_in_month(year, month);
        if days < dim {
            break;
        }
        days = days - dim;
        month = month + 1;
    }
    assert(civil_year(days0 as int, 1970) == (year as int, ydays as int));
    assert(civil_month(ydays as int, year as int, 1) == (month as int, days as int));
    let day = days + 1;
    let mut out: Vec<char> = Vec::new();
    append_chars(&mut out, padded(year, 4).as_slice());
    out.push('-');
    append_chars(&mut out, padded(month, 2).as_slice());
    out.push('-');
    append_chars(&mut out, padded(day, 2).as_slice());
    out.push('T');
    append_chars(&mut out, padded(hour, 2).as_slice());
    out.push(':');
    append_chars(&mut out, padded(minute, 2).as_slice());
    out.push(':');
    append_chars(&mut out, padded(second, 2).as_slice());
    out.push('Z');
    string_of(out.as_slice())
}

// ---------------------------------------------------------------- ISO-8601 to epoch

/// The six numbers of `YYYY-MM-DDTHH:MM:SS` (trailing `Z`s ignored, further
/// `-` or `:` fields ignored), if the text has them.
pub open spec fn iso_fields(s: Seq<char>) -> Option<(u64, u64, u64, u64, u64, u64)> {
    let t = strip_trailing(s, 'Z');
    match find_from(t, seq!['T'], 0) {
        None => None,
        Some(k) => {
            let dp = split(t.take(k), '-');
            let tp = split(t.skip(k + 1), ':');
            if dp.len() < 3 || tp.len() < 3 {
                None
            } else {
                match (
                    parse_u64(dp[0]),
                    parse_u64(dp[1]),
                    parse_u64(dp[2]),
                    parse_u64(tp[0]),
                    parse_u64(tp[1]),
                    parse_u64(tp[2]),
                ) {
                    (Some(y), Some(mo), Some(d), Some(h), Some(mi), Some(se)) => Some(
                        (y, mo, d, h, mi, se),
                    ),
                    _ => None,
                }
            }
        },
    }
}

/// The seconds since the Unix epoch of a date and time (days of the month from 1).
pub open spec fn epoch_of(y: int, mo: int, d: int, h: int, mi: int, se: int) -> int {
    (days_before_year(y) + days_before_month(y, mo) + d - 1) * 86400 + h * 3600 + mi * 60 + se
}

/// The seconds since the Unix epoch of an ISO-8601 UTC timestamp, when it has
/// the six fields, a day of at least 1 and a value that fits a `u64`.
pub open spec fn iso_to_epoch(s: Seq<char>) -> Option<u64> {
    match iso_fields(s) {
        None => None,
        Some((y, mo, d, h, mi, se)) => {
            let e = epoch_of(y as int, mo as int, d as int, h as int, mi as int, se as int);
            if d >= 1 && e <= u64::MAX {
                Some(e as u64)
            } else {
                None
            }
        },
    }
}

proof fn lemma_days_before_year_grows(a: int, b: int)
    requires
        a <= b,
    ensures
        days_before_year(a) <= days_before_year(b),
    decreases b - a,
{
    if a < b {
        lemma_days_before_year_grows(a, b - 1);
    }
}

proof fn lemma_days_before_month_grows(y: int, a: int, b: int)
    requires
        a <= b,
    ensures
        days_before_month(y, a) <= days_before_month(y, b),
    decreases b - a,
{
    if a < b {
        lemma_days_before_month_grows(y, a, b - 1);
    }
}

/// The seconds since the Unix epoch of a date and time, or `None` past `u64::MAX`
/// or for a day 0.
fn epoch_from_fields(y: u64, mo: u64, d: u64, h: u64, mi: u64, se: u64) -> (r: Option<u64>)
    ensures
        r == (if d >= 1 && epoch_of(y as int, mo as int, d as int, h as int, mi as int, se as int)
            <= u64::MAX {
            Some(epoch_of(y as int, mo as int, d as int, h as int, mi as int, se as int) as u64)
        } else {
            None
        }),
{
    let ghost e = epoch_of(y as int, mo as int, d as int, h as int, mi as int, se as int);
    if d == 0 {
        return None;
    }
    proof {
        if y >= 1970 {
            lemma_days_before_year_grows(1970, y as int);
        }
        if mo >= 1 {
            lemma_days_before_month_grows(y as int, 1, mo as int);
        }
        assert(e >= (days_before_year(y as int) + days_before_month(y as int, mo as int)) * 86400) by (nonlinear_arith)
            requires
                e == (days_before_year(y as int) + days_before_month(y as int, mo as int) + d - 1) * 86400 + h * 3600 + mi * 60 + se,
                d >= 1, h >= 0, mi >= 0, se >= 0;
    }
    let mut total: u64 = 0;
    let mut yy: u64 = 1970;
    while yy < y
        invariant
            1970 <= yy,
            yy <= y || yy == 1970,
            total == days_before_year(yy as int),
            e >= (days_before_year(y as int) + days_before_month(y as int, mo as int)) * 86400,
            days_before_month(y as int, mo as int) >= 0,
            d >= 1,
        decreases y - yy,
    {
        let add: u64 = if is_leap_year(yy) {
            366
        } else {
            365
        };
        match total.checked_add(add) {
            Some(t) => {
                total = t;
            },
            None => {
                proof {
                    lemma_days_before_year_grows(yy + 1, y as int);
                }
                return None;
            },
        }
        yy = yy + 1;
    }
    assert(total == days_before_year(y as int)) by {
        if y < 1970 {
            assert(days_before_year(y as int) == 0);
        }
    }
    let mut m: u64 = 1;
    while m < mo
        invariant
            1 <= m,
            m <= mo || m == 1,
            total == days_before_year(y as int) + days_before_month(y as int, m as int),
            e >= (days_before_year(y as int) + days_before_month(y as int, mo as int)) * 86400,
            days_before_year(y as int) >= 0,
        decreases mo - m,
    {
        match total.checked_add(days_in_month(y, m)) {
            Some(t) => {
                total = t;
            },
            None => {
                proof {
                    lemma_days_before_month_grows(y as int, m + 1, mo as int);
                }
                return None;
            },
        }
        m = m + 1;
    }
    assert(total == days_before_year(y as int) + days_before_month(y as int, mo as int)) by {
        if mo < 1 {
            assert(days_before_month(y as int, mo as int) == 0);
        }
    }
    let t1 = match total.checked_add(d - 1) {
        Some(t) => t,
        None => {
            return None;
        },
    };
    let t2 = match t1.checked_mul(86400) {
        Some(t) => t,
        None => {
            return None;
        },
    };
    let hs = match h.checked_mul(3600) {
        Some(t) => t,
        None => {
            return None;
        },
    };
    let ms = match mi.checked_mul(60) {
        Some(t) => t,
        None => {
            return None;
        },
    };
    let a1 = match t2.checked_add(hs) {
        Some(t) => t,
        None => {
            return None;
        },
    };
    let a2 = match a1.checked_add(ms) {
        Some(t) => t,
        None => {
            return None;
        },
    };
    match a2.checked_add(se) {
        Some(t) => Some(t),
        None => None,
    }
}

/// Parses a timestamp `YYYY-MM-DDTHH:MM:SSZ` to seconds since the Unix epoch.
pub fn iso8601_to_epoch(s: &str) -> (r: Option<u64>)
    ensures
        r == iso_to_epoch(s@),
{
    let cs = chars_of(s);
    let t = strip_trailing_chars(cs.as_slice(), 'Z');
    let tee = ['T'];
    assert(tee@ == seq!['T']);
    let k = match find(t.as_slice(), tee.as_slice()) {
        Some(k) => k,
        None => {
            return None;
        },
    };
    let date = slice_of(t.as_slice(), 0, k);
    let time = slice_of(t.as_slice(), k + 1, t.len());
    let dp = split_chars(date.as_slice(), '-');
    let tp = split_chars(time.as_slice(), ':');
    let ghost dps = dp@.map_values(|v: Vec<char>| v@);
    let ghost tps = tp@.map_values(|v: Vec<char>| v@);
    assert(dps == split(t@.take(k as int), '-'));
    assert(tps == split(t@.skip(k + 1), ':'));
    if dp.len() < 3 || tp.len() < 3 {
        return None;
    }
    assert(dps[0] == dp@[0]@ && dps[1] == dp@[1]@ && dps[2] == dp@[2]@);
    assert(tps[0] == tp@[0]@ && tps[1] == tp@[1]@ && tps[2] == tp@[2]@);
    let y = parse_u64_chars(dp[0].as_slice());
    let mo = parse_u64_chars(dp[1].as_slice());
    let d = parse_u64_chars(dp[2].as_slice());
    let h = parse_u64_chars(tp[0].as_slice());
    let mi = parse_u64_chars(tp[1].as_slice());
    let se = parse_u64_chars(tp[2].as_slice());
    match (y, mo, d, h, mi, se) {
        (Some(y), Some(mo), Some(d), Some(h), Some(mi), Some(se)) => epoch_from_fields(
            y,
            mo,
            d,
            h,
            mi,
            se,
        ),
        _ => None,
    }
}

// ---------------------------------------------------------------- relative time

/// The seconds since the Unix epoch that a stored timestamp denotes: plain
/// epoch seconds, else ISO-8601 text.
pub open spec fn timestamp_secs(ts: Seq<char>) -> Option<u64> {
    match parse_u64(ts) {
        Some(e) => Some(e),
        None => iso_to_epoch(ts),
    }
}

/// `n` followed by a unit, singular for 1 (`1 minute ago`, `5 minutes ago`).
pub open spec fn count_text(n: nat, one: Seq<char>, many: Seq<char>) -> Seq<char> {
    if n == 1 {
        one
    } else {
        decimal(n) + many
    }
}

/// How long ago an event `diff` seconds old happened.
pub open spec fn age_text(diff: nat) -> Seq<char> {
    if diff < 60 {
        "just now"@
    } else if diff < 3600 {
        count_text(diff / 60, "1 minute ago"@, " minutes ago"@)
    } else if diff < 86400 {
        count_text(diff / 3600, "1 hour ago"@, " hours ago"@)
    } else {
        count_text(diff / 86400, "1 day ago"@, " days ago"@)
    }
}

/// How long before `now` a stored timestamp lies: `unknown` for text that is no
/// timestamp, `just now` for one that is not in the past.
pub open spec fn relative_text(ts: Seq<char>, now: u64) -> Seq<char> {
    match timestamp_secs(ts) {
        None => "unknown"@,
        Some(t) => if now <= t {
            "just now"@
        } else {
            age_text((now - t) as nat)
        },
    }
}

fn count_string(n: u64, one: &str, many: &str) -> (r: String)
    ensures
        r@ == count_text(n as nat, one@, many@),
{
    if n == 1 {
        crate::text::owned(one)
    } else {
        let d = decimal_chars(n);
        let ds = string_of(d.as_slice());
        crate::text::concat(ds.as_str(), many)
    }
}

/// How long before `now_secs` the timestamp `timestamp` lies, as text such as
/// `12 minutes ago`; the timestamp is epoch seconds or ISO-8601.
pub fn relative_time_at(timestamp: &str, now_secs: u64) -> (r: String)
    ensures
        r@ == relative_text(timestamp@, now_secs),
{
    let cs = chars_of(timestamp);
    let ts_secs = match parse_u64_chars(cs.as_slice()) {
        Some(e) => e,
        None => match iso8601_to_epoch(timestamp) {
            Some(s) => s,
            None => {
                return crate::text::owned("unknown");
            },
        },
    };
    if now_secs <= ts_secs {
        return crate::text::owned("just now");
    }
    let diff = now_secs - ts_secs;
    if diff < 60 {
        return crate::text::owned("just now");
    }
    if diff < 3600 {
        return count_string(diff / 60, "1 minute ago", " minutes ago");
    }
    if diff < 86400 {
        return count_string(diff / 3600, "1 hour ago", " hours ago");
    }
    count_string(diff / 86400, "1 day ago", " days ago")
}

/// The current time in seconds since the Unix epoch (`SystemTime::now`; a clock
/// set before the epoch reads as 0). Nothing is stated of the value: it is the
/// machine's clock.
#[verifier::external_body]
pub(crate) fn unix_now_secs() -> u64 {
    std::time::SystemTime::now().duration_since(std::time::SystemTime::UNIX_EPOCH).unwrap_or_default().as_secs()
}

/// How long ago a timestamp lies, as text such as `12 minutes ago`, measured
/// against the machine's clock.
pub fn relative_time(timestamp: &str) -> (r: String)
    ensures
        exists|now: u64| r@ == relative_text(timestamp@, now),
{
    let now = unix_now_secs();
    relative_time_at(timestamp, now)
}

/// The current time as an ISO-8601 UTC timestamp.
pub fn chrono_now() -> (r: String)
    ensures
        exists|now: u64| r@ == iso_text(now as nat),
{
    let now = unix_now_secs();
    epoch_to_iso8601(now)
}


// ---------------------------------------------------------------- the round trip

proof fn lemma_digit_char(d: int)
    requires
        0 <= d <= 9,
    ensures
        '0' <= digit_char(d) <= '9',
        (digit_char(d) as u32) - 48 == d,
{
}

/// The decimal text of `n` is a nonempty run of digits whose value is `n`.
proof fn lemma_decimal_value(n: nat)
    ensures
        all_digits(decimal(n)),
        decimal(n).len() >= 1,
        digits_value(decimal(n)) == n,
    decreases n,
{
    if n < 10 {
        lemma_digit_char(n as int);
        let d = decimal(n);
        assert(d.drop_last().len() == 0);
        assert(digits_value(d.drop_last()) == 0);
        assert(d.last() == digit_char(n as int));
        assert(digits_value(d) == digits_value(d.drop_last()) * 10 + ((d.last() as u32) - 48) as nat);
    } else {
        lemma_decimal_value(n / 10);
        lemma_digit_char((n % 10) as int);
        let d = decimal(n);
        assert(d.drop_last() == decimal(n / 10));
        assert(d.last() == digit_char((n % 10) as int));
        assert(digits_value(d) == digits_value(d.drop_last()) * 10 + ((d.last() as u32) - 48) as nat);
        assert(digits_value(d) == (n / 10) * 10 + n % 10);
        assert forall|i: int| 0 <= i < d.len() implies '0' <= #[trigger] d[i] <= '9' by {
            if i < d.len() - 1 {
                assert(d[i] == decimal(n / 10)[i]);
            }
        }
    }
}

/// Leading zeros add nothing to the value of digits.
proof fn lemma_leading_zeros(z: Seq<char>, s: Seq<char>)
    requires
        forall|i: int| 0 <= i < z.len() ==> #[trigger] z[i] == '0',
    ensures
        digits_value(z + s) == digits_value(s),
    decreases s.len(), z.len(),
{
    if s.len() > 0 {
        assert((z + s).drop_last() == z + s.drop_last());
        assert((z + s).last() == s.last());
        lemma_leading_zeros(z, s.drop_last());
    } else {
        assert(z + s == z);
        if z.len() > 0 {
            let zz = z.drop_last();
            assert forall|i: int| 0 <= i < zz.len() implies #[trigger] zz[i] == '0' by {
                assert(zz[i] == z[i]);
            }
            lemma_leading_zeros(zz, s);
            assert(zz + s == zz);
        }
    }
}

/// A decimal number padded with zeros reads back as the number.
proof fn lemma_pad_parse(n: nat, w: nat)
    requires
        n <= u64::MAX,
    ensures
        all_digits(pad(decimal(n), w)),
        pad(decimal(n), w).len() >= 1,
        parse_u64(pad(decimal(n), w)) == Some(n as u64),
{
    lemma_decimal_value(n);
    let d = decimal(n);
    let p = pad(d, w);
    if d.len() < w {
        let z = Seq::new((w - d.len()) as nat, |i: int| '0');
        assert(p == z + d);
        lemma_leading_zeros(z, d);
        assert forall|i: int| 0 <= i < p.len() implies '0' <= #[trigger] p[i] <= '9' by {
            if i >= z.len() {
                assert(p[i] == d[i - z.len()]);
            }
        }
    }
    assert('0' <= p[0] <= '9');
}


/// Splitting skips over a run without the separator: the run joins the
/// piece under construction.
proof fn lemma_split_run(cur: Seq<char>, a: Seq<char>, rest: Seq<char>, sep: char)
    requires
        forall|i: int| 0 <= i < a.len() ==> #[trigger] a[i] != sep,
    ensures
        crate::text::split_acc(cur, a + rest, sep) == crate::text::split_acc(cur + a, rest, sep),
    decreases a.len(),
{
    if a.len() > 0 {
        assert((a + rest)[0] == a[0]);
        assert((a + rest).drop_first() == a.drop_first() + rest);
        let tail = a.drop_first();
        assert forall|i: int| 0 <= i < tail.len() implies #[trigger] tail[i] != sep by {
            assert(tail[i] == a[i + 1]);
        }
        lemma_split_run(cur.push(a[0]), tail, rest, sep);
        assert(cur.push(a[0]) + tail == cur + a);
    } else {
        assert(a + rest == rest);
        assert(cur + a == cur);
    }
}

/// Three runs without the separator, joined by it, split back into the runs.
proof fn lemma_split_three(a: Seq<char>, b: Seq<char>, c: Seq<char>, sep: char)
    requires
        forall|i: int| 0 <= i < a.len() ==> #[trigger] a[i] != sep,
        forall|i: int| 0 <= i < b.len() ==> #[trigger] b[i] != sep,
        forall|i: int| 0 <= i < c.len() ==> #[trigger] c[i] != sep,
    ensures
        split(a + seq![sep] + b + seq![sep] + c, sep) == seq![a, b, c],
{
    let e = Seq::<char>::empty();
    let r2 = seq![sep] + b + seq![sep] + c;
    assert(a + seq![sep] + b + seq![sep] + c == a + r2);
    lemma_split_run(e, a, r2, sep);
    assert(e + a == a);
    assert(r2[0] == sep);
    assert(r2.drop_first() == b + (seq![sep] + c));
    lemma_split_run(e, b, seq![sep] + c, sep);
    assert(e + b == b);
    assert((seq![sep] + c)[0] == sep);
    assert((seq![sep] + c).drop_first() == c);
    assert(c + e == c);
    lemma_split_run(e, c, e, sep);
    assert(crate::text::split_acc(c, e, sep) == seq![c]);
    assert(crate::text::split_acc(e, b + (seq![sep] + c), sep) == seq![b] + seq![c]);
    assert(crate::text::split_acc(e, a + r2, sep) == seq![a] + (seq![b] + seq![c]));
    assert(seq![a] + (seq![b] + seq![c]) =~= seq![a, b, c]);
}

/// The first occurrence of a character at or after `i` is at `k` when it
/// stands there and nowhere in between.
proof fn lemma_find_at(s: Seq<char>, c: char, i: int, k: int)
    requires
        0 <= i <= k < s.len(),
        s[k] == c,
        forall|j: int| i <= j < k ==> #[trigger] s[j] != c,
    ensures
        find_from(s, seq![c], i) == Some(k),
    decreases k - i,
{
    if i < k {
        assert(!crate::text::occurs_at(s, seq![c], i)) by {
            if s.subrange(i, i + 1) == seq![c] {
                assert(s.subrange(i, i + 1)[0] == s[i]);
            }
        }
        lemma_find_at(s, c, i + 1, k);
    } else {
        assert(s.subrange(k, k + 1) =~= seq![c]);
    }
}

/// Counting whole years from year `y` on: the year found and the day left in
/// it account for all the days.
proof fn lemma_civil_year(days: int, y: int)
    requires
        days >= 0,
        y >= 1970,
    ensures
        days_before_year(civil_year(days, y).0) + civil_year(days, y).1 == days_before_year(y) + days,
        0 <= civil_year(days, y).1 < year_days(civil_year(days, y).0),
        y <= civil_year(days, y).0 <= y + days,
    decreases days,
{
    if days >= year_days(y) {
        lemma_civil_year(days - year_days(y), y + 1);
        assert(days_before_year(y + 1) == days_before_year(y) + year_days(y));
    }
}

/// Counting whole months from month `m` on: the month found and the day left
/// in it account for all the days.
proof fn lemma_civil_month(days: int, y: int, m: int)
    requires
        days >= 0,
        m >= 1,
    ensures
        days_before_month(y, civil_month(days, y, m).0) + civil_month(days, y, m).1 == days_before_month(y, m) + days,
        0 <= civil_month(days, y, m).1 < month_days(y, civil_month(days, y, m).0),
        m <= civil_month(days, y, m).0 <= m + days,
    decreases days,
{
    if days >= month_days(y, m) {
        lemma_civil_month(days - month_days(y, m), y, m + 1);
        assert(days_before_month(y, m + 1) == days_before_month(y, m) + month_days(y, m));
    }
}

/// A nonempty run of decimal digits.
spec fn digit_run(s: Seq<char>) -> bool {
    s.len() >= 1 && all_digits(s)
}

/// A digit run holds no separator.
proof fn lemma_digit_run_no_sep(s: Seq<char>, sep: char)
    requires
        digit_run(s),
        !('0' <= sep <= '9'),
    ensures
        forall|i: int| 0 <= i < s.len() ==> #[trigger] s[i] != sep,
{
    assert forall|i: int| 0 <= i < s.len() implies #[trigger] s[i] != sep by {
        assert('0' <= s[i] <= '9');
    }
}

/// The fields of `Y-M-DTh:m:sZ`, each a run of digits, are the numbers
/// those runs denote.
proof fn lemma_fields_of(
    yy: Seq<char>,
    mo: Seq<char>,
    dd: Seq<char>,
    hh: Seq<char>,
    mm: Seq<char>,
    ss: Seq<char>,
    v: (u64, u64, u64, u64, u64, u64),
)
    requires
        digit_run(yy),
        digit_run(mo),
        digit_run(dd),
        digit_run(hh),
        digit_run(mm),
        digit_run(ss),
        parse_u64(yy) == Some(v.0),
        parse_u64(mo) == Some(v.1),
        parse_u64(dd) == Some(v.2),
        parse_u64(hh) == Some(v.3),
        parse_u64(mm) == Some(v.4),
        parse_u64(ss) == Some(v.5),
    ensures
        iso_fields(
            yy + seq!['-'] + mo + seq!['-'] + dd + seq!['T'] + hh + seq![':'] + mm + seq![':'] + ss + seq!['Z'],
        ) == Some(v),
{
    let date = yy + seq!['-'] + mo + seq!['-'] + dd;
    let time = hh + seq![':'] + mm + seq![':'] + ss;
    let t = date + seq!['T'] + time;
    let text = yy + seq!['-'] + mo + seq!['-'] + dd + seq!['T'] + hh + seq![':'] + mm + seq![':'] + ss + seq!['Z'];
    assert(text == t + seq!['Z']);
    assert(text.drop_last() == t);
    assert(t.last() == ss[ss.len() - 1]);
    assert('0' <= ss[ss.len() - 1] <= '9');
    assert(strip_trailing(t, 'Z') == t);
    assert(text.last() == 'Z');
    assert(strip_trailing(text, 'Z') == strip_trailing(text.drop_last(), 'Z'));
    let k = date.len() as int;
    assert(t[k] == 'T');
    lemma_digit_run_no_sep(yy, '-');
    lemma_digit_run_no_sep(mo, '-');
    lemma_digit_run_no_sep(dd, '-');
    lemma_digit_run_no_sep(yy, 'T');
    lemma_digit_run_no_sep(mo, 'T');
    lemma_digit_run_no_sep(dd, 'T');
    lemma_digit_run_no_sep(hh, ':');
    lemma_digit_run_no_sep(mm, ':');
    lemma_digit_run_no_sep(ss, ':');
    assert forall|j: int| 0 <= j < k implies #[trigger] t[j] != 'T' by {
        assert(t[j] == date[j]);
        if j < yy.len() {
            assert(date[j] == yy[j]);
        } else if j == yy.len() {
        } else if j < yy.len() + 1 + mo.len() {
            assert(date[j] == mo[j - yy.len() - 1]);
        } else if j == yy.len() + 1 + mo.len() {
        } else {
            assert(date[j] == dd[j - yy.len() - 2 - mo.len()]);
        }
    }
    lemma_find_at(t, 'T', 0, k);
    assert(t.take(k) == date);
    assert(t.skip(k + 1) == time);
    lemma_split_three(yy, mo, dd, '-');
    lemma_split_three(hh, mm, ss, ':');
}

/// Reading back the ISO-8601 text of a time gives the time: for every number
/// of seconds since the Unix epoch, `iso8601_to_epoch(epoch_to_iso8601(s))`
/// is `Some(s)`.
pub proof fn lemma_iso_roundtrip(secs: u64)
    ensures
        iso_to_epoch(iso_text(secs as nat)) == Some(secs),
{
    let n = secs as nat;
    let tod = n % 86400;
    let days = (n / 86400) as int;
    lemma_civil_year(days, 1970);
    let (year, rem) = civil_year(days, 1970);
    lemma_civil_month(rem, year, 1);
    let (month, d0) = civil_month(rem, year, 1);
    let h = tod / 3600;
    let mi = (tod % 3600) / 60;
    let se = tod % 60;
    assert(days_before_year(1970) == 0);
    assert(days_before_month(year, 1) == 0);
    assert(days <= n);
    lemma_pad_parse(year as nat, 4);
    lemma_pad_parse(month as nat, 2);
    lemma_pad_parse((d0 + 1) as nat, 2);
    lemma_pad_parse(h, 2);
    lemma_pad_parse(mi, 2);
    lemma_pad_parse(se, 2);
    let v = (year as u64, month as u64, (d0 + 1) as u64, h as u64, mi as u64, se as u64);
    lemma_fields_of(
        pad(decimal(year as nat), 4),
        pad(decimal(month as nat), 2),
        pad(decimal((d0 + 1) as nat), 2),
        pad(decimal(h), 2),
        pad(decimal(mi), 2),
        pad(decimal(se), 2),
        v,
    );
    assert(h * 3600 + mi * 60 + se == tod) by (nonlinear_arith)
        requires
            h == tod / 3600,
            mi == (tod % 3600) / 60,
            se == tod % 60,
            tod >= 0,
    ;
    assert(days * 86400 + tod == n) by (nonlinear_arith)
        requires
            days == n / 86400,
            tod == n % 86400,
    ;
    assert(epoch_of(year, month, d0 + 1, h as int, mi as int, se as int) == n);
}

} // verus!
