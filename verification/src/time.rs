//! Reading stored timestamps as instants, the way SQLite's `datetime()` reads
//! its ISO 8601 time values, down to whole seconds.
use vstd::prelude::*;

verus! {

pub open spec fn is_digit(c: char) -> bool {
    '0' as u32 <= c as u32 <= '9' as u32
}

pub open spec fn digit_value(c: char) -> int {
    c as u32 - '0' as u32
}

/// Two digits at `i`.
pub open spec fn two_digits(s: Seq<char>, i: int) -> bool {
    0 <= i && i + 2 <= s.len() && is_digit(s[i]) && is_digit(s[i + 1])
}

pub open spec fn num2(s: Seq<char>, i: int) -> int {
    10 * digit_value(s[i]) + digit_value(s[i + 1])
}

/// SQLite's white space: space, tab, line feed, vertical tab, form feed, carriage return.
pub open spec fn is_space(c: char) -> bool {
    c as u32 == 32 || (9 <= c as u32 <= 13)
}

/// First index at or after `i` that is neither white space nor `T`.
pub open spec fn skip_date_time_sep(s: Seq<char>, i: int) -> int
    decreases s.len() - i,
{
    if 0 <= i < s.len() && (is_space(s[i]) || s[i] == 'T') {
        skip_date_time_sep(s, i + 1)
    } else {
        i
    }
}

/// First index at or after `i` that is not white space.
pub open spec fn skip_spaces(s: Seq<char>, i: int) -> int
    decreases s.len() - i,
{
    if 0 <= i < s.len() && is_space(s[i]) {
        skip_spaces(s, i + 1)
    } else {
        i
    }
}

/// First index at or after `i` that is not a digit.
pub open spec fn skip_digits(s: Seq<char>, i: int) -> int
    decreases s.len() - i,
{
    if 0 <= i < s.len() && is_digit(s[i]) {
        skip_digits(s, i + 1)
    } else {
        i
    }
}

/// Days from 1970-01-01 to the given day of the proleptic Gregorian calendar;
/// a day number past the month's end runs on into the next month.
pub open spec fn days_from_civil(y: int, m: int, d: int) -> int {
    let yy = if m <= 2 { y - 1 } else { y };
    let era = yy / 400;
    let yoe = yy - era * 400;
    let mp = if m > 2 { m - 3 } else { m + 9 };
    let doy = (153 * mp + 2) / 5 + d - 1;
    let doe = yoe * 365 + yoe / 4 - yoe / 100 + doy;
    era * 146097 + doe - 719468
}

/// `YYYY-MM-DD` at the start of `s`: year 0000–9999, month 01–12, day 01–31.
pub open spec fn date_prefix(s: Seq<char>) -> bool {
    &&& s.len() >= 10
    &&& is_digit(s[0]) && is_digit(s[1]) && is_digit(s[2]) && is_digit(s[3])
    &&& s[4] == '-'
    &&& two_digits(s, 5) && 1 <= num2(s, 5) <= 12
    &&& s[7] == '-'
    &&& two_digits(s, 8) && 1 <= num2(s, 8) <= 31
}

pub open spec fn year_of(s: Seq<char>) -> int {
    1000 * digit_value(s[0]) + 100 * digit_value(s[1]) + 10 * digit_value(s[2]) + digit_value(s[3])
}

/// `HH:MM[:SS[.fraction]]` at `j`: the second of the day and where it ends.
pub open spec fn time_of_day(s: Seq<char>, j: int) -> Option<(int, int)> {
    if two_digits(s, j) && j + 2 < s.len() && s[j + 2] == ':' && two_digits(s, j + 3)
        && num2(s, j) <= 24 && num2(s, j + 3) <= 59 {
        let hm = num2(s, j) * 3600 + num2(s, j + 3) * 60;
        let k = j + 5;
        if k < s.len() && s[k] == ':' {
            if two_digits(s, k + 1) && num2(s, k + 1) <= 59 {
                let e = k + 3;
                let end = if e + 1 < s.len() && s[e] == '.' && is_digit(s[e + 1]) {
                    skip_digits(s, e + 1)
                } else {
                    e
                };
                Some((hm + num2(s, k + 1), end))
            } else {
                None
            }
        } else {
            Some((hm, k))
        }
    } else {
        None
    }
}

/// What may follow the time: spaces, then nothing, `Z`, or `±HH:MM` (hours
/// up to 14), then spaces to the end. The offset east of UTC, in seconds.
pub open spec fn zone_offset(s: Seq<char>, k: int) -> Option<int> {
    let z = skip_spaces(s, k);
    if z >= s.len() {
        Some(0)
    } else if s[z] == 'Z' || s[z] == 'z' {
        if skip_spaces(s, z + 1) >= s.len() { Some(0) } else { None }
    } else if s[z] == '+' || s[z] == '-' {
        if two_digits(s, z + 1) && z + 3 < s.len() && s[z + 3] == ':' && two_digits(s, z + 4)
            && num2(s, z + 1) <= 14 && num2(s, z + 4) <= 59 && skip_spaces(s, z + 6) >= s.len() {
            let off = num2(s, z + 1) * 3600 + num2(s, z + 4) * 60;
            Some(if s[z] == '+' { off } else { -off })
        } else {
            None
        }
    } else {
        None
    }
}

/// A time of day with optional zone starting at `j`, on the day `day`
/// (days since 1970-01-01): the instant in seconds since 1970-01-01 UTC.
pub open spec fn instant_at(s: Seq<char>, j: int, day: int) -> Option<int> {
    match time_of_day(s, j) {
        Some((sod, k)) => match zone_offset(s, k) {
            Some(off) => Some(day * 86400 + sod - off),
            None => None,
        },
        None => None,
    }
}

/// The instant a stored timestamp names, in whole seconds since
/// 1970-01-01T00:00:00Z (fractions of a second dropped), or `None` when it is
/// not a date-and-time value.
///
/// Accepted: `YYYY-MM-DD`, optionally followed by spaces or `T`s and a time
/// of day with optional zone; or a bare time of day with optional zone, which
/// is read on 2000-01-01.
pub open spec fn timestamp_seconds(s: Seq<char>) -> Option<int> {
    if date_prefix(s) {
        let day = days_from_civil(year_of(s), num2(s, 5), num2(s, 8));
        let j = skip_date_time_sep(s, 10);
        if j >= s.len() {
            Some(day * 86400)
        } else {
            instant_at(s, j, day)
        }
    } else {
        instant_at(s, 0, days_from_civil(2000, 1, 1))
    }
}

proof fn lemma_skip_bounds(s: Seq<char>, i: int)
    requires
        0 <= i <= s.len(),
    ensures
        i <= skip_date_time_sep(s, i) <= s.len(),
        i <= skip_spaces(s, i) <= s.len(),
        i <= skip_digits(s, i) <= s.len(),
    decreases s.len() - i,
{
    if i < s.len() {
        lemma_skip_bounds(s, i + 1);
    }
}

fn digit_at(v: &Vec<char>, i: usize) -> (r: Option<i64>)
    ensures
        r is Some <==> (i < v.len() && is_digit(v@[i as int])),
        r matches Some(d) ==> d == digit_value(v@[i as int]) && 0 <= d <= 9,
{
    if i < v.len() {
        let n = v[i] as u32;
        if 48 <= n && n <= 57 {
            return Some((n - 48) as i64);
        }
    }
    None
}

fn two_digits_at(v: &Vec<char>, i: usize) -> (r: Option<i64>)
    ensures
        r is Some <==> two_digits(v@, i as int),
        r matches Some(n) ==> n == num2(v@, i as int) && 0 <= n <= 99,
{
    if i >= v.len() || v.len() - i < 2 {
        return None;
    }
    match (digit_at(v, i), digit_at(v, i + 1)) {
        (Some(a), Some(b)) => Some(10 * a + b),
        _ => None,
    }
}

fn char_is(v: &Vec<char>, i: usize, c: char) -> (b: bool)
    ensures
        b == (i < v.len() && v@[i as int] == c),
{
    i < v.len() && v[i] == c
}

fn space_at(v: &Vec<char>, i: usize) -> (b: bool)
    ensures
        b == (i < v.len() && is_space(v@[i as int])),
{
    if i < v.len() {
        let n = v[i] as u32;
        n == 32 || (9 <= n && n <= 13)
    } else {
        false
    }
}

fn skip_sep_exec(v: &Vec<char>, i: usize) -> (r: usize)
    requires
        i <= v.len(),
    ensures
        r as int == skip_date_time_sep(v@, i as int),
{
    let mut k = i;
    while k < v.len() && (space_at(v, k) || v[k] == 'T')
        invariant
            i <= k <= v.len(),
            skip_date_time_sep(v@, k as int) == skip_date_time_sep(v@, i as int),
        decreases v.len() - k,
    {
        k = k + 1;
    }
    k
}

fn skip_spaces_exec(v: &Vec<char>, i: usize) -> (r: usize)
    requires
        i <= v.len(),
    ensures
        r as int == skip_spaces(v@, i as int),
{
    let mut k = i;
    while k < v.len() && space_at(v, k)
        invariant
            i <= k <= v.len(),
            skip_spaces(v@, k as int) == skip_spaces(v@, i as int),
        decreases v.len() - k,
    {
        k = k + 1;
    }
    k
}

fn skip_digits_exec(v: &Vec<char>, i: usize) -> (r: usize)
    requires
        i <= v.len(),
    ensures
        r as int == skip_digits(v@, i as int),
{
    let mut k = i;
    while k < v.len() && digit_at(v, k).is_some()
        invariant
            i <= k <= v.len(),
            skip_digits(v@, k as int) == skip_digits(v@, i as int),
        decreases v.len() - k,
    {
        k = k + 1;
    }
    k
}

/// `days_from_civil` for years 0000–9999 and months 1–12.
pub fn days_from_civil_exec(y: i64, m: i64, d: i64) -> (r: i64)
    requires
        0 <= y <= 9999,
        1 <= m <= 12,
        1 <= d <= 31,
    ensures
        r == days_from_civil(y as int, m as int, d as int),
        -800000 <= r <= 3000000,
{
    // shifted by one era so that every quotient is taken of a non-negative number
    let yy = if m <= 2 { y - 1 } else { y } + 400;
    let era = yy / 400;
    let yoe = yy - era * 400;
    let mp = if m > 2 { m - 3 } else { m + 9 };
    let doy = (153 * mp + 2) / 5 + d - 1;
    let doe = yoe * 365 + yoe / 4 - yoe / 100 + doy;
    let r = (era - 1) * 146097 + doe - 719468;
    proof {
        let yy0: int = if m <= 2 { y - 1 } else { y as int };
        assert(yy0 + 400 == yy);
        assert(yy0 / 400 == era - 1) by {
            assert((yy0 + 400) / 400 == yy0 / 400 + 1) by (nonlinear_arith);
        }
        assert(yy0 - (era - 1) * 400 == yoe);
    }
    r
}

fn time_of_day_exec(v: &Vec<char>, j: usize) -> (r: Option<(i64, usize)>)
    requires
        j <= v.len(),
    ensures
        match time_of_day(v@, j as int) {
            Some((sod, k)) => r matches Some((a, b)) && a == sod && b == k && 0 <= sod <= 90000 && j < k <= v.len(),
            None => r is None,
        },
{
    if v.len() - j < 5 {
        return None;
    }
    let h = match two_digits_at(v, j) {
        Some(h) => h,
        None => return None,
    };
    if !char_is(v, j + 2, ':') {
        return None;
    }
    let mi = match two_digits_at(v, j + 3) {
        Some(mi) => mi,
        None => return None,
    };
    if h > 24 || mi > 59 {
        return None;
    }
    let hm = h * 3600 + mi * 60;
    let k = j + 5;
    if char_is(v, k, ':') {
        match two_digits_at(v, k + 1) {
            Some(sec) => {
                if sec > 59 {
                    return None;
                }
                let e = k + 3;
                let end = if e < v.len() && v.len() - e > 1 && v[e] == '.' && digit_at(v, e + 1).is_some() {
                    proof { lemma_skip_bounds(v@, e + 1); }
                    skip_digits_exec(v, e + 1)
                } else {
                    e
                };
                Some((hm + sec, end))
            },
            None => None,
        }
    } else {
        Some((hm, k))
    }
}

fn zone_offset_exec(v: &Vec<char>, k: usize) -> (r: Option<i64>)
    requires
        k <= v.len(),
    ensures
        match zone_offset(v@, k as int) {
            Some(off) => r == Some(off as i64) && -53940 <= off <= 53940,
            None => r is None,
        },
{
    proof { lemma_skip_bounds(v@, k as int); }
    let z = skip_spaces_exec(v, k);
    if z >= v.len() {
        return Some(0);
    }
    if v[z] == 'Z' || v[z] == 'z' {
        proof { lemma_skip_bounds(v@, z + 1); }
        if skip_spaces_exec(v, z + 1) >= v.len() {
            return Some(0);
        }
        return None;
    }
    if v[z] == '+' || v[z] == '-' {
        let hh = match two_digits_at(v, z + 1) {
            Some(x) => x,
            None => return None,
        };
        if !char_is(v, z + 3, ':') {
            return None;
        }
        let mm = match two_digits_at(v, z + 4) {
            Some(x) => x,
            None => return None,
        };
        if hh > 14 || mm > 59 {
            return None;
        }
        proof { lemma_skip_bounds(v@, z + 6); }
        if skip_spaces_exec(v, z + 6) < v.len() {
            return None;
        }
        let off = hh * 3600 + mm * 60;
        return Some(if v[z] == '+' { off } else { -off });
    }
    None
}

fn instant_at_exec(v: &Vec<char>, j: usize, day: i64) -> (r: Option<i64>)
    requires
        j <= v.len(),
        -800000 <= day <= 3000000,
    ensures
        r matches Some(t) ==> instant_at(v@, j as int, day as int) == Some(t as int),
        r is None ==> instant_at(v@, j as int, day as int) is None,
{
    match time_of_day_exec(v, j) {
        Some((sod, k)) => match zone_offset_exec(v, k) {
            Some(off) => Some(day * 86400 + sod - off),
            None => None,
        },
        None => None,
    }
}

/// The instant a stored timestamp names, in whole seconds since the epoch.
pub fn parse_timestamp(s: &str) -> (r: Option<i64>)
    ensures
        r matches Some(t) ==> timestamp_seconds(s@) == Some(t as int),
        r is None ==> timestamp_seconds(s@) is None,
{
    let v = crate::text::chars_of(s);
    let ghost q = v@;
    let is_date = v.len() >= 10 && digit_at(&v, 0).is_some() && digit_at(&v, 1).is_some()
        && digit_at(&v, 2).is_some() && digit_at(&v, 3).is_some() && v[4] == '-' && v[7] == '-';
    if is_date {
        let y = 1000 * digit_at(&v, 0).unwrap() + 100 * digit_at(&v, 1).unwrap() + 10 * digit_at(&v, 2).unwrap()
            + digit_at(&v, 3).unwrap();
        match (two_digits_at(&v, 5), two_digits_at(&v, 8)) {
            (Some(m), Some(d)) => {
                if 1 <= m && m <= 12 && 1 <= d && d <= 31 {
                    let day = days_from_civil_exec(y, m, d);
                    proof { lemma_skip_bounds(q, 10); }
                    let j = skip_sep_exec(&v, 10);
                    if j >= v.len() {
                        return Some(day * 86400);
                    }
                    return instant_at_exec(&v, j, day);
                }
            },
            _ => {},
        }
    }
    let day2000 = days_from_civil_exec(2000, 1, 1);
    instant_at_exec(&v, 0, day2000)
}

/// Whether `y` is a leap year of the Gregorian calendar.
pub open spec fn is_leap_year(y: int) -> bool {
    y % 4 == 0 && (y % 100 != 0 || y % 400 == 0)
}

/// The day numbering is the Gregorian calendar counted from 1970-01-01:
/// day 0 is 1970-01-01, the days of a month follow one another, the day
/// after February 28 is March 1 except in leap years, where February 29
/// comes between, and every 400 years take 146097 days.
pub proof fn law_day_numbers_follow_the_calendar(y: int, m: int, d: int)
    requires
        1 <= m <= 12,
    ensures
        days_from_civil(1970, 1, 1) == 0,
        days_from_civil(y, m, d + 1) == days_from_civil(y, m, d) + 1,
        days_from_civil(y, 3, 1) == days_from_civil(y, 2, 28) + if is_leap_year(y) { 2int } else { 1int },
        days_from_civil(y + 400, m, d) == days_from_civil(y, m, d) + 146097,
{
    let p = y - 1;
    let era_p = p / 400;
    let yoe_p = p - era_p * 400;
    let era_y = y / 400;
    let yoe_y = y - era_y * 400;
    assert(0 <= yoe_p < 400 && 0 <= yoe_y < 400) by (nonlinear_arith)
        requires
            era_p == p / 400,
            yoe_p == p - era_p * 400,
            era_y == y / 400,
            yoe_y == y - era_y * 400,
    ;
    if yoe_y == 0 {
        assert(era_p == era_y - 1 && yoe_p == 399) by (nonlinear_arith)
            requires
                p == y - 1,
                era_p == p / 400,
                yoe_p == p - era_p * 400,
                era_y == y / 400,
                yoe_y == y - era_y * 400,
                yoe_y == 0,
                0 <= yoe_p < 400,
        ;
        assert(y % 400 == 0 && y % 100 == 0 && y % 4 == 0) by (nonlinear_arith)
            requires
                y == era_y * 400,
        ;
    } else {
        assert(era_p == era_y && yoe_p == yoe_y - 1) by (nonlinear_arith)
            requires
                p == y - 1,
                era_p == p / 400,
                yoe_p == p - era_p * 400,
                era_y == y / 400,
                yoe_y == y - era_y * 400,
                0 < yoe_y < 400,
                0 <= yoe_p < 400,
        ;
        assert(y % 400 != 0) by (nonlinear_arith)
            requires
                y == era_y * 400 + yoe_y,
                0 < yoe_y < 400,
        ;
        assert(y % 4 == yoe_y % 4 && y % 100 == yoe_y % 100) by (nonlinear_arith)
            requires
                y == era_y * 400 + yoe_y,
        ;
    }
    let yy = if m <= 2 { y - 1 } else { y };
    assert((yy + 400) / 400 == yy / 400 + 1) by (nonlinear_arith);
}

} // verus!
