//! The relative/absolute time-expression parser.
//!
//! The grammar accepts, in priority order:
//!
//! 1. a bare literal `tomorrow` (now + 24 h) or `week` (now + 168 h);
//! 2. an absolute date `DD-MM-YYYY` (implying 09:00) or `DD-MM-YYYY_HH:MM`,
//!    taken as a civil time in the fixed reference offset;
//! 3. a composite relative duration: optional `<n>mo`, `<n>d`, `<n>h`,
//!    `<n>m`, `<n>s` components in exactly that order, each unit also
//!    accepted spelled out (`months`, `days`, `hours`, `minutes`,
//!    `seconds` and their singulars), whitespace allowed between a number
//!    and its unit (except for `mo`) and between components, summed into
//!    seconds (one month counts as exactly 30 days) and added to now.
//!
//! A composite that sums to zero seconds is rejected, so the empty string
//! is not a valid time expression.  Additions past the end of the
//! representable range saturate.

use vstd::prelude::*;

use crate::notifier::NotifierError;

verus! {

/// The whitespace characters accepted between duration components.
pub open spec fn is_ws_char(c: char) -> bool {
    c == ' ' || c == '\t' || c == '\n' || c == '\r' || c == '\u{b}' || c == '\u{c}'
}

/// An ASCII decimal digit.
pub open spec fn is_digit_char(c: char) -> bool {
    '0' <= c && c <= '9'
}

/// The numeric value of one decimal digit.
pub open spec fn digit_val(c: char) -> nat {
    (c as int - '0' as int) as nat
}

/// The first position at or after `i` that does not hold a digit.
pub open spec fn digits_end(s: Seq<char>, i: int) -> int
    decreases s.len() - i when 0 <= i <= s.len()
{
    if i < s.len() && is_digit_char(s[i]) {
        digits_end(s, i + 1)
    } else {
        i
    }
}

/// The first position at or after `i` that does not hold whitespace.
pub open spec fn ws_end(s: Seq<char>, i: int) -> int
    decreases s.len() - i when 0 <= i <= s.len()
{
    if i < s.len() && is_ws_char(s[i]) {
        ws_end(s, i + 1)
    } else {
        i
    }
}

/// The value of the digit run `s[i..j)`, read most significant first.
pub open spec fn digits_val(s: Seq<char>, i: int, j: int) -> nat
    decreases j - i when 0 <= i <= j <= s.len()
{
    if i >= j {
        0
    } else {
        digits_val(s, i, j - 1) * 10 + digit_val(s[j - 1])
    }
}

/// Whether the token `t` occurs in `s` starting at position `i`.
pub open spec fn tok_at_spec(s: Seq<char>, i: int, t: Seq<char>) -> bool {
    0 <= i && i + t.len() <= s.len() && s.subrange(i, i + t.len()) == t
}

pub proof fn lemma_digits_end_bounds(s: Seq<char>, i: int)
    requires
        0 <= i <= s.len(),
    ensures
        i <= digits_end(s, i) <= s.len(),
    decreases s.len() - i,
{
    if i < s.len() && is_digit_char(s[i]) {
        lemma_digits_end_bounds(s, i + 1);
    }
}

pub proof fn lemma_ws_end_bounds(s: Seq<char>, i: int)
    requires
        0 <= i <= s.len(),
    ensures
        i <= ws_end(s, i) <= s.len(),
    decreases s.len() - i,
{
    if i < s.len() && is_ws_char(s[i]) {
        lemma_ws_end_bounds(s, i + 1);
    }
}

/// Exec mirror of [`is_digit_char`].
fn is_digit_exec(c: char) -> (b: bool)
    ensures
        b == is_digit_char(c),
{
    '0' <= c && c <= '9'
}

/// Exec mirror of [`is_ws_char`].
fn is_ws_exec(c: char) -> (b: bool)
    ensures
        b == is_ws_char(c),
{
    c == ' ' || c == '\t' || c == '\n' || c == '\r' || c == '\u{b}' || c == '\u{c}'
}

/// Exec mirror of [`digits_end`].
fn digits_end_exec(s: &str, i: usize) -> (j: usize)
    requires
        i <= s@.len(),
    ensures
        j == digits_end(s@, i as int),
        i <= j <= s@.len(),
{
    let n = s.unicode_len();
    let mut j = i;
    while j < n && is_digit_exec(s.get_char(j))
        invariant
            i <= j <= n,
            n == s@.len(),
            digits_end(s@, i as int) == digits_end(s@, j as int),
        decreases n - j,
    {
        j = j + 1;
    }
    j
}

/// Exec mirror of [`ws_end`].
fn ws_end_exec(s: &str, i: usize) -> (j: usize)
    requires
        i <= s@.len(),
    ensures
        j == ws_end(s@, i as int),
        i <= j <= s@.len(),
{
    let n = s.unicode_len();
    let mut j = i;
    while j < n && is_ws_exec(s.get_char(j))
        invariant
            i <= j <= n,
            n == s@.len(),
            ws_end(s@, i as int) == ws_end(s@, j as int),
        decreases n - j,
    {
        j = j + 1;
    }
    j
}

/// Exec mirror of [`tok_at_spec`]: when the token occurs at `i`, the
/// position just past it.
pub(crate) fn tok_at(s: &str, i: usize, t: &str) -> (r: Option<usize>)
    requires
        i <= s@.len(),
    ensures
        match r {
            Some(j) => tok_at_spec(s@, i as int, t@) && j == i + t@.len(),
            None => !tok_at_spec(s@, i as int, t@),
        },
{
    let n = s.unicode_len();
    let tn = t.unicode_len();
    if tn > n - i {
        return None;
    }
    let mut k: usize = 0;
    while k < tn
        invariant
            0 <= k <= tn,
            i + tn <= n,
            n == s@.len(),
            tn == t@.len(),
            forall|m: int| 0 <= m < k ==> s@[i + m] == t@[m],
        decreases tn - k,
    {
        if s.get_char(i + k) != t.get_char(k) {
            proof {
                assert(s@.subrange(i as int, i + t@.len())[k as int] == s@[i + k]);
            }
            return None;
        }
        k = k + 1;
    }
    proof {
        assert(s@.subrange(i as int, i + t@.len()) =~= t@);
    }
    Some(i + tn)
}

/// Whether two strings hold the same characters.
pub(crate) fn str_eq(s: &str, t: &str) -> (r: bool)
    ensures
        r == (s@ == t@),
{
    if s.unicode_len() != t.unicode_len() {
        proof {
            assert(s@ != t@);
        }
        return false;
    }
    match tok_at(s, 0, t) {
        Some(_) => {
            proof {
                assert(s@.subrange(0, s@.len() as int) =~= s@);
            }
            true
        },
        None => {
            proof {
                assert(s@.subrange(0, s@.len() as int) =~= s@);
            }
            false
        },
    }
}

/// Adding a duration to a timestamp sticks at the top of the range.
pub open spec fn sat_add(now: int, offset: nat) -> int {
    if now + offset > i64::MAX {
        i64::MAX as int
    } else {
        now + offset
    }
}

/// The offset a bare literal stands for: a day for `tomorrow`, 168 hours
/// for `week`.
pub open spec fn literal_offset(s: Seq<char>) -> Option<nat> {
    if s == "tomorrow"@ {
        Some(86400 as nat)
    } else if s == "week"@ {
        Some(604800 as nat)
    } else {
        None
    }
}

/// Saturating add of a small offset onto a timestamp.
fn sat_add_exec(now: i64, offset: u64) -> (r: i64)
    ensures
        r == sat_add(now as int, offset as nat),
{
    let sum: i128 = (now as i128) + (offset as i128);
    if sum > (i64::MAX as i128) {
        i64::MAX
    } else {
        sum as i64
    }
}

/// Two digits starting at position `i`.
pub open spec fn two_digits_at(s: Seq<char>, i: int) -> bool {
    is_digit_char(s[i]) && is_digit_char(s[i + 1])
}

/// The value of the two digits starting at position `i`.
pub open spec fn two_val(s: Seq<char>, i: int) -> nat {
    digit_val(s[i]) * 10 + digit_val(s[i + 1])
}

/// Four digits starting at position `i`.
pub open spec fn four_digits_at(s: Seq<char>, i: int) -> bool {
    two_digits_at(s, i) && two_digits_at(s, i + 2)
}

/// The value of the four digits starting at position `i`.
pub open spec fn four_val(s: Seq<char>, i: int) -> nat {
    two_val(s, i) * 100 + two_val(s, i + 2)
}

/// The shape `DD-MM-YYYY`.
pub open spec fn is_date_shape(s: Seq<char>) -> bool {
    &&& s.len() == 10
    &&& two_digits_at(s, 0)
    &&& s[2] == '-'
    &&& two_digits_at(s, 3)
    &&& s[5] == '-'
    &&& four_digits_at(s, 6)
}

/// The shape `DD-MM-YYYY_HH:MM`.
pub open spec fn is_datetime_shape(s: Seq<char>) -> bool {
    &&& s.len() == 16
    &&& two_digits_at(s, 0)
    &&& s[2] == '-'
    &&& two_digits_at(s, 3)
    &&& s[5] == '-'
    &&& four_digits_at(s, 6)
    &&& s[10] == '_'
    &&& two_digits_at(s, 11)
    &&& s[13] == ':'
    &&& two_digits_at(s, 14)
}

pub open spec fn day_of(s: Seq<char>) -> nat {
    two_val(s, 0)
}

pub open spec fn month_of(s: Seq<char>) -> nat {
    two_val(s, 3)
}

pub open spec fn year_of(s: Seq<char>) -> nat {
    four_val(s, 6)
}

pub open spec fn hour_of(s: Seq<char>) -> nat {
    two_val(s, 11)
}

pub open spec fn minute_of(s: Seq<char>) -> nat {
    two_val(s, 14)
}

/// The Gregorian leap-year rule.
pub open spec fn leap_year(y: int) -> bool {
    (y % 4 == 0 && y % 100 != 0) || y % 400 == 0
}

/// Days in a calendar month.
pub open spec fn days_in_month(y: int, m: int) -> int {
    if m == 2 {
        if leap_year(y) {
            29
        } else {
            28
        }
    } else if m == 4 || m == 6 || m == 9 || m == 11 {
        30
    } else {
        31
    }
}

/// The civil date-times the calendar library accepts: a real calendar day
/// in its supported year range, with an in-range wall-clock time.
pub open spec fn valid_civil(y: int, m: int, d: int, hh: int, mi: int) -> bool {
    &&& -9999 <= y <= 9999
    &&& 1 <= m <= 12
    &&& 1 <= d <= days_in_month(y, m)
    &&& 0 <= hh <= 23
    &&& 0 <= mi <= 59
}

/// The timestamp of a valid civil date-time, in seconds from the epoch of
/// the reference offset.  A function of the components alone.
pub uninterp spec fn civil_unix(y: int, m: int, d: int, hh: int, mi: int) -> int;

/// Relies on the time crate: `Month::try_from`, `Date::from_calendar_date`,
/// `Time::from_hms`, `PlainDateTime::new` and
/// `assume_utc().unix_timestamp()`.  Together they accept exactly the valid
/// civil date-times of [`valid_civil`], and the returned timestamp depends
/// on the components alone.
#[verifier::external_body]
fn civil_to_unix(year: i32, month: u8, day: u8, hour: u8, minute: u8) -> (r: Option<i64>)
    ensures
        r is Some <==> valid_civil(
            year as int,
            month as int,
            day as int,
            hour as int,
            minute as int,
        ),
        r matches Some(ts) ==> ts == civil_unix(
            year as int,
            month as int,
            day as int,
            hour as int,
            minute as int,
        ),
{
    let m = match time::Month::try_from(month) {
        Ok(m) => m,
        Err(_) => return None,
    };
    let date = match time::Date::from_calendar_date(year, m, day) {
        Ok(d) => d,
        Err(_) => return None,
    };
    let t = match time::Time::from_hms(hour, minute, 0) {
        Ok(t) => t,
        Err(_) => return None,
    };
    Some(time::PlainDateTime::new(date, t).assume_utc().unix_timestamp())
}

/// What an absolute date form denotes: a date alone implies 09:00; a shape
/// that names no real calendar day denotes nothing.
pub open spec fn date_result(s: Seq<char>) -> Option<int> {
    if is_date_shape(s) && valid_civil(year_of(s) as int, month_of(s) as int, day_of(s) as int, 9, 0) {
        Some(civil_unix(year_of(s) as int, month_of(s) as int, day_of(s) as int, 9, 0))
    } else if is_datetime_shape(s) && valid_civil(
        year_of(s) as int,
        month_of(s) as int,
        day_of(s) as int,
        hour_of(s) as int,
        minute_of(s) as int,
    ) {
        Some(
            civil_unix(
                year_of(s) as int,
                month_of(s) as int,
                day_of(s) as int,
                hour_of(s) as int,
                minute_of(s) as int,
            ),
        )
    } else {
        None
    }
}

/// Read the two digits starting at `i`.
fn two_val_exec(s: &str, i: usize) -> (v: u8)
    requires
        i + 1 < s@.len(),
        s@.len() <= usize::MAX,
        two_digits_at(s@, i as int),
    ensures
        v == two_val(s@, i as int),
        v <= 99,
{
    let a = (s.get_char(i) as u32) - ('0' as u32);
    let b = (s.get_char(i + 1) as u32) - ('0' as u32);
    (a * 10 + b) as u8
}

/// Whether the character at `i` is a digit.
fn digit_at(s: &str, i: usize) -> (b: bool)
    requires
        i < s@.len(),
    ensures
        b == is_digit_char(s@[i as int]),
{
    is_digit_exec(s.get_char(i))
}

/// Parse the absolute date forms `DD-MM-YYYY` and `DD-MM-YYYY_HH:MM`.
pub fn convert_time_date_from_string(text: &str) -> (r: Option<i64>)
    ensures
        date_result(text@) matches Some(ts) ==> r matches Some(v) && v == ts,
        date_result(text@) is None ==> r is None,
{
    let n = text.unicode_len();
    if n != 10 && n != 16 {
        return None;
    }
    let date_shape = digit_at(text, 0) && digit_at(text, 1) && text.get_char(2) == '-' && digit_at(
        text,
        3,
    ) && digit_at(text, 4) && text.get_char(5) == '-' && digit_at(text, 6) && digit_at(text, 7)
        && digit_at(text, 8) && digit_at(text, 9);
    if !date_shape {
        return None;
    }
    let d = two_val_exec(text, 0);
    let m = two_val_exec(text, 3);
    let y_hi = two_val_exec(text, 6);
    let y_lo = two_val_exec(text, 8);
    let y: u32 = (y_hi as u32) * 100 + (y_lo as u32);
    if n == 10 {
        civil_to_unix(y as i32, m, d, 9, 0)
    } else {
        let time_shape = text.get_char(10) == '_' && digit_at(text, 11) && digit_at(text, 12)
            && text.get_char(13) == ':' && digit_at(text, 14) && digit_at(text, 15);
        if !time_shape {
            return None;
        }
        let hh = two_val_exec(text, 11);
        let mi = two_val_exec(text, 14);
        civil_to_unix(y as i32, m, d, hh, mi)
    }
}

/// The position just past whichever of three spellings of one unit word
/// occurs at `i`, longest spelling first.
pub open spec fn first_tok(
    s: Seq<char>,
    i: int,
    long: Seq<char>,
    mid: Seq<char>,
    short: Seq<char>,
) -> Option<int> {
    if tok_at_spec(s, i, long) {
        Some(i + long.len())
    } else if tok_at_spec(s, i, mid) {
        Some(i + mid.len())
    } else if tok_at_spec(s, i, short) {
        Some(i + short.len())
    } else {
        None
    }
}

/// The position just past the unit word of `rank` at `i`: rank 4 is months,
/// 3 days, 2 hours, 1 minutes, 0 seconds.
pub open spec fn unit_end(s: Seq<char>, i: int, rank: int) -> Option<int> {
    if rank == 4 {
        first_tok(s, i, "months"@, "month"@, "mo"@)
    } else if rank == 3 {
        first_tok(s, i, "days"@, "day"@, "d"@)
    } else if rank == 2 {
        first_tok(s, i, "hours"@, "hour"@, "h"@)
    } else if rank == 1 {
        first_tok(s, i, "minutes"@, "minute"@, "m"@)
    } else {
        first_tok(s, i, "seconds"@, "second"@, "s"@)
    }
}

/// Seconds per unit at each rank; a month counts as exactly 30 days.
pub open spec fn rank_secs(rank: int) -> nat {
    if rank == 4 {
        2592000
    } else if rank == 3 {
        86400
    } else if rank == 2 {
        3600
    } else if rank == 1 {
        60
    } else {
        1
    }
}

/// After the digits ending at `j`, the highest-ranked unit word not above
/// `maxrank` that follows: months directly after the digits, the other
/// units after optional whitespace.  Yields the rank and the position just
/// past the unit word.
pub open spec fn choose_rank(s: Seq<char>, j: int, maxrank: int) -> Option<(int, int)> {
    let w = ws_end(s, j);
    if maxrank >= 4 && unit_end(s, j, 4) is Some {
        Some((4, unit_end(s, j, 4).unwrap()))
    } else if maxrank >= 3 && unit_end(s, w, 3) is Some {
        Some((3, unit_end(s, w, 3).unwrap()))
    } else if maxrank >= 2 && unit_end(s, w, 2) is Some {
        Some((2, unit_end(s, w, 2).unwrap()))
    } else if maxrank >= 1 && unit_end(s, w, 1) is Some {
        Some((1, unit_end(s, w, 1).unwrap()))
    } else if maxrank >= 0 && unit_end(s, w, 0) is Some {
        Some((0, unit_end(s, w, 0).unwrap()))
    } else {
        None
    }
}

pub proof fn lemma_unit_end_bounds(s: Seq<char>, i: int, rank: int)
    requires
        0 <= i <= s.len(),
    ensures
        unit_end(s, i, rank) matches Some(e) ==> i < e <= s.len(),
{
    reveal_strlit("months");
    reveal_strlit("month");
    reveal_strlit("mo");
    reveal_strlit("days");
    reveal_strlit("day");
    reveal_strlit("d");
    reveal_strlit("hours");
    reveal_strlit("hour");
    reveal_strlit("h");
    reveal_strlit("minutes");
    reveal_strlit("minute");
    reveal_strlit("m");
    reveal_strlit("seconds");
    reveal_strlit("second");
    reveal_strlit("s");
}

pub proof fn lemma_choose_rank_bounds(s: Seq<char>, j: int, maxrank: int)
    requires
        0 <= j <= s.len(),
    ensures
        choose_rank(s, j, maxrank) matches Some((r, e)) ==> 0 <= r <= 4 && r <= maxrank && j < e
            <= s.len(),
{
    lemma_ws_end_bounds(s, j);
    let w = ws_end(s, j);
    lemma_unit_end_bounds(s, j, 4);
    lemma_unit_end_bounds(s, w, 3);
    lemma_unit_end_bounds(s, w, 2);
    lemma_unit_end_bounds(s, w, 1);
    lemma_unit_end_bounds(s, w, 0);
}

/// The total seconds of the duration components from `i` to the end of the
/// string, in strictly falling rank order starting at `maxrank`, or `None`
/// when the rest of the string is not of that shape.
pub open spec fn parse_comps(s: Seq<char>, i: int, maxrank: int) -> Option<nat>
    decreases s.len() - i
        when 0 <= i <= s.len()
        via parse_comps_dec
{
    let j = digits_end(s, i);
    if j == i {
        None
    } else {
        match choose_rank(s, j, maxrank) {
            None => None,
            Some((r, e)) => {
                let term = digits_val(s, i, j) * rank_secs(r);
                if e == s.len() {
                    Some(term)
                } else {
                    match parse_comps(s, ws_end(s, e), r - 1) {
                        None => None,
                        Some(rest) => Some((term + rest) as nat),
                    }
                }
            },
        }
    }
}

#[via_fn]
proof fn parse_comps_dec(s: Seq<char>, i: int, maxrank: int) {
    lemma_digits_end_bounds(s, i);
    let j = digits_end(s, i);
    lemma_choose_rank_bounds(s, j, maxrank);
    match choose_rank(s, j, maxrank) {
        Some((r, e)) => {
            lemma_ws_end_bounds(s, e);
        },
        None => {},
    }
}

/// The total seconds a whole composite duration string denotes.
pub open spec fn composite_total(s: Seq<char>) -> Option<nat> {
    parse_comps(s, 0, 4)
}

/// Every position before the end of a digit run holds a digit.
pub proof fn lemma_digits_before_end(s: Seq<char>, i: int)
    requires
        0 <= i <= s.len(),
    ensures
        forall|k: int| i <= k < digits_end(s, i) ==> is_digit_char(s[k]),
    decreases s.len() - i,
{
    if i < s.len() && is_digit_char(s[i]) {
        lemma_digits_before_end(s, i + 1);
    }
}

/// Exec mirror of [`rank_secs`].
fn rank_secs_exec(rank: u8) -> (r: u64)
    ensures
        r == rank_secs(rank as int),
        1 <= r <= 2592000,
{
    if rank == 4 {
        2592000
    } else if rank == 3 {
        86400
    } else if rank == 2 {
        3600
    } else if rank == 1 {
        60
    } else {
        1
    }
}

/// Exec mirror of [`unit_end`].
fn unit_end_exec(s: &str, i: usize, rank: u8) -> (r: Option<usize>)
    requires
        i <= s@.len(),
    ensures
        r matches Some(e) ==> unit_end(s@, i as int, rank as int) == Some(e as int) && i < e
            <= s@.len(),
        r is None ==> unit_end(s@, i as int, rank as int) is None,
{
    let long: &str;
    let mid: &str;
    let short: &str;
    if rank == 4 {
        long = "months";
        mid = "month";
        short = "mo";
    } else if rank == 3 {
        long = "days";
        mid = "day";
        short = "d";
    } else if rank == 2 {
        long = "hours";
        mid = "hour";
        short = "h";
    } else if rank == 1 {
        long = "minutes";
        mid = "minute";
        short = "m";
    } else {
        long = "seconds";
        mid = "second";
        short = "s";
    }
    proof {
        lemma_unit_end_bounds(s@, i as int, rank as int);
    }
    match tok_at(s, i, long) {
        Some(e) => Some(e),
        None => match tok_at(s, i, mid) {
            Some(e) => Some(e),
            None => match tok_at(s, i, short) {
                Some(e) => Some(e),
                None => None,
            },
        },
    }
}

/// Exec mirror of [`choose_rank`].
fn choose_rank_exec(s: &str, j: usize, maxrank: u8) -> (r: Option<(u8, usize)>)
    requires
        j <= s@.len(),
    ensures
        r matches Some((rk, e)) ==> choose_rank(s@, j as int, maxrank as int) == Some(
            (rk as int, e as int),
        ) && rk <= 4 && rk <= maxrank && j < e <= s@.len(),
        r is None ==> choose_rank(s@, j as int, maxrank as int) is None,
{
    let w = ws_end_exec(s, j);
    if maxrank >= 4 {
        if let Some(e) = unit_end_exec(s, j, 4) {
            return Some((4, e));
        }
    }
    if maxrank >= 3 {
        if let Some(e) = unit_end_exec(s, w, 3) {
            return Some((3, e));
        }
    }
    if maxrank >= 2 {
        if let Some(e) = unit_end_exec(s, w, 2) {
            return Some((2, e));
        }
    }
    if maxrank >= 1 {
        if let Some(e) = unit_end_exec(s, w, 1) {
            return Some((1, e));
        }
    }
    if let Some(e) = unit_end_exec(s, w, 0) {
        return Some((0, e));
    }
    None
}

/// The value of the digit run `s[i..j)` as a machine word; the flag says
/// the true value is too large for one.
fn digits_val_exec(s: &str, i: usize, j: usize) -> (r: (u64, bool))
    requires
        i <= j <= s@.len(),
        forall|k: int| i <= k < j ==> is_digit_char(s@[k]),
    ensures
        !r.1 ==> r.0 == digits_val(s@, i as int, j as int),
        r.1 ==> digits_val(s@, i as int, j as int) > u64::MAX,
{
    let mut acc: u64 = 0;
    let mut huge = false;
    let mut k = i;
    while k < j
        invariant
            i <= k <= j,
            j <= s@.len(),
            forall|m: int| i <= m < j ==> is_digit_char(s@[m]),
            !huge ==> acc == digits_val(s@, i as int, k as int),
            huge ==> digits_val(s@, i as int, k as int) > u64::MAX,
        decreases j - k,
    {
        let c = s.get_char(k);
        let d = (c as u32) - ('0' as u32);
        if !huge {
            let next: u128 = (acc as u128) * 10 + (d as u128);
            if next > (u64::MAX as u128) {
                huge = true;
            } else {
                acc = next as u64;
            }
        }
        k = k + 1;
    }
    (acc, huge)
}

/// Exec mirror of [`parse_comps`].  The flag says the true total is larger
/// than any one field a machine word can hold.
fn parse_comps_exec(s: &str, i: usize, maxrank: u8) -> (r: Option<(u128, bool)>)
    requires
        i <= s@.len(),
        maxrank <= 4,
    ensures
        parse_comps(s@, i as int, maxrank as int) matches Some(t) ==> r matches Some(p) && (!p.1
            ==> p.0 == t) && (p.1 ==> t > u64::MAX) && p.0 <= (maxrank + 1) * 2592000 * (
        u64::MAX as int),
        parse_comps(s@, i as int, maxrank as int) is None ==> r is None,
    decreases s@.len() - i,
{
    let j = digits_end_exec(s, i);
    if j == i {
        return None;
    }
    proof {
        lemma_digits_before_end(s@, i as int);
    }
    let (val, vhuge) = digits_val_exec(s, i, j);
    match choose_rank_exec(s, j, maxrank) {
        None => None,
        Some((rk, e)) => {
            let secs = rank_secs_exec(rk);
            proof {
                assert(val as int * secs as int <= 2592000 * (u64::MAX as int)) by (nonlinear_arith)
                    requires
                        val <= u64::MAX,
                        secs <= 2592000,
                ;
            }
            let term: u128 = (val as u128) * (secs as u128);
            proof {
                if vhuge {
                    assert(digits_val(s@, i as int, j as int) * rank_secs(rk as int) >= digits_val(
                        s@,
                        i as int,
                        j as int,
                    ) * 1) by (nonlinear_arith)
                        requires
                            rank_secs(rk as int) >= 1,
                    ;
                } else {
                    assert(term == digits_val(s@, i as int, j as int) * rank_secs(rk as int));
                }
            }
            let n = s.unicode_len();
            if e == n {
                return Some((term, vhuge));
            }
            if rk == 0 {
                proof {
                    lemma_ws_end_bounds(s@, e as int);
                    let w2s = ws_end(s@, e as int);
                    lemma_digits_end_bounds(s@, w2s);
                    assert(choose_rank(s@, digits_end(s@, w2s), -1) is None);
                    assert(parse_comps(s@, w2s, -1) is None);
                }
                return None;
            }
            let w2 = ws_end_exec(s, e);
            match parse_comps_exec(s, w2, rk - 1) {
                None => None,
                Some((rest, rhuge)) => Some((term + rest, vhuge || rhuge)),
            }
        },
    }
}

/// Parse a composite relative duration and add it to `now`; a duration of
/// zero seconds is not a valid expression.
pub fn convert_time_offset_from_string(text: &str, now: i64) -> (r: Option<i64>)
    ensures
        (composite_total(text@) matches Some(t) && t > 0) ==> (r matches Some(v) && v == sat_add(
            now as int,
            composite_total(text@).unwrap(),
        )),
        (composite_total(text@) matches Some(t) && t == 0) ==> r is None,
        composite_total(text@) is None ==> r is None,
{
    match parse_comps_exec(text, 0, 4) {
        None => None,
        Some((total, huge)) => {
            if huge {
                Some(i64::MAX)
            } else if total == 0 {
                None
            } else {
                let sum: i128 = (now as i128) + (total as i128);
                if sum > (i64::MAX as i128) {
                    Some(i64::MAX)
                } else {
                    Some(sum as i64)
                }
            }
        },
    }
}

/// Parse the bare literals `tomorrow` and `week` relative to `now`.
pub fn convert_literal_from_string(text: &str, now: i64) -> (r: Option<i64>)
    ensures
        literal_offset(text@) matches Some(off) ==> r matches Some(v) && v == sat_add(
            now as int,
            off,
        ),
        literal_offset(text@) is None ==> r is None,
{
    if str_eq(text, "tomorrow") {
        Some(sat_add_exec(now, 86400))
    } else if str_eq(text, "week") {
        Some(sat_add_exec(now, 604800))
    } else {
        None
    }
}

/// What a whole time expression denotes relative to `now`: the first of the
/// literal, absolute-date and composite-duration forms that matches, or
/// nothing.
pub open spec fn parse_spec(s: Seq<char>, now: int) -> Option<int> {
    if literal_offset(s) is Some {
        Some(sat_add(now, literal_offset(s).unwrap()))
    } else if date_result(s) is Some {
        date_result(s)
    } else {
        match composite_total(s) {
            Some(t) => if t > 0 {
                Some(sat_add(now, t))
            } else {
                None
            },
            None => None,
        }
    }
}

/// Parse a user-supplied time expression relative to `now`, trying the
/// literal, absolute-date and composite-duration forms in that order.
pub fn parse_text(text: &str, now: i64) -> (r: Result<i64, NotifierError>)
    ensures
        parse_spec(text@, now as int) matches Some(t) ==> r matches Ok(v) && v == t,
        parse_spec(text@, now as int) is None ==> r == Err::<i64, NotifierError>(
            NotifierError::InvalidTimeFormat,
        ),
{
    if let Some(t) = convert_literal_from_string(text, now) {
        return Ok(t);
    }
    if let Some(t) = convert_time_date_from_string(text) {
        return Ok(t);
    }
    if let Some(t) = convert_time_offset_from_string(text, now) {
        return Ok(t);
    }
    Err(NotifierError::InvalidTimeFormat)
}

/// The fixed seasonal heuristic for the reference locale's offset from the
/// base clock, in seconds: summer months (March through October) are two
/// hours ahead, the rest one.  Display-only; it never moves an instant.
pub fn seasonal_offset_seconds(month: u8) -> (r: u32)
    ensures
        r == (if 3 <= month <= 10 {
            7200u32
        } else {
            3600u32
        }),
{
    if 3 <= month && month <= 10 {
        7200
    } else {
        3600
    }
}

} // verus!
