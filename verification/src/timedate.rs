//! Time-of-day and calendar-date values as sentences carry them: `HHMMSS`
//! with optional fractional seconds, and `DDMMYY` with a two-digit year.
//! No century inference is performed; century resolution belongs to the
//! caller.

use vstd::prelude::*;

use crate::fields::{all_digits, digits_val, is_digit, lemma_digits_val_nonneg, lemma_pow10_le,
    lemma_pow10_pos, parse_digits, pow10, pow10_u64};

verus! {

/// A time of day, to nanosecond precision.
#[derive(Debug, Clone, Copy, PartialEq, Eq, Structural)]
pub struct LocalTime {
    pub hour: u8,
    pub minute: u8,
    pub second: u8,
    pub nanosecond: u32,
}

impl LocalTime {
    /// Hour below 24, minute and second below 60, nanoseconds below one
    /// second.
    pub open spec fn wf(self) -> bool {
        self.hour < 24 && self.minute < 60 && self.second < 60 && self.nanosecond < 1_000_000_000
    }
}

/// A calendar date exactly as written on the wire: day, month and the raw
/// two-digit year.
#[derive(Debug, Clone, Copy, PartialEq, Eq, Structural)]
pub struct CalendarDate {
    pub day: u8,
    pub month: u8,
    pub year: u8,
}

impl CalendarDate {
    /// Day within 1..=31, month within 1..=12, year the raw two digits.
    pub open spec fn wf(self) -> bool {
        1 <= self.day <= 31 && 1 <= self.month <= 12 && self.year <= 99
    }
}

/// A calendar date paired with a time of day, as sentences that carry both
/// expose them.
#[derive(Debug, Clone, Copy, PartialEq, Eq, Structural)]
pub struct DateTimeValue {
    pub date: CalendarDate,
    pub time: LocalTime,
}

/// The time grammar `HHMMSS[.f..]`: six digits, hour below 24 and minute
/// and second below 60, then optionally a dot and one to nine fraction
/// digits, scaled to nanoseconds.
pub open spec fn time_text_val(s: Seq<char>) -> Option<LocalTime> {
    if s.len() >= 6 && all_digits(s.take(6)) {
        let h = digits_val(s.subrange(0, 2));
        let m = digits_val(s.subrange(2, 4));
        let sec = digits_val(s.subrange(4, 6));
        let tail = s.skip(6);
        if h < 24 && m < 60 && sec < 60 {
            if tail.len() == 0 {
                Some(LocalTime { hour: h as u8, minute: m as u8, second: sec as u8,
                    nanosecond: 0 })
            } else if tail[0] == '.' && 2 <= tail.len() <= 10 && all_digits(tail.drop_first()) {
                Some(
                    LocalTime {
                        hour: h as u8,
                        minute: m as u8,
                        second: sec as u8,
                        nanosecond: (digits_val(tail.drop_first()) * pow10(
                            (10 - tail.len()) as nat,
                        )) as u32,
                    },
                )
            } else {
                None
            }
        } else {
            None
        }
    } else {
        None
    }
}

/// Days a month can have when the century — and with it the leap year —
/// is unknown: February is capped at 29, since either century could make
/// the year leap.
pub open spec fn month_cap(m: int) -> int {
    if m == 2 {
        29
    } else if m == 4 || m == 6 || m == 9 || m == 11 {
        30
    } else {
        31
    }
}

/// The date grammar `DDMMYY`: exactly six digits, month within 1..=12,
/// and a day the month can actually have (February capped at 29 — the
/// two-digit year cannot settle the leap year).
pub open spec fn date_text_val(s: Seq<char>) -> Option<CalendarDate> {
    if s.len() == 6 && all_digits(s) {
        let d = digits_val(s.subrange(0, 2));
        let m = digits_val(s.subrange(2, 4));
        let y = digits_val(s.subrange(4, 6));
        if 1 <= m <= 12 && 1 <= d <= month_cap(m) {
            Some(CalendarDate { day: d as u8, month: m as u8, year: y as u8 })
        } else {
            None
        }
    } else {
        None
    }
}

/// Days a month can have, the century unknown.
pub fn month_cap_of(m: u8) -> (r: u8)
    ensures
        r as int == month_cap(m as int),
{
    if m == 2 {
        29
    } else if m == 4 || m == 6 || m == 9 || m == 11 {
        30
    } else {
        31
    }
}

/// Whether a year (proleptic Gregorian, full four-or-more digits) is a
/// leap year.
pub open spec fn is_leap_year(y: int) -> bool {
    y % 4 == 0 && (y % 100 != 0 || y % 400 == 0)
}

/// Days in a month of a year.
pub open spec fn days_in_month(y: int, m: int) -> int {
    if m == 2 {
        if is_leap_year(y) {
            29
        } else {
            28
        }
    } else if m == 4 || m == 6 || m == 9 || m == 11 {
        30
    } else {
        31
    }
}

/// The calendar day after `(y, m, d)`.
pub open spec fn next_day(y: int, m: int, d: int) -> (int, int, int) {
    if d < days_in_month(y, m) {
        (y, m, d + 1)
    } else if m < 12 {
        (y, m + 1, 1)
    } else {
        (y + 1, 1, 1)
    }
}

/// The calendar day before `(y, m, d)`.
pub open spec fn prev_day(y: int, m: int, d: int) -> (int, int, int) {
    if d > 1 {
        (y, m, d - 1)
    } else if m > 1 {
        (y, m - 1, days_in_month(y, m - 1))
    } else {
        (y - 1, 12, 31)
    }
}

/// The calendar day `k` days away from `(y, m, d)`.
pub open spec fn date_shift(y: int, m: int, d: int, k: int) -> (int, int, int)
    decreases
            (if k >= 0 {
                k
            } else {
                -k
            }),
{
    if k == 0 {
        (y, m, d)
    } else if k > 0 {
        let n = next_day(y, m, d);
        date_shift(n.0, n.1, n.2, k - 1)
    } else {
        let p = prev_day(y, m, d);
        date_shift(p.0, p.1, p.2, k + 1)
    }
}

/// Whether a year is a leap year.
pub fn leap_year(y: u32) -> (r: bool)
    ensures
        r == is_leap_year(y as int),
{
    y % 4 == 0 && (y % 100 != 0 || y % 400 == 0)
}

/// Days in a month of a year.
pub fn month_length(y: u32, m: u8) -> (r: u8)
    ensures
        r as int == days_in_month(y as int, m as int),
{
    if m == 2 {
        if leap_year(y) {
            29
        } else {
            28
        }
    } else if m == 4 || m == 6 || m == 9 || m == 11 {
        30
    } else {
        31
    }
}

/// The calendar day after the given one.
pub fn next_day_of(y: u32, m: u8, d: u8) -> (r: (u32, u8, u8))
    requires
        1 <= m <= 12,
        1 <= d <= 31,
        y < 0xffff_fffeu32,
    ensures
        (r.0 as int, r.1 as int, r.2 as int) == next_day(y as int, m as int, d as int),
        1 <= r.1 <= 12,
        1 <= r.2 <= 31,
        r.0 <= y + 1,
{
    if d < month_length(y, m) {
        (y, m, d + 1)
    } else if m < 12 {
        (y, m + 1, 1)
    } else {
        (y + 1, 1, 1)
    }
}

/// The calendar day before the given one.  At the first day of year zero
/// there is no predecessor in the unsigned range, so the caller keeps out
/// of that corner.
pub fn prev_day_of(y: u32, m: u8, d: u8) -> (r: (u32, u8, u8))
    requires
        1 <= m <= 12,
        1 <= d <= 31,
        y >= 1 || m > 1 || d > 1,
    ensures
        (r.0 as int, r.1 as int, r.2 as int) == prev_day(y as int, m as int, d as int),
        1 <= r.1 <= 12,
        1 <= r.2 <= 31,
        r.0 + 1 >= y,
{
    if d > 1 {
        (y, m, d - 1)
    } else if m > 1 {
        (y, m - 1, month_length(y, m - 1))
    } else {
        (y - 1, 12, 31)
    }
}

/// Nanoseconds since midnight that a time of day denotes.
pub open spec fn time_nanos(t: LocalTime) -> int {
    ((t.hour as int) * 3600 + (t.minute as int) * 60 + t.second as int) * 1_000_000_000
        + t.nanosecond as int
}

/// Nanoseconds since midnight.
pub fn time_to_nanos(t: &LocalTime) -> (r: u64)
    requires
        t.wf(),
    ensures
        r as int == time_nanos(*t),
{
    ((t.hour as u64) * 3600 + (t.minute as u64) * 60 + (t.second as u64)) * 1_000_000_000
        + (t.nanosecond as u64)
}

/// A digit string denotes less than ten to its length.
pub proof fn lemma_digits_val_bound(s: Seq<char>)
    requires
        all_digits(s),
    ensures
        0 <= digits_val(s) < pow10(s.len()),
    decreases s.len(),
{
    if s.len() == 0 {
    } else {
        let t = s.drop_last();
        assert(forall|i: int| 0 <= i < t.len() ==> t[i] == s[i]);
        lemma_digits_val_bound(t);
        lemma_pow10_pos(t.len());
        assert(is_digit(s[s.len() - 1]));
    }
}

/// Powers of ten multiply by adding exponents.
pub proof fn lemma_pow10_add(a: nat, b: nat)
    ensures
        pow10(a + b) == pow10(a) * pow10(b),
    decreases a,
{
    if a == 0 {
    } else {
        lemma_pow10_add((a - 1) as nat, b);
        assert(pow10(a + b) == 10 * pow10((a - 1) as nat + b));
        assert(10 * (pow10((a - 1) as nat) * pow10(b)) == (10 * pow10((a - 1) as nat)) * pow10(
            b,
        )) by (nonlinear_arith);
    }
}

/// A value the time grammar accepts is well-formed.
pub proof fn lemma_time_text_wf(s: Seq<char>)
    requires
        time_text_val(s) is Some,
    ensures
        time_text_val(s)->Some_0.wf(),
{
    let tail = s.skip(6);
    let t = time_text_val(s)->Some_0;
    assert(all_digits(s.subrange(0, 2))) by {
        assert(forall|i: int| 0 <= i < 2 ==> s.subrange(0, 2)[i] == s.take(6)[i]);
    }
    assert(all_digits(s.subrange(2, 4))) by {
        assert(forall|i: int| 0 <= i < 2 ==> s.subrange(2, 4)[i] == s.take(6)[i + 2]);
    }
    assert(all_digits(s.subrange(4, 6))) by {
        assert(forall|i: int| 0 <= i < 2 ==> s.subrange(4, 6)[i] == s.take(6)[i + 4]);
    }
    lemma_digits_val_nonneg(s.subrange(0, 2));
    lemma_digits_val_nonneg(s.subrange(2, 4));
    lemma_digits_val_nonneg(s.subrange(4, 6));
    assert(t.hour < 24 && t.minute < 60 && t.second < 60);
    if tail.len() >= 1 {
        let frac = tail.drop_first();
        assert(tail[0] == '.' && 2 <= tail.len() <= 10 && all_digits(frac));
        lemma_digits_val_bound(frac);
        lemma_nanos_bound(frac.len(), digits_val(frac));
        assert(t.nanosecond == (digits_val(frac) * pow10((10 - tail.len()) as nat)) as u32);
        assert(t.nanosecond < 1_000_000_000);
    } else {
        assert(t.nanosecond == 0);
    }
}

/// A fraction of at most nine digits scales to below one second of
/// nanoseconds.
proof fn lemma_nanos_bound(k: nat, v: int)
    requires
        1 <= k <= 9,
        0 <= v < pow10(k),
    ensures
        0 <= v * pow10((9 - k) as nat) < 1_000_000_000,
{
    lemma_pow10_add(k, (9 - k) as nat);
    lemma_pow10_pos((9 - k) as nat);
    lemma_pow10_nine();
    assert(v * pow10((9 - k) as nat) <= (pow10(k) - 1) * pow10((9 - k) as nat)) by (
    nonlinear_arith)
        requires
            v <= pow10(k) - 1,
            pow10((9 - k) as nat) >= 1,
    ;
    assert((pow10(k) - 1) * pow10((9 - k) as nat) == pow10(k) * pow10((9 - k) as nat) - pow10(
        (9 - k) as nat,
    )) by (nonlinear_arith);
    assert(v * pow10((9 - k) as nat) >= 0) by (nonlinear_arith)
        requires
            v >= 0,
            pow10((9 - k) as nat) >= 1,
    ;
}

/// Ten to the ninth, spelled out.
pub proof fn lemma_pow10_nine()
    ensures
        pow10(9) == 1_000_000_000,
{
    reveal_with_fuel(pow10, 10);
}

/// A value the date grammar accepts is well-formed.
pub proof fn lemma_date_text_wf(s: Seq<char>)
    requires
        date_text_val(s) is Some,
    ensures
        date_text_val(s)->Some_0.wf(),
{
    assert(forall|i: int| 0 <= i < s.subrange(4, 6).len() ==> s.subrange(4, 6)[i] == s[4 + i]);
    lemma_digits_val_bound(s.subrange(4, 6));
    assert(pow10(2) == 100) by {
        reveal_with_fuel(pow10, 3);
    }
}

/// Time text, exactly as [`time_text_val`] describes it.
pub fn parse_time_str(s: &str) -> (r: Option<LocalTime>)
    ensures
        r == time_text_val(s@),
{
    let len: usize = s.unicode_len();
    if len < 6 {
        return None;
    }
    let h = match parse_digits(s.substring_char(0, 2), 99) {
        Some(v) => v,
        None => {
            proof {
                lemma_not_all_digits(s@, 0, 2);
            }
            return None;
        },
    };
    let m = match parse_digits(s.substring_char(2, 4), 99) {
        Some(v) => v,
        None => {
            proof {
                lemma_not_all_digits(s@, 2, 4);
            }
            return None;
        },
    };
    let sec = match parse_digits(s.substring_char(4, 6), 99) {
        Some(v) => v,
        None => {
            proof {
                lemma_not_all_digits(s@, 4, 6);
            }
            return None;
        },
    };
    proof {
        lemma_take_six_digits(s@);
    }
    if h >= 24 || m >= 60 || sec >= 60 {
        return None;
    }
    let nanos: u32;
    if len == 6 {
        nanos = 0;
        proof {
            assert(s@.skip(6).len() == 0);
        }
    } else {
        if s.get_char(6) != '.' || len > 16 || len == 7 {
            return None;
        }
        let frac = s.substring_char(7, len);
        proof {
            assert(s@.subrange(7, len as int) =~= s@.skip(6).drop_first());
        }
        match parse_digits(frac, 999_999_999) {
            Some(v) => {
                proof {
                    lemma_digits_val_bound(frac@);
                    lemma_nanos_bound(frac@.len(), digits_val(frac@));
                }
                let p = pow10_u64((16 - len) as u32);
                nanos = ((v * p) as u32);
            },
            None => {
                proof {
                    if all_digits(frac@) {
                        lemma_digits_val_bound(frac@);
                        lemma_pow10_nine();
                        lemma_pow10_le(frac@.len(), 9);
                    }
                }
                return None;
            },
        }
    }
    Some(LocalTime { hour: h as u8, minute: m as u8, second: sec as u8, nanosecond: nanos })
}

/// Date text, exactly as [`date_text_val`] describes it.
pub fn parse_date_str(s: &str) -> (r: Option<CalendarDate>)
    ensures
        r == date_text_val(s@),
{
    let len: usize = s.unicode_len();
    if len != 6 {
        return None;
    }
    let d = match parse_digits(s.substring_char(0, 2), 99) {
        Some(v) => v,
        None => {
            proof {
                lemma_not_all_digits(s@, 0, 2);
            }
            return None;
        },
    };
    let m = match parse_digits(s.substring_char(2, 4), 99) {
        Some(v) => v,
        None => {
            proof {
                lemma_not_all_digits(s@, 2, 4);
            }
            return None;
        },
    };
    let y = match parse_digits(s.substring_char(4, 6), 99) {
        Some(v) => v,
        None => {
            proof {
                lemma_not_all_digits(s@, 4, 6);
            }
            return None;
        },
    };
    proof {
        assert(all_digits(s@)) by {
            assert(forall|i: int| 0 <= i < 2 ==> s@[i] == s@.subrange(0, 2)[i]);
            assert(forall|i: int| 2 <= i < 4 ==> s@[i] == s@.subrange(2, 4)[i - 2]);
            assert(forall|i: int| 4 <= i < 6 ==> s@[i] == s@.subrange(4, 6)[i - 4]);
        }
    }
    if m < 1 || m > 12 || d < 1 || d > month_cap_of(m as u8) as u64 {
        return None;
    }
    Some(CalendarDate { day: d as u8, month: m as u8, year: y as u8 })
}

/// When a two-digit slice refuses to parse below 100, it holds a non-digit,
/// so neither the first six characters nor (for the date grammar) all six
/// are digits.
proof fn lemma_not_all_digits(s: Seq<char>, a: int, b: int)
    requires
        0 <= a < b <= 6 <= s.len(),
        b - a == 2,
        !all_digits(s.subrange(a, b)) || digits_val(s.subrange(a, b)) > 99,
    ensures
        !all_digits(s.take(6)),
        s.len() == 6 ==> !all_digits(s),
{
    let sub = s.subrange(a, b);
    if all_digits(sub) {
        lemma_digits_val_bound(sub);
        assert(pow10(2) == 100) by {
            reveal_with_fuel(pow10, 3);
        }
    }
    let k = choose|i: int| 0 <= i < sub.len() && !is_digit(sub[i]);
    assert(sub[k] == s.take(6)[a + k]);
    if s.len() == 6 {
        assert(sub[k] == s[a + k]);
    }
}

/// Six leading digit characters, assembled from the three two-digit slices.
proof fn lemma_take_six_digits(s: Seq<char>)
    requires
        s.len() >= 6,
        all_digits(s.subrange(0, 2)),
        all_digits(s.subrange(2, 4)),
        all_digits(s.subrange(4, 6)),
    ensures
        all_digits(s.take(6)),
{
    let t = s.take(6);
    assert(forall|i: int| 0 <= i < 6 ==> is_digit(#[trigger] t[i])) by {
        assert(forall|i: int| 0 <= i < 2 ==> t[i] == s.subrange(0, 2)[i]);
        assert(forall|i: int| 2 <= i < 4 ==> t[i] == s.subrange(2, 4)[i - 2]);
        assert(forall|i: int| 4 <= i < 6 ==> t[i] == s.subrange(4, 6)[i - 4]);
    }
}

} // verus!
