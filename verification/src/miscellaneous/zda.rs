//! `ZDA` — time and date with local zone offset.  The date arrives as
//! separate day, month and four-digit-year parameters.

use vstd::prelude::*;

use crate::base::{Nmea0183Base, plen, ptext};
use crate::errors::{FieldError, parse_failed};
use crate::fields::FieldParse;
use crate::timedate::{LocalTime, date_shift, days_in_month, lemma_time_text_wf, month_length,
    next_day_of, prev_day_of, time_text_val};

verus! {

/// A time of day with a full calendar date, as `ZDA` carries them.
#[derive(Debug, Clone, Copy, PartialEq, Eq, Structural)]
pub struct ZdaTimestamp {
    pub time: LocalTime,
    pub day: u8,
    pub month: u8,
    pub year: u16,
}

/// A typed view over a framed `ZDA` sentence.
#[derive(Debug)]
pub struct Zda {
    base: Nmea0183Base,
}

/// The timestamp the sentence denotes, if all four of its parts do.
pub open spec fn zda_ts_val(b: Nmea0183Base) -> Option<ZdaTimestamp> {
    if plen(b) <= 3 {
        None
    } else {
        match time_text_val(ptext(b, 0)) {
            None => None,
            Some(t) => match <u8 as FieldParse>::parse_text(ptext(b, 1)) {
                None => None,
                Some(day) => if !(1 <= day <= 31) {
                    None
                } else {
                    match <u8 as FieldParse>::parse_text(ptext(b, 2)) {
                        None => None,
                        Some(month) => if !(1 <= month <= 12) {
                            None
                        } else {
                            match <u16 as FieldParse>::parse_text(ptext(b, 3)) {
                                None => None,
                                Some(year) => if day as int > days_in_month(
                                    year as int,
                                    month as int,
                                ) {
                                    None
                                } else {
                                    Some(ZdaTimestamp { time: t, day, month, year })
                                },
                            }
                        },
                    }
                },
            },
        }
    }
}

/// The timestamp moved by a zone offset of `hours` and `minutes`: the
/// time-of-day minutes wrap modulo one day, and the date shifts by the
/// carried days through the calendar.
pub open spec fn zda_local_of(ts: ZdaTimestamp, hours: int, minutes: int) -> ZdaTimestamp {
    let total = (ts.time.hour as int) * 60 + ts.time.minute as int + hours * 60 + minutes;
    let shifted = total + 4320;
    let nm = shifted % 1440;
    let carry = shifted / 1440 - 3;
    let sh = date_shift(ts.year as int, ts.month as int, ts.day as int, carry);
    ZdaTimestamp {
        time: LocalTime {
            hour: (nm / 60) as u8,
            minute: (nm % 60) as u8,
            second: ts.time.second,
            nanosecond: ts.time.nanosecond,
        },
        day: sh.2 as u8,
        month: sh.1 as u8,
        year: sh.0 as u16,
    }
}

impl Zda {
    /// The framed sentence this view reads.
    pub closed spec fn base_spec(self) -> Nmea0183Base {
        self.base
    }

    /// Wraps a framed sentence.
    pub fn new(base: Nmea0183Base) -> (r: Zda)
        ensures
            r.base_spec() == base,
    {
        Zda { base }
    }

    /// UTC time (parameter 0) with day, month and four-digit year
    /// (parameters 1, 2, 3).  A month outside 1..=12, or a day the month
    /// of that year does not have (the four-digit year settles leap
    /// years), fails as unparsable.
    pub fn timestamp(&self) -> (r: Result<ZdaTimestamp, FieldError>)
        ensures
            ({
                let b = self.base_spec();
                if plen(b) <= 3 {
                    r == Err::<ZdaTimestamp, FieldError>(FieldError::MissingField)
                } else {
                    match time_text_val(ptext(b, 0)) {
                        None => parse_failed(r, ptext(b, 0)),
                        Some(t) => match <u8 as FieldParse>::parse_text(ptext(b, 1)) {
                            None => parse_failed(r, ptext(b, 1)),
                            Some(day) => if !(1 <= day <= 31) {
                                r is Err && r->Err_0 is ParseFailure
                                    && r->Err_0->ParseFailure_0@ == ptext(b, 1)
                            } else {
                                match <u8 as FieldParse>::parse_text(ptext(b, 2)) {
                                    None => parse_failed(r, ptext(b, 2)),
                                    Some(month) => if !(1 <= month <= 12) {
                                        r is Err && r->Err_0 is ParseFailure
                                            && r->Err_0->ParseFailure_0@ == ptext(b, 2)
                                    } else {
                                        match <u16 as FieldParse>::parse_text(ptext(b, 3)) {
                                            None => parse_failed(r, ptext(b, 3)),
                                            Some(year) => if day as int > days_in_month(
                                                year as int,
                                                month as int,
                                            ) {
                                                parse_failed(r, ptext(b, 1))
                                            } else {
                                                r == Ok::<ZdaTimestamp, FieldError>(
                                                    ZdaTimestamp { time: t, day, month, year },
                                                )
                                            },
                                        }
                                    },
                                }
                            },
                        },
                    }
                }
            }),
    {
        if self.base.parameters.len() <= 3 {
            return Err(FieldError::MissingField);
        }
        let time = match self.base.naive_time(0) {
            Ok(t) => t,
            Err(e) => {
                return Err(e);
            },
        };
        let day: u8 = match self.base.parameter::<u8>(1) {
            Ok(v) => v,
            Err(e) => {
                return Err(e);
            },
        };
        if day < 1 || day > 31 {
            return Err(FieldError::ParseFailure(self.base.parameters[1].clone()));
        }
        let month: u8 = match self.base.parameter::<u8>(2) {
            Ok(v) => v,
            Err(e) => {
                return Err(e);
            },
        };
        if month < 1 || month > 12 {
            return Err(FieldError::ParseFailure(self.base.parameters[2].clone()));
        }
        let year: u16 = match self.base.parameter::<u16>(3) {
            Ok(v) => v,
            Err(e) => {
                return Err(e);
            },
        };
        if day > month_length(year as u32, month) {
            return Err(FieldError::ParseFailure(self.base.parameters[1].clone()));
        }
        Ok(ZdaTimestamp { time, day, month, year })
    }

    /// The timestamp moved to local time by the zone offset in parameters
    /// 4 (hours) and 5 (minutes), with the date carried through the
    /// calendar.  Zone offsets on the wire lie within half a day
    /// (UTC-12 to UTC+14), so a full day in each field is accepted;
    /// beyond that, and for years at the edges of the representable
    /// range, the offset is refused as unparsable rather than carried
    /// through an unbounded calendar walk.
    pub fn local_time(&self) -> (r: Result<ZdaTimestamp, FieldError>)
        ensures
            ({
                let b = self.base_spec();
                match zda_ts_val(b) {
                    None => r is Err,
                    Some(ts) => if plen(b) <= 5 {
                        r == Err::<ZdaTimestamp, FieldError>(FieldError::MissingField)
                    } else {
                        match <i64 as FieldParse>::parse_text(ptext(b, 4)) {
                            None => parse_failed(r, ptext(b, 4)),
                            Some(hours) => match <i64 as FieldParse>::parse_text(ptext(b, 5)) {
                                None => parse_failed(r, ptext(b, 5)),
                                Some(minutes) => if !(-24 <= hours <= 24) {
                                    r is Err && r->Err_0 is ParseFailure
                                        && r->Err_0->ParseFailure_0@ == ptext(b, 4)
                                } else if !(-1440 <= minutes <= 1440) {
                                    r is Err && r->Err_0 is ParseFailure
                                        && r->Err_0->ParseFailure_0@ == ptext(b, 5)
                                } else if !(1 <= ts.year <= 65533) {
                                    r is Err && r->Err_0 is ParseFailure
                                        && r->Err_0->ParseFailure_0@ == ptext(b, 3)
                                } else {
                                    r == Ok::<ZdaTimestamp, FieldError>(
                                        zda_local_of(ts, hours as int, minutes as int),
                                    )
                                },
                            },
                        }
                    },
                }
            }),
    {
        let ts = match self.timestamp() {
            Ok(t) => t,
            Err(e) => {
                return Err(e);
            },
        };
        if self.base.parameters.len() <= 5 {
            return Err(FieldError::MissingField);
        }
        let hours: i64 = match self.base.parameter::<i64>(4) {
            Ok(v) => v,
            Err(e) => {
                return Err(e);
            },
        };
        let minutes: i64 = match self.base.parameter::<i64>(5) {
            Ok(v) => v,
            Err(e) => {
                return Err(e);
            },
        };
        if hours < -24 || hours > 24 {
            return Err(FieldError::ParseFailure(self.base.parameters[4].clone()));
        }
        if minutes < -1440 || minutes > 1440 {
            return Err(FieldError::ParseFailure(self.base.parameters[5].clone()));
        }
        if ts.year < 1 || ts.year > 65533 {
            return Err(FieldError::ParseFailure(self.base.parameters[3].clone()));
        }
        proof {
            lemma_time_text_wf(ptext(self.base_spec(), 0));
        }
        let total: i64 = (ts.time.hour as i64) * 60 + (ts.time.minute as i64) + hours * 60
            + minutes;
        let shifted: u64 = (total + 4320) as u64;
        let nm: u64 = shifted % 1440;
        let q: u64 = shifted / 1440;
        let carry: i64 = (q as i64) - 3;
        let hour2: u8 = (nm / 60) as u8;
        let minute2: u8 = (nm % 60) as u8;
        let ghost y0: int = ts.year as int;
        let ghost m0: int = ts.month as int;
        let ghost d0: int = ts.day as int;
        let mut y: u32 = ts.year as u32;
        let mut mo: u8 = ts.month;
        let mut da: u8 = ts.day;
        if carry >= 1 {
            let n = next_day_of(y, mo, da);
            y = n.0;
            mo = n.1;
            da = n.2;
            if carry == 2 {
                let n2 = next_day_of(y, mo, da);
                y = n2.0;
                mo = n2.1;
                da = n2.2;
            }
        } else if carry <= -1 {
            let p = prev_day_of(y, mo, da);
            y = p.0;
            mo = p.1;
            da = p.2;
            if carry == -2 {
                let p2 = prev_day_of(y, mo, da);
                y = p2.0;
                mo = p2.1;
                da = p2.2;
            }
        }
        proof {
            let c = carry as int;
            let n1 = crate::timedate::next_day(y0, m0, d0);
            let p1 = crate::timedate::prev_day(y0, m0, d0);
            if c == 1 {
                assert(date_shift(y0, m0, d0, 1) == date_shift(n1.0, n1.1, n1.2, 0));
            } else if c == 2 {
                let n2 = crate::timedate::next_day(n1.0, n1.1, n1.2);
                assert(date_shift(y0, m0, d0, 2) == date_shift(n1.0, n1.1, n1.2, 1));
                assert(date_shift(n1.0, n1.1, n1.2, 1) == date_shift(n2.0, n2.1, n2.2, 0));
            } else if c == -1 {
                assert(date_shift(y0, m0, d0, -1) == date_shift(p1.0, p1.1, p1.2, 0));
            } else if c == -2 {
                let p2 = crate::timedate::prev_day(p1.0, p1.1, p1.2);
                assert(date_shift(y0, m0, d0, -2) == date_shift(p1.0, p1.1, p1.2, -1));
                assert(date_shift(p1.0, p1.1, p1.2, -1) == date_shift(p2.0, p2.1, p2.2, 0));
            }
            assert((y as int, mo as int, da as int) == date_shift(y0, m0, d0, c));
        }
        Ok(
            ZdaTimestamp {
                time: LocalTime {
                    hour: hour2,
                    minute: minute2,
                    second: ts.time.second,
                    nanosecond: ts.time.nanosecond,
                },
                day: da,
                month: mo,
                year: y as u16,
            },
        )
    }
}

} // verus!
