//! The framed sentence: sender, message identifier, ordered parameter list
//! and checksum byte, together with checksum computation and validation.

use vstd::prelude::*;

use crate::errors::{FieldError, FrameError};
use crate::fields::{Decimal, FieldParse, dec_neg, decimal_text_val};
use crate::geo::{GeoPosition, coord_den, coord_from, coord_num};
use crate::rational::Rational;
use crate::timedate::{CalendarDate, DateTimeValue, LocalTime, date_text_val, lemma_date_text_wf,
    lemma_time_text_wf, parse_date_str, parse_time_str, time_text_val};
use crate::wire::{char_byte, checksum_of, find_last, hex_digit_val, hex_upper, is_wsp, join_text,
    lemma_find_last_props, lemma_split_step, lemma_split_text_len, lemma_split_whole,
    lemma_trim_end_at, lemma_trim_start_at, lemma_join_push, lemma_xor_assoc,
    lemma_xor_chars_push, lemma_xor_fields_push, lemma_xor_zero, parse_parts, serialize_parts,
    split_text, trim_text, wire_text, xor_chars, xor_fields};

verus! {

/// A parameter read as an unsigned byte.
pub type U8Error = Result<u8, FieldError>;

/// A parameter read as an unsigned machine word.
pub type UsizeError = Result<usize, FieldError>;

/// A parameter read as an exact decimal number.
pub type DecimalError = Result<Decimal, FieldError>;

/// A parameter read as a time of day.
pub type NaiveTimeError = Result<LocalTime, FieldError>;

/// A parameter read as a calendar date.
pub type NaiveDateError = Result<CalendarDate, FieldError>;

/// A pair of parameters read as a date with a time of day.
pub type NaiveDateTimeError = Result<DateTimeValue, FieldError>;

/// Four parameters read as a geographic position.
pub type PositionError = Result<GeoPosition, FieldError>;

/// Knots per kilometer-per-hour, as the fraction `num / den` (0.539957).
pub const KPH_TO_KNOTS_NUM: u64 = 539_957;

pub const KPH_TO_KNOTS_DEN: u64 = 1_000_000;

/// Knots per mile-per-hour, as the fraction `num / den` (0.868976).
pub const MPH_TO_KNOTS_NUM: u64 = 868_976;

pub const MPH_TO_KNOTS_DEN: u64 = 1_000_000;

/// Kilometers-per-hour per mile-per-hour, as the fraction `num / den`
/// (1.60934).
pub const KPH_TO_MPH_NUM: u64 = 160_934;

pub const KPH_TO_MPH_DEN: u64 = 100_000;

/// The text of parameter `n`.
pub open spec fn ptext(b: Nmea0183Base, n: int) -> Seq<char> {
    b.parameters@[n]@
}

/// How many parameters `b` carries.
pub open spec fn plen(b: Nmea0183Base) -> int {
    b.parameters@.len() as int
}

/// Whether parameter `n` exists and is exactly the one character `c`.
pub open spec fn pis(b: Nmea0183Base, n: int, c: char) -> bool {
    n < plen(b) && ptext(b, n) == seq![c]
}

/// What reading parameter `n` of `b` as a decimal and scaling it by the
/// fixed fraction `pnum / pden` yields: the exact rational
/// `value * pnum / pden` on success.
pub open spec fn scaled_param_spec(
    b: Nmea0183Base,
    n: int,
    pnum: int,
    pden: int,
    r: Result<Rational, FieldError>,
) -> bool {
    &&& n >= plen(b) ==> r == Err::<Rational, FieldError>(FieldError::MissingField)
    &&& 0 <= n < plen(b) ==> match decimal_text_val(ptext(b, n)) {
        Some(v) => {
            &&& r is Ok
            &&& r->Ok_0.num == v.num() * pnum
            &&& r->Ok_0.den == v.den() * pden
            &&& r->Ok_0.wf()
        },
        None => {
            &&& r is Err
            &&& r->Err_0 is ParseFailure
            &&& r->Err_0->ParseFailure_0@ == ptext(b, n)
        },
    }
}

/// What an accessor over the leading tagged pairs yields: the decimal
/// before whichever of the two unit slots (1 and 3) carries the wanted
/// letter, `MissingField` where the probed slots run past the end, a
/// failure carrying the first unit text where both slots carry other
/// letters.
pub open spec fn tagged_pair_spec(
    b: Nmea0183Base,
    letter: char,
    r: Result<Decimal, FieldError>,
) -> bool {
    if pis(b, 1, letter) {
        param_spec::<Decimal>(b, 0, r)
    } else if pis(b, 3, letter) {
        param_spec::<Decimal>(b, 2, r)
    } else if plen(b) <= 3 {
        r == Err::<Decimal, FieldError>(FieldError::MissingField)
    } else {
        r is Err && r->Err_0 is ParseFailure && r->Err_0->ParseFailure_0@ == ptext(b, 1)
    }
}

/// Like [`tagged_pair_spec`], with the two value/unit pairs rooted at
/// slot `i`: the decimal before whichever of the two unit slots (`i + 1`
/// and `i + 3`) carries the wanted letter.
pub open spec fn tagged_at_spec(
    b: Nmea0183Base,
    i: int,
    letter: char,
    r: Result<Decimal, FieldError>,
) -> bool {
    if pis(b, i + 1, letter) {
        param_spec::<Decimal>(b, i, r)
    } else if pis(b, i + 3, letter) {
        param_spec::<Decimal>(b, i + 2, r)
    } else if plen(b) <= i + 3 {
        r == Err::<Decimal, FieldError>(FieldError::MissingField)
    } else {
        r is Err && r->Err_0 is ParseFailure && r->Err_0->ParseFailure_0@ == ptext(b, i + 1)
    }
}

/// What a left/right-signed direction read yields: the decimal at slot 0,
/// negated when slot 1 reads `L`, as written when it reads `R`, a failure
/// carrying the tag otherwise.
pub open spec fn lr_direction_spec(b: Nmea0183Base, r: Result<Decimal, FieldError>) -> bool {
    if plen(b) <= 1 {
        r == Err::<Decimal, FieldError>(FieldError::MissingField)
    } else if ptext(b, 1) == seq!['L'] {
        match decimal_text_val(ptext(b, 0)) {
            Some(v) => r == Ok::<Decimal, FieldError>(dec_neg(v)),
            None => r is Err && r->Err_0 is ParseFailure && r->Err_0->ParseFailure_0@ == ptext(
                b,
                0,
            ),
        }
    } else if ptext(b, 1) == seq!['R'] {
        param_spec::<Decimal>(b, 0, r)
    } else {
        r is Err && r->Err_0 is ParseFailure && r->Err_0->ParseFailure_0@ == ptext(b, 1)
    }
}

/// What reading parameter `n` of `b` as a `T` yields: `MissingField` at or
/// past the end of the parameter list, the denoted value where `T`'s
/// grammar accepts the text, `ParseFailure` carrying the raw text where it
/// refuses.
pub open spec fn param_spec<T: FieldParse>(
    b: Nmea0183Base,
    n: int,
    r: Result<T, FieldError>,
) -> bool {
    &&& n >= b.parameters@.len() ==> r == Err::<T, FieldError>(FieldError::MissingField)
    &&& 0 <= n < b.parameters@.len() ==> match T::parse_text(b.parameters@[n]@) {
        Some(v) => r == Ok::<T, FieldError>(v),
        None => {
            &&& r is Err
            &&& r->Err_0 is ParseFailure
            &&& r->Err_0->ParseFailure_0@ == b.parameters@[n]@
        },
    }
}

/// What reading parameter `n` of `b` as a time of day yields.
pub open spec fn time_param_spec(b: Nmea0183Base, n: int, r: Result<LocalTime, FieldError>) -> bool {
    &&& n >= b.parameters@.len() ==> r == Err::<LocalTime, FieldError>(FieldError::MissingField)
    &&& 0 <= n < b.parameters@.len() ==> match time_text_val(b.parameters@[n]@) {
        Some(t) => r == Ok::<LocalTime, FieldError>(t) && t.wf(),
        None => {
            &&& r is Err
            &&& r->Err_0 is ParseFailure
            &&& r->Err_0->ParseFailure_0@ == b.parameters@[n]@
        },
    }
}

/// What reading parameter `n` of `b` as a calendar date yields.
pub open spec fn date_param_spec(
    b: Nmea0183Base,
    n: int,
    r: Result<CalendarDate, FieldError>,
) -> bool {
    &&& n >= b.parameters@.len() ==> r == Err::<CalendarDate, FieldError>(FieldError::MissingField)
    &&& 0 <= n < b.parameters@.len() ==> match date_text_val(b.parameters@[n]@) {
        Some(d) => r == Ok::<CalendarDate, FieldError>(d) && d.wf(),
        None => {
            &&& r is Err
            &&& r->Err_0 is ParseFailure
            &&& r->Err_0->ParseFailure_0@ == b.parameters@[n]@
        },
    }
}

/// What reading four consecutive parameters of `b` from `n` as a
/// geographic position yields.
pub open spec fn position_param_spec(
    b: Nmea0183Base,
    n: int,
    r: Result<GeoPosition, FieldError>,
) -> bool {
    &&& n + 3 >= b.parameters@.len() ==> r == Err::<GeoPosition, FieldError>(
        FieldError::MissingField,
    )
    &&& 0 <= n && n + 3 < b.parameters@.len() ==> {
        let lat_txt = b.parameters@[n]@;
        let lat_hem = b.parameters@[n + 1]@;
        let lon_txt = b.parameters@[n + 2]@;
        let lon_hem = b.parameters@[n + 3]@;
        match decimal_text_val(lat_txt) {
            None => r is Err && r->Err_0 is ParseFailure && r->Err_0->ParseFailure_0@ == lat_txt,
            Some(latv) => if lat_hem != seq!['N'] && lat_hem != seq!['S'] {
                r is Err && r->Err_0 is ParseFailure && r->Err_0->ParseFailure_0@ == lat_hem
            } else {
                match decimal_text_val(lon_txt) {
                    None => r is Err && r->Err_0 is ParseFailure && r->Err_0->ParseFailure_0@
                        == lon_txt,
                    Some(lonv) => if lon_hem != seq!['E'] && lon_hem != seq!['W'] {
                        r is Err && r->Err_0 is ParseFailure && r->Err_0->ParseFailure_0@
                            == lon_hem
                    } else {
                        &&& r is Ok
                        &&& r->Ok_0.latitude.num == coord_num(latv, lat_hem == seq!['S'])
                        &&& r->Ok_0.latitude.den == coord_den(latv)
                        &&& r->Ok_0.longitude.num == coord_num(lonv, lon_hem == seq!['W'])
                        &&& r->Ok_0.longitude.den == coord_den(lonv)
                        &&& r->Ok_0.wf()
                    },
                }
            },
        }
    }
}

/// A sentence split into its structural parts.  `checksum` is the byte stated
/// on the wire after `*`; a value of zero is treated as "not yet computed".
#[derive(Debug, Clone)]
pub struct Nmea0183Base {
    pub sender: String,
    pub message: String,
    pub parameters: Vec<String>,
    pub checksum: u8,
}

impl Nmea0183Base {
    /// An empty sentence with an unstamped checksum.
    pub fn new() -> (r: Nmea0183Base)
        ensures
            r.sender@ == Seq::<char>::empty(),
            r.message@ == Seq::<char>::empty(),
            r.parameters.deep_view() == Seq::<Seq<char>>::empty(),
            r.checksum == 0,
    {
        let r = Nmea0183Base {
            sender: String::new(),
            message: String::new(),
            parameters: Vec::new(),
            checksum: 0,
        };
        proof {
            assert(r.parameters.deep_view() =~= Seq::<Seq<char>>::empty());
        }
        r
    }

    /// XOR-folds every byte of the sender, the message identifier and each
    /// parameter, in order.  Total; delimiters contribute nothing.
    pub fn calculate_checksum(&self) -> (c: u8)
        ensures
            c == checksum_of(self.sender@, self.message@, self.parameters.deep_view()),
    {
        let ghost all: Seq<Seq<char>> = self.parameters.deep_view();
        let mut acc: u8 = xor_str(0, self.sender.as_str());
        proof {
            lemma_xor_zero(xor_chars(self.sender@));
        }
        acc = xor_str(acc, self.message.as_str());
        let ghost pre: u8 = acc;
        let mut i: usize = 0;
        let n: usize = self.parameters.len();
        proof {
            lemma_xor_zero(pre);
        }
        while i < n
            invariant
                i <= n,
                n == self.parameters.len(),
                all == self.parameters.deep_view(),
                pre == xor_chars(self.sender@) ^ xor_chars(self.message@),
                acc == pre ^ xor_fields(all.take(i as int)),
            decreases n - i,
        {
            proof {
                lemma_xor_fields_push(all.take(i as int), all[i as int]);
                assert(all.take(i as int).push(all[i as int]) =~= all.take(i + 1));
                lemma_xor_assoc(pre, xor_fields(all.take(i as int)), xor_chars(all[i as int]));
            }
            acc = xor_str(acc, self.parameters[i].as_str());
            i = i + 1;
        }
        proof {
            assert(all.take(n as int) =~= all);
        }
        acc
    }

    /// Frames one raw line: trims whitespace, splits on the last `*`,
    /// comma-splits the payload, takes the first three characters of the
    /// introducer as the sender and the remainder as the message identifier,
    /// and reads the two-digit hexadecimal checksum.  Returns exactly what
    /// [`parse_parts`] ascribes to the line.
    pub fn from_string(line: &String) -> (r: Result<Nmea0183Base, FrameError>)
        ensures
            match r {
                Ok(b) => {
                    &&& parse_parts(line@) is Ok
                    &&& b.sender@ == parse_parts(line@)->Ok_0.0
                    &&& b.message@ == parse_parts(line@)->Ok_0.1
                    &&& b.parameters.deep_view() == parse_parts(line@)->Ok_0.2
                    &&& b.checksum == parse_parts(line@)->Ok_0.3
                },
                Err(e) => parse_parts(line@) == Err::<
                    (Seq<char>, Seq<char>, Seq<Seq<char>>, u8),
                    FrameError,
                >(e),
            },
    {
        let t = trim_str(line.as_str());
        let tlen: usize = t.unicode_len();
        match find_last_star(t) {
            None => Err(FrameError::MissingChecksum),
            Some(star) => {
                proof {
                    lemma_find_last_props(t@, '*');
                }
                let payload = trim_str(t.substring_char(0, star));
                proof {
                    assert(t@.subrange(0, star as int) =~= t@.take(star as int));
                }
                let cstext = t.substring_char(star + 1, tlen);
                proof {
                    assert(t@.subrange(star + 1, tlen as int) =~= t@.skip(star + 1));
                }
                let plen: usize = payload.unicode_len();
                if plen == 0 {
                    Err(FrameError::Empty)
                } else {
                    let fields = split_str(payload);
                    proof {
                        lemma_split_text_len(payload@, ',');
                    }
                    let intro_len: usize = fields[0].as_str().unicode_len();
                    if intro_len < 3 {
                        Err(FrameError::IntroducerTooShort)
                    } else {
                        let cslen: usize = cstext.unicode_len();
                        if cslen != 2 {
                            Err(FrameError::InvalidChecksumFormat)
                        } else {
                            let h = hex_val(cstext.get_char(0));
                            let l = hex_val(cstext.get_char(1));
                            match (h, l) {
                                (Some(hv), Some(lv)) => {
                                    let cs: u8 = hv * 16 + lv;
                                    let intro = &fields[0];
                                    let sender = String::from_str(
                                        intro.as_str().substring_char(0, 3),
                                    );
                                    let message = String::from_str(
                                        intro.as_str().substring_char(3, intro_len),
                                    );
                                    let ghost fields_dv = fields.deep_view();
                                    let mut params = fields;
                                    let _ = params.remove(0);
                                    proof {
                                        assert(params.deep_view() =~= fields_dv.drop_first());
                                        assert(sender@ =~= fields_dv[0].take(3));
                                        assert(message@ =~= fields_dv[0].skip(3));
                                    }
                                    Ok(Nmea0183Base {
                                        sender,
                                        message,
                                        parameters: params,
                                        checksum: cs,
                                    })
                                },
                                _ => Err(FrameError::InvalidChecksumFormat),
                            }
                        }
                    }
                }
            },
        }
    }

    /// Serializes the sentence back to its canonical wire line when its
    /// checksum is right; stamps a freshly computed checksum first when none
    /// was stamped yet (`checksum == 0`); refuses (`None`) when the stated
    /// checksum is wrong.
    pub fn to_string(&self) -> (r: Option<String>)
        ensures
            match r {
                Some(s) => serialize_parts(
                    self.sender@,
                    self.message@,
                    self.parameters.deep_view(),
                    self.checksum,
                ) == Some(s@),
                None => serialize_parts(
                    self.sender@,
                    self.message@,
                    self.parameters.deep_view(),
                    self.checksum,
                ) is None,
            },
    {
        let computed = self.calculate_checksum();
        let cs: u8;
        if self.checksum == computed {
            cs = self.checksum;
        } else if self.checksum == 0 {
            cs = computed;
        } else {
            return None;
        }
        let mut out = String::new();
        out.append(self.sender.as_str());
        out.append(self.message.as_str());
        let ghost intro = self.sender@ + self.message@;
        let ghost allp = self.parameters.deep_view();
        proof {
            assert(seq![intro] + allp.take(0) =~= seq![intro]);
            assert(out@ =~= intro);
        }
        let mut i: usize = 0;
        let n: usize = self.parameters.len();
        while i < n
            invariant
                i <= n,
                n == self.parameters.len(),
                allp == self.parameters.deep_view(),
                out@ == join_text(seq![intro] + allp.take(i as int), ','),
            decreases n - i,
        {
            out.append(",");
            out.append(self.parameters[i].as_str());
            proof {
                reveal_strlit(",");
                assert(","@ =~= seq![',']);
                lemma_join_push(seq![intro] + allp.take(i as int), ',', allp[i as int]);
                assert((seq![intro] + allp.take(i as int)).push(allp[i as int]) =~= seq![intro]
                    + allp.take(i + 1));
                assert((join_text(seq![intro] + allp.take(i as int), ',') + seq![','])
                    + allp[i as int] =~= join_text(seq![intro] + allp.take(i as int), ',')
                    + seq![','] + allp[i as int]);
            }
            i = i + 1;
        }
        proof {
            assert(cs / 16 < 16 && cs % 16 < 16) by (bit_vector);
        }
        out.append("*");
        let hi = hex_upper_str(cs / 16);
        out.append(hi);
        let lo = hex_upper_str(cs % 16);
        out.append(lo);
        proof {
            reveal_strlit("*");
            assert("*"@ =~= seq!['*']);
            assert(allp.take(n as int) =~= allp);
            assert(out@ =~= wire_text(self.sender@, self.message@, allp, cs));
        }
        Some(out)
    }

    /// Reads parameter `n` as a `T`.  An index at or past the end of the
    /// parameter list fails with `MissingField`, whatever `T`; text that
    /// `T`'s grammar refuses fails with `ParseFailure` carrying the raw
    /// text; otherwise the denoted value is returned.
    pub fn parameter<T: FieldParse>(&self, n: usize) -> (r: Result<T, FieldError>)
        ensures
            param_spec::<T>(*self, n as int, r),
    {
        if n < self.parameters.len() {
            match T::parse_field(self.parameters[n].as_str()) {
                Some(v) => Ok(v),
                None => Err(FieldError::ParseFailure(self.parameters[n].clone())),
            }
        } else {
            Err(FieldError::MissingField)
        }
    }

    /// Reads parameter `n` as a time of day (`HHMMSS`, optional fractional
    /// seconds): `MissingField` past the end of the parameter list,
    /// `ParseFailure` on malformed text or an out-of-range hour, minute or
    /// second.
    pub fn naive_time(&self, n: usize) -> (r: Result<LocalTime, FieldError>)
        ensures
            time_param_spec(*self, n as int, r),
    {
        if n < self.parameters.len() {
            match parse_time_str(self.parameters[n].as_str()) {
                Some(t) => {
                    proof {
                        lemma_time_text_wf(self.parameters@[n as int]@);
                    }
                    Ok(t)
                },
                None => Err(FieldError::ParseFailure(self.parameters[n].clone())),
            }
        } else {
            Err(FieldError::MissingField)
        }
    }

    /// Reads parameter `n` as a calendar date (`DDMMYY`, two-digit year, no
    /// century inference): `MissingField` past the end of the parameter
    /// list, `ParseFailure` on malformed text or an out-of-range day or
    /// month.
    pub fn naive_date(&self, n: usize) -> (r: Result<CalendarDate, FieldError>)
        ensures
            date_param_spec(*self, n as int, r),
    {
        if n < self.parameters.len() {
            match parse_date_str(self.parameters[n].as_str()) {
                Some(d) => {
                    proof {
                        lemma_date_text_wf(self.parameters@[n as int]@);
                    }
                    Ok(d)
                },
                None => Err(FieldError::ParseFailure(self.parameters[n].clone())),
            }
        } else {
            Err(FieldError::MissingField)
        }
    }

    /// Reads four consecutive parameters starting at `n` as a geographic
    /// position: latitude magnitude, hemisphere `N`/`S`, longitude
    /// magnitude, hemisphere `E`/`W`.  Each magnitude is degrees-minutes
    /// text (`DDDMM.mmmm`); an unrecognized hemisphere letter is a
    /// `ParseFailure`, not a guessed default.
    pub fn position(&self, n: usize) -> (r: Result<GeoPosition, FieldError>)
        ensures
            position_param_spec(*self, n as int, r),
    {
        let len = self.parameters.len();
        if len < 4 || n > len - 4 {
            return Err(FieldError::MissingField);
        }
        let latv = match self.parameter::<Decimal>(n) {
            Ok(v) => v,
            Err(e) => {
                return Err(e);
            },
        };
        let lat_south: bool;
        if str_is(self.parameters[n + 1].as_str(), 'N') {
            lat_south = false;
        } else if str_is(self.parameters[n + 1].as_str(), 'S') {
            lat_south = true;
        } else {
            return Err(FieldError::ParseFailure(self.parameters[n + 1].clone()));
        }
        let lonv = match self.parameter::<Decimal>(n + 2) {
            Ok(v) => v,
            Err(e) => {
                return Err(e);
            },
        };
        let lon_west: bool;
        if str_is(self.parameters[n + 3].as_str(), 'E') {
            lon_west = false;
        } else if str_is(self.parameters[n + 3].as_str(), 'W') {
            lon_west = true;
        } else {
            return Err(FieldError::ParseFailure(self.parameters[n + 3].clone()));
        }
        proof {
            assert(seq!['N'][0] == 'N' && seq!['S'][0] == 'S');
            assert(seq!['E'][0] == 'E' && seq!['W'][0] == 'W');
        }
        let latitude = coord_from(latv, lat_south);
        let longitude = coord_from(lonv, lon_west);
        Ok(GeoPosition { latitude, longitude })
    }

    /// Whether parameter `n` exists and is exactly the one character `c`.
    /// Total: a missing or different parameter answers `false`.
    pub fn param_is(&self, n: usize, c: char) -> (r: bool)
        ensures
            r == (n < self.parameters@.len() && self.parameters@[n as int]@ == seq![c]),
    {
        n < self.parameters.len() && str_is(self.parameters[n].as_str(), c)
    }

    /// First character of parameter `n`: `MissingField` past the end of the
    /// parameter list, `ParseFailure` on an empty parameter.
    pub fn first_char(&self, n: usize) -> (r: Result<char, FieldError>)
        ensures
            n >= self.parameters@.len() ==> r == Err::<char, FieldError>(FieldError::MissingField),
            n < self.parameters@.len() ==> if self.parameters@[n as int]@.len() > 0 {
                r == Ok::<char, FieldError>(self.parameters@[n as int]@[0])
            } else {
                r is Err && r->Err_0 is ParseFailure && r->Err_0->ParseFailure_0@
                    == self.parameters@[n as int]@
            },
    {
        if n >= self.parameters.len() {
            return Err(FieldError::MissingField);
        }
        let s = self.parameters[n].as_str();
        if s.unicode_len() > 0 {
            Ok(s.get_char(0))
        } else {
            Err(FieldError::ParseFailure(self.parameters[n].clone()))
        }
    }

    /// First character of parameter `n`, or nothing when the parameter is
    /// missing or empty.  Total.
    pub fn opt_first_char(&self, n: usize) -> (r: Option<char>)
        ensures
            match r {
                Some(c) => n < self.parameters@.len() && self.parameters@[n as int]@.len() > 0
                    && c == self.parameters@[n as int]@[0],
                None => n >= self.parameters@.len() || self.parameters@[n as int]@.len() == 0,
            },
    {
        if n < self.parameters.len() {
            let s = self.parameters[n].as_str();
            if s.unicode_len() > 0 {
                return Some(s.get_char(0));
            }
        }
        None
    }

    /// The raw text of parameter `n`: `MissingField` past the end of the
    /// parameter list.
    pub fn parameter_text(&self, n: usize) -> (r: Result<String, FieldError>)
        ensures
            n >= self.parameters@.len() ==> r == Err::<String, FieldError>(
                FieldError::MissingField,
            ),
            n < self.parameters@.len() ==> r is Ok && r->Ok_0@ == self.parameters@[n as int]@,
    {
        if n < self.parameters.len() {
            Ok(self.parameters[n].clone())
        } else {
            Err(FieldError::MissingField)
        }
    }

    /// Reads parameter `n` as a decimal and scales it by the fixed
    /// fraction `pnum / pden`, exactly.
    pub fn scaled_parameter(&self, n: usize, pnum: u64, pden: u64) -> (r: Result<
        Rational,
        FieldError,
    >)
        requires
            1 <= pnum <= 4_000_000_000_000u64,
            1 <= pden <= 4_000_000_000_000u64,
        ensures
            scaled_param_spec(*self, n as int, pnum as int, pden as int, r),
    {
        match self.parameter::<Decimal>(n) {
            Ok(v) => Ok(Rational::from_decimal(v).times_frac(pnum, pden)),
            Err(e) => Err(e),
        }
    }

    /// A sentence is valid when its stated checksum equals the recomputed one.
    pub fn is_valid(&self) -> (v: bool)
        ensures
            v == (self.checksum == checksum_of(
                self.sender@,
                self.message@,
                self.parameters.deep_view(),
            )),
    {
        self.calculate_checksum() == self.checksum
    }
}

/// Whether `c` is one of the whitespace characters trimmed from line ends.
fn is_wsp_char(c: char) -> (r: bool)
    ensures
        r == is_wsp(c),
{
    c == ' ' || c == '\t' || c == '\r' || c == '\n'
}

/// Whitespace stripped from both ends.
fn trim_str<'a>(s: &'a str) -> (r: &'a str)
    ensures
        r@ == trim_text(s@),
{
    let len: usize = s.unicode_len();
    let mut a: usize = 0;
    while a < len && is_wsp_char(s.get_char(a))
        invariant
            a <= len,
            len == s@.len(),
            forall|j: int| 0 <= j < a ==> is_wsp(s@[j]),
        decreases len - a,
    {
        a = a + 1;
    }
    let mut b: usize = len;
    while b > a && is_wsp_char(s.get_char(b - 1))
        invariant
            a <= b <= len,
            len == s@.len(),
            forall|j: int| b <= j < len ==> is_wsp(s@[j]),
        decreases b,
    {
        b = b - 1;
    }
    proof {
        lemma_trim_start_at(s@, a as int);
        let u = s@.skip(a as int);
        assert(forall|j: int| 0 <= j < u.len() ==> u[j] == s@[a + j]);
        lemma_trim_end_at(u, b - a);
        assert(u.take(b - a) =~= s@.subrange(a as int, b as int));
    }
    s.substring_char(a, b)
}

/// Index of the last `*`, if any.
fn find_last_star(s: &str) -> (r: Option<usize>)
    ensures
        match r {
            Some(i) => find_last(s@, '*') == Some(i as int),
            None => find_last(s@, '*') is None,
        },
{
    let len: usize = s.unicode_len();
    let mut i: usize = len;
    while i > 0
        invariant
            i <= len,
            len == s@.len(),
            forall|j: int| i <= j < len ==> s@[j] != '*',
        decreases i,
    {
        if s.get_char(i - 1) == '*' {
            proof {
                lemma_find_last_props(s@, '*');
            }
            return Some(i - 1);
        }
        i = i - 1;
    }
    proof {
        lemma_find_last_props(s@, '*');
    }
    None
}

/// The comma-separated pieces of `s`, in order, empty pieces kept.
fn split_str(s: &str) -> (fields: Vec<String>)
    ensures
        fields.deep_view() == split_text(s@, ','),
{
    let len: usize = s.unicode_len();
    let mut fields: Vec<String> = Vec::new();
    let mut st: usize = 0;
    let mut i: usize = 0;
    proof {
        assert(fields.deep_view() =~= Seq::<Seq<char>>::empty());
        assert(Seq::<Seq<char>>::empty() + split_text(s@, ',') =~= split_text(s@, ','));
        assert(s@.skip(0) =~= s@);
    }
    while i < len
        invariant
            st <= i <= len,
            len == s@.len(),
            split_text(s@, ',') == fields.deep_view() + split_text(s@.skip(st as int), ','),
            forall|j: int| st <= j < i ==> s@[j] != ',',
        decreases len - i,
    {
        if s.get_char(i) == ',' {
            let piece = String::from_str(s.substring_char(st, i));
            let ghost old_dv = fields.deep_view();
            fields.push(piece);
            proof {
                let u = s@.skip(st as int);
                assert(forall|k: int| 0 <= k < u.len() ==> u[k] == s@[st + k]);
                lemma_split_step(u, ',', i - st);
                assert(u.take(i - st) =~= s@.subrange(st as int, i as int));
                assert(u.skip(i - st + 1) =~= s@.skip(i + 1));
                assert(fields.deep_view() =~= old_dv.push(piece@));
                assert(old_dv + (seq![piece@] + split_text(s@.skip(i + 1), ','))
                    =~= old_dv.push(piece@) + split_text(s@.skip(i + 1), ','));
            }
            st = i + 1;
        }
        i = i + 1;
    }
    let piece = String::from_str(s.substring_char(st, len));
    let ghost old_dv = fields.deep_view();
    fields.push(piece);
    proof {
        let u = s@.skip(st as int);
        assert(forall|k: int| 0 <= k < u.len() ==> u[k] == s@[st + k]);
        lemma_split_whole(u, ',');
        assert(u =~= s@.subrange(st as int, len as int));
        assert(fields.deep_view() =~= old_dv.push(piece@));
        assert(old_dv + seq![piece@] =~= old_dv.push(piece@));
    }
    fields
}

/// One-character string holding the upper-case hexadecimal digit for a
/// value below 16.
fn hex_upper_str(n: u8) -> (r: &'static str)
    requires
        n < 16,
    ensures
        r@ == seq![hex_upper(n)],
{
    let r: &'static str = if n == 0 {
        "0"
    } else if n == 1 {
        "1"
    } else if n == 2 {
        "2"
    } else if n == 3 {
        "3"
    } else if n == 4 {
        "4"
    } else if n == 5 {
        "5"
    } else if n == 6 {
        "6"
    } else if n == 7 {
        "7"
    } else if n == 8 {
        "8"
    } else if n == 9 {
        "9"
    } else if n == 10 {
        "A"
    } else if n == 11 {
        "B"
    } else if n == 12 {
        "C"
    } else if n == 13 {
        "D"
    } else if n == 14 {
        "E"
    } else {
        "F"
    };
    proof {
        reveal_strlit("0");
        reveal_strlit("1");
        reveal_strlit("2");
        reveal_strlit("3");
        reveal_strlit("4");
        reveal_strlit("5");
        reveal_strlit("6");
        reveal_strlit("7");
        reveal_strlit("8");
        reveal_strlit("9");
        reveal_strlit("A");
        reveal_strlit("B");
        reveal_strlit("C");
        reveal_strlit("D");
        reveal_strlit("E");
        reveal_strlit("F");
        assert(r@ =~= seq![hex_upper(n)]);
    }
    r
}

/// The decimal at slot 0 or 2, whichever is tagged `letter` at the slot
/// after it.
pub fn tagged_pair(b: &Nmea0183Base, letter: char) -> (r: Result<Decimal, FieldError>)
    ensures
        tagged_pair_spec(*b, letter, r),
{
    if b.param_is(1, letter) {
        b.parameter(0)
    } else if b.param_is(3, letter) {
        b.parameter(2)
    } else if b.parameters.len() <= 3 {
        Err(FieldError::MissingField)
    } else {
        Err(FieldError::ParseFailure(b.parameters[1].clone()))
    }
}

/// The decimal at slot `i` or `i + 2`, whichever is tagged `letter` at
/// the slot after it.
pub fn tagged_at(b: &Nmea0183Base, i: usize, letter: char) -> (r: Result<Decimal, FieldError>)
    requires
        i + 3 < usize::MAX,
    ensures
        tagged_at_spec(*b, i as int, letter, r),
{
    if b.param_is(i + 1, letter) {
        b.parameter(i)
    } else if b.param_is(i + 3, letter) {
        b.parameter(i + 2)
    } else if b.parameters.len() <= i + 3 {
        Err(FieldError::MissingField)
    } else {
        Err(FieldError::ParseFailure(b.parameters[i + 1].clone()))
    }
}

/// The decimal at slot 0, signed by the `L`/`R` tag at slot 1.
pub fn lr_direction(b: &Nmea0183Base) -> (r: Result<Decimal, FieldError>)
    ensures
        lr_direction_spec(*b, r),
{
    if b.parameters.len() <= 1 {
        Err(FieldError::MissingField)
    } else if b.param_is(1, 'L') {
        match b.parameter::<Decimal>(0) {
            Ok(v) => Ok(Decimal { negative: !v.negative, mantissa: v.mantissa, scale: v.scale }),
            Err(e) => Err(e),
        }
    } else if b.param_is(1, 'R') {
        b.parameter(0)
    } else {
        Err(FieldError::ParseFailure(b.parameters[1].clone()))
    }
}

/// Whether `s` is exactly the one character `c`.
fn str_is(s: &str, c: char) -> (r: bool)
    ensures
        r == (s@ == seq![c]),
{
    if s.unicode_len() == 1 {
        let got = s.get_char(0);
        proof {
            if got == c {
                assert(s@ =~= seq![c]);
            }
        }
        got == c
    } else {
        false
    }
}

/// Value of one hexadecimal digit, either case.
fn hex_val(c: char) -> (r: Option<u8>)
    ensures
        r == hex_digit_val(c),
{
    match c {
        '0' => Some(0u8),
        '1' => Some(1u8),
        '2' => Some(2u8),
        '3' => Some(3u8),
        '4' => Some(4u8),
        '5' => Some(5u8),
        '6' => Some(6u8),
        '7' => Some(7u8),
        '8' => Some(8u8),
        '9' => Some(9u8),
        'a' | 'A' => Some(10u8),
        'b' | 'B' => Some(11u8),
        'c' | 'C' => Some(12u8),
        'd' | 'D' => Some(13u8),
        'e' | 'E' => Some(14u8),
        'f' | 'F' => Some(15u8),
        _ => None,
    }
}

/// The checksum is a pure function of sender, message identifier and
/// parameters: two sentences that agree on those three have equal computed
/// checksums, whatever their stated checksum bytes — so recomputing it for
/// one sentence always yields the same byte.
pub proof fn lemma_checksum_deterministic(a: Nmea0183Base, b: Nmea0183Base)
    requires
        a.sender@ == b.sender@,
        a.message@ == b.message@,
        a.parameters.deep_view() == b.parameters.deep_view(),
    ensures
        checksum_of(a.sender@, a.message@, a.parameters.deep_view()) == checksum_of(
            b.sender@,
            b.message@,
            b.parameters.deep_view(),
        ),
{
}

/// XOR `acc` with every byte of `s`, front to back.
fn xor_str(acc: u8, s: &str) -> (r: u8)
    ensures
        r == acc ^ xor_chars(s@),
{
    let len: usize = s.unicode_len();
    let mut i: usize = 0;
    let mut cur: u8 = acc;
    proof {
        lemma_xor_zero(acc);
    }
    while i < len
        invariant
            i <= len,
            len == s@.len(),
            cur == acc ^ xor_chars(s@.take(i as int)),
        decreases len - i,
    {
        let c = s.get_char(i);
        proof {
            lemma_xor_chars_push(s@.take(i as int), s@[i as int]);
            assert(s@.take(i as int).push(s@[i as int]) =~= s@.take(i + 1));
            lemma_xor_assoc(acc, xor_chars(s@.take(i as int)), char_byte(s@[i as int]));
        }
        let b = byte_of_char(c);
        cur = cur ^ b;
        i = i + 1;
    }
    proof {
        assert(s@.take(len as int) =~= s@);
    }
    cur
}

/// The low eight bits of a character's code point.
fn byte_of_char(c: char) -> (b: u8)
    ensures
        b == char_byte(c),
{
    let u: u32 = c as u32;
    (u % 256) as u8
}

} // verus!
