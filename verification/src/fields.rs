//! Generic, type-directed extraction of parameters: the grammar of numeric
//! field text and the parsers that realize it.

use vstd::prelude::*;

use crate::wire::find_first;
use crate::wire::lemma_find_first_props;

verus! {

/// An exact decimal number, as written in a sentence field: the value is
/// `mantissa / 10^scale`, negated when `negative` holds.  Numeric fields are
/// carried exactly; nothing is rounded.
#[derive(Debug, Clone, Copy, PartialEq, Eq, Structural)]
pub struct Decimal {
    pub negative: bool,
    pub mantissa: u64,
    pub scale: u32,
}

/// Negation of a parsed decimal: the sign flips, magnitude and scale stay.
pub open spec fn dec_neg(v: Decimal) -> Decimal {
    Decimal { negative: !v.negative, mantissa: v.mantissa, scale: v.scale }
}

/// Ten to the `n`.
pub open spec fn pow10(n: nat) -> int
    decreases n,
{
    if n == 0 {
        1
    } else {
        10 * pow10((n - 1) as nat)
    }
}

impl Decimal {
    /// Signed numerator of the value.
    pub open spec fn num(self) -> int {
        if self.negative {
            -(self.mantissa as int)
        } else {
            self.mantissa as int
        }
    }

    /// Denominator of the value: ten to the scale.
    pub open spec fn den(self) -> int {
        pow10(self.scale as nat)
    }

    /// Parsed decimals keep their scale small enough that its power of ten
    /// fits the machine words the conversions use.
    pub open spec fn wf(self) -> bool {
        self.scale <= 18
    }

    /// A decimal denoting the integer `n`.
    pub fn from_integer(n: u64, negative: bool) -> (r: Decimal)
        ensures
            r.num() == if negative { -(n as int) } else { n as int },
            r.den() == 1,
            r.wf(),
    {
        Decimal { negative, mantissa: n, scale: 0 }
    }
}

/// The decimal-number grammar of a field: optional sign, an integer digit
/// run, optionally a dot and a fraction digit run, at least one digit in
/// all, at most 18 fraction digits, and a digit run that fits in a 64-bit
/// mantissa.
pub open spec fn decimal_text_val(s: Seq<char>) -> Option<Decimal> {
    let neg = s.len() > 0 && s[0] == '-';
    let d = if s.len() > 0 && (s[0] == '-' || s[0] == '+') {
        s.drop_first()
    } else {
        s
    };
    let ip = match find_first(d, '.') {
        None => d,
        Some(j) => d.take(j),
    };
    let fp = match find_first(d, '.') {
        None => Seq::<char>::empty(),
        Some(j) => d.skip(j + 1),
    };
    if all_digits(ip) && all_digits(fp) && ip.len() + fp.len() >= 1 && fp.len() <= 18
        && digits_val(ip + fp) <= u64::MAX as int {
        Some(
            Decimal {
                negative: neg,
                mantissa: digits_val(ip + fp) as u64,
                scale: fp.len() as u32,
            },
        )
    } else {
        None
    }
}

/// ASCII decimal digit.
pub open spec fn is_digit(c: char) -> bool {
    48 <= c as u32 <= 57
}

/// Numeric value of one digit character.
pub open spec fn digit_val(c: char) -> int {
    c as u32 - 48
}

/// Whether every character is a decimal digit.
pub open spec fn all_digits(s: Seq<char>) -> bool {
    forall|i: int| 0 <= i < s.len() ==> is_digit(s[i])
}

/// The number a digit string denotes, most significant digit first.
pub open spec fn digits_val(s: Seq<char>) -> int
    decreases s.len(),
{
    if s.len() == 0 {
        0
    } else {
        digits_val(s.drop_last()) * 10 + digit_val(s.last())
    }
}

/// The value of unsigned integer text: optional `+`, then at least one
/// digit.
pub open spec fn uint_text_val(s: Seq<char>) -> Option<int> {
    let d = if s.len() > 0 && s[0] == '+' {
        s.drop_first()
    } else {
        s
    };
    if d.len() >= 1 && all_digits(d) {
        Some(digits_val(d))
    } else {
        None
    }
}

/// The value of signed integer text: optional `+` or `-`, then at least one
/// digit.
pub open spec fn int_text_val(s: Seq<char>) -> Option<int> {
    if s.len() > 0 && s[0] == '-' {
        let d = s.drop_first();
        if d.len() >= 1 && all_digits(d) {
            Some(-digits_val(d))
        } else {
            None
        }
    } else {
        uint_text_val(s)
    }
}

/// A digit string denotes a value at least zero.
pub proof fn lemma_digits_val_nonneg(s: Seq<char>)
    requires
        all_digits(s),
    ensures
        digits_val(s) >= 0,
    decreases s.len(),
{
    if s.len() > 0 {
        lemma_digits_val_nonneg(s.drop_last());
    }
}

/// Extending a digit string on the right multiplies its value by ten and
/// adds the new digit.
pub proof fn lemma_digits_val_step(s: Seq<char>, k: int)
    requires
        0 <= k < s.len(),
    ensures
        digits_val(s.take(k + 1)) == digits_val(s.take(k)) * 10 + digit_val(s[k]),
{
    assert(s.take(k + 1).drop_last() =~= s.take(k));
    assert(s.take(k + 1).last() == s[k]);
}

/// Reads digit text (after any sign) as a number, refusing values above
/// `max` and any non-digit.  `s` is the digit portion only.
pub(crate) fn parse_digits(s: &str, max: u64) -> (r: Option<u64>)
    ensures
        match r {
            Some(v) => s@.len() >= 1 && all_digits(s@) && digits_val(s@) == v as int && v <= max,
            None => s@.len() == 0 || !all_digits(s@) || digits_val(s@) > max as int,
        },
{
    let len: usize = s.unicode_len();
    if len == 0 {
        return None;
    }
    let mut acc: u64 = 0;
    let mut over: bool = false;
    let mut k: usize = 0;
    while k < len
        invariant
            k <= len,
            len == s@.len(),
            forall|j: int| 0 <= j < k ==> is_digit(s@[j]),
            !over ==> acc as int == digits_val(s@.take(k as int)) && acc <= max,
            over ==> digits_val(s@.take(k as int)) > max as int,
        decreases len - k,
    {
        let c = s.get_char(k);
        let u: u32 = c as u32;
        if u < 48 || u > 57 {
            return None;
        }
        let d: u64 = ((u - 48) as u64);
        proof {
            lemma_digits_val_step(s@, k as int);
        }
        if !over {
            if acc > max / 10 || (acc == max / 10 && d > max % 10) {
                over = true;
            } else {
                acc = acc * 10 + d;
            }
        }
        k = k + 1;
    }
    proof {
        assert(s@.take(len as int) =~= s@);
    }
    if over {
        None
    } else {
        Some(acc)
    }
}

/// Unsigned integer text: optional `+`, then digits, refused above `max`.
pub fn parse_uint_str(s: &str, max: u64) -> (r: Option<u64>)
    ensures
        match r {
            Some(v) => uint_text_val(s@) == Some(v as int) && v <= max,
            None => match uint_text_val(s@) {
                Some(w) => w > max as int,
                None => true,
            },
        },
{
    let len: usize = s.unicode_len();
    if len > 0 && s.get_char(0) == '+' {
        let d = s.substring_char(1, len);
        proof {
            assert(s@.subrange(1, len as int) =~= s@.drop_first());
        }
        parse_digits(d, max)
    } else {
        parse_digits(s, max)
    }
}

/// Index of the first `.`, if any.
fn find_first_dot(s: &str) -> (r: Option<usize>)
    ensures
        match r {
            Some(i) => find_first(s@, '.') == Some(i as int),
            None => find_first(s@, '.') is None,
        },
{
    let len: usize = s.unicode_len();
    let mut i: usize = 0;
    while i < len
        invariant
            i <= len,
            len == s@.len(),
            forall|j: int| 0 <= j < i ==> s@[j] != '.',
        decreases len - i,
    {
        if s.get_char(i) == '.' {
            proof {
                lemma_find_first_props(s@, '.');
            }
            return Some(i);
        }
        i = i + 1;
    }
    proof {
        lemma_find_first_props(s@, '.');
    }
    None
}

/// Decimal-number text, exactly as [`decimal_text_val`] describes it.
pub fn parse_decimal_str(s: &str) -> (r: Option<Decimal>)
    ensures
        r == decimal_text_val(s@),
{
    let len: usize = s.unicode_len();
    let mut neg = false;
    let mut start: usize = 0;
    if len > 0 {
        let c0 = s.get_char(0);
        if c0 == '-' {
            neg = true;
            start = 1;
        } else if c0 == '+' {
            start = 1;
        }
    }
    let d = s.substring_char(start, len);
    proof {
        if start == 1 {
            assert(s@.subrange(1, len as int) =~= s@.drop_first());
        } else {
            assert(s@.subrange(0, len as int) =~= s@);
        }
    }
    let dlen: usize = d.unicode_len();
    let ip: &str;
    let fp: &str;
    match find_first_dot(d) {
        None => {
            ip = d;
            fp = d.substring_char(dlen, dlen);
            proof {
                assert(d@.subrange(dlen as int, dlen as int) =~= Seq::<char>::empty());
            }
        },
        Some(j) => {
            proof {
                lemma_find_first_props(d@, '.');
            }
            ip = d.substring_char(0, j);
            fp = d.substring_char(j + 1, dlen);
            proof {
                assert(d@.subrange(0, j as int) =~= d@.take(j as int));
                assert(d@.subrange(j + 1, dlen as int) =~= d@.skip(j + 1));
            }
        },
    }
    let fp_len: usize = fp.unicode_len();
    if fp_len > 18 {
        return None;
    }
    let mut g = String::from_str(ip);
    g.append(fp);
    match parse_digits(g.as_str(), u64::MAX) {
        Some(m) => {
            proof {
                lemma_all_digits_concat(ip@, fp@);
            }
            Some(Decimal { negative: neg, mantissa: m, scale: fp_len as u32 })
        },
        None => {
            proof {
                lemma_all_digits_concat(ip@, fp@);
            }
            None
        },
    }
}

/// Digit-ness of a concatenation is digit-ness of both halves.
proof fn lemma_all_digits_concat(a: Seq<char>, b: Seq<char>)
    ensures
        all_digits(a + b) == (all_digits(a) && all_digits(b)),
{
    let g = a + b;
    if all_digits(g) {
        assert(forall|i: int| 0 <= i < a.len() ==> a[i] == g[i]);
        assert(forall|i: int| 0 <= i < b.len() ==> b[i] == g[a.len() + i]);
    }
    if all_digits(a) && all_digits(b) {
        assert(forall|i: int| 0 <= i < g.len() ==> is_digit(#[trigger] g[i])) by {
            assert(forall|i: int| 0 <= i < a.len() ==> g[i] == a[i]);
            assert(forall|i: int| a.len() <= i < g.len() ==> g[i] == b[i - a.len()]);
        }
    }
}

/// Ten to the `n`, as a machine word.
pub fn pow10_u64(n: u32) -> (r: u64)
    requires
        n <= 18,
    ensures
        r as int == pow10(n as nat),
        r >= 1,
{
    let mut r: u64 = 1;
    let mut i: u32 = 0;
    while i < n
        invariant
            i <= n,
            n <= 18,
            r as int == pow10(i as nat),
            r <= 0x0DE0_B6B3_A764_0000u64,
        decreases n - i,
    {
        proof {
            lemma_pow10_bound(i as nat);
            lemma_pow10_bound((i + 1) as nat);
        }
        r = r * 10;
        i = i + 1;
    }
    proof {
        lemma_pow10_pos(n as nat);
    }
    r
}

/// Powers of ten grow monotonically and stay within 64 bits up to the
/// eighteenth.
pub proof fn lemma_pow10_bound(n: nat)
    requires
        n <= 18,
    ensures
        1 <= pow10(n) <= pow10(18),
        pow10(18) == 0x0DE0_B6B3_A764_0000,
    decreases n,
{
    assert(pow10(18) == 0x0DE0_B6B3_A764_0000) by {
        reveal_with_fuel(pow10, 19);
    }
    if n > 0 {
        lemma_pow10_bound((n - 1) as nat);
        if n < 18 {
            lemma_pow10_le(n, 18);
        }
    }
}

/// Powers of ten are monotone in the exponent.
pub proof fn lemma_pow10_le(a: nat, b: nat)
    requires
        a <= b,
    ensures
        pow10(a) <= pow10(b),
        pow10(a) >= 1,
    decreases b,
{
    if a == b {
        lemma_pow10_pos(a);
    } else {
        lemma_pow10_le(a, (b - 1) as nat);
    }
}

/// Powers of ten are positive.
pub proof fn lemma_pow10_pos(n: nat)
    ensures
        pow10(n) >= 1,
    decreases n,
{
    if n > 0 {
        lemma_pow10_pos((n - 1) as nat);
    }
}

/// Signed integer text: optional sign, then digits; the value must lie in
/// `[-neg_mag, pos_max]` (`neg_mag` as a magnitude, so the two's-complement
/// minimum is admissible).
pub fn parse_int_str(s: &str, neg_mag: u64, pos_max: u64) -> (r: Option<i64>)
    requires
        neg_mag <= 0x8000_0000_0000_0000u64,
        pos_max <= 0x7fff_ffff_ffff_ffffu64,
    ensures
        match r {
            Some(v) => int_text_val(s@) == Some(v as int) && -(neg_mag as int) <= v as int
                <= pos_max as int,
            None => match int_text_val(s@) {
                Some(w) => w > pos_max as int || w < -(neg_mag as int),
                None => true,
            },
        },
{
    let len: usize = s.unicode_len();
    if len > 0 && s.get_char(0) == '-' {
        let d = s.substring_char(1, len);
        proof {
            assert(s@.subrange(1, len as int) =~= s@.drop_first());
        }
        match parse_digits(d, neg_mag) {
            Some(v) => {
                if v == 0x8000_0000_0000_0000u64 {
                    Some(i64::MIN)
                } else {
                    Some(-(v as i64))
                }
            },
            None => None,
        }
    } else {
        match parse_uint_str(s, pos_max) {
            Some(v) => Some(v as i64),
            None => None,
        }
    }
}

/// A type a parameter can be read as: the grammar of its text, and a parser
/// held to that grammar exactly.
pub trait FieldParse: Sized {
    /// The value the text denotes, if any.
    spec fn parse_text(s: Seq<char>) -> Option<Self>;

    /// Reads the text; returns exactly what `parse_text` ascribes to it.
    fn parse_field(s: &str) -> (r: Option<Self>)
        ensures
            r == Self::parse_text(s@),
    ;
}

impl FieldParse for u8 {
    open spec fn parse_text(s: Seq<char>) -> Option<u8> {
        match uint_text_val(s) {
            Some(v) => if v <= u8::MAX as int {
                Some(v as u8)
            } else {
                None
            },
            None => None,
        }
    }

    fn parse_field(s: &str) -> (r: Option<u8>) {
        match parse_uint_str(s, 255) {
            Some(v) => Some(v as u8),
            None => None,
        }
    }
}

impl FieldParse for u16 {
    open spec fn parse_text(s: Seq<char>) -> Option<u16> {
        match uint_text_val(s) {
            Some(v) => if v <= u16::MAX as int {
                Some(v as u16)
            } else {
                None
            },
            None => None,
        }
    }

    fn parse_field(s: &str) -> (r: Option<u16>) {
        match parse_uint_str(s, 65535) {
            Some(v) => Some(v as u16),
            None => None,
        }
    }
}

impl FieldParse for u32 {
    open spec fn parse_text(s: Seq<char>) -> Option<u32> {
        match uint_text_val(s) {
            Some(v) => if v <= u32::MAX as int {
                Some(v as u32)
            } else {
                None
            },
            None => None,
        }
    }

    fn parse_field(s: &str) -> (r: Option<u32>) {
        match parse_uint_str(s, 0xffff_ffffu64) {
            Some(v) => Some(v as u32),
            None => None,
        }
    }
}

impl FieldParse for u64 {
    open spec fn parse_text(s: Seq<char>) -> Option<u64> {
        match uint_text_val(s) {
            Some(v) => if v <= u64::MAX as int {
                Some(v as u64)
            } else {
                None
            },
            None => None,
        }
    }

    fn parse_field(s: &str) -> (r: Option<u64>) {
        parse_uint_str(s, u64::MAX)
    }
}

impl FieldParse for usize {
    open spec fn parse_text(s: Seq<char>) -> Option<usize> {
        match uint_text_val(s) {
            Some(v) => if v <= usize::MAX as int {
                Some(v as usize)
            } else {
                None
            },
            None => None,
        }
    }

    fn parse_field(s: &str) -> (r: Option<usize>) {
        match parse_uint_str(s, usize::MAX as u64) {
            Some(v) => Some(v as usize),
            None => None,
        }
    }
}

impl FieldParse for i8 {
    open spec fn parse_text(s: Seq<char>) -> Option<i8> {
        match int_text_val(s) {
            Some(v) => if i8::MIN as int <= v <= i8::MAX as int {
                Some(v as i8)
            } else {
                None
            },
            None => None,
        }
    }

    fn parse_field(s: &str) -> (r: Option<i8>) {
        match parse_int_str(s, 128, 127) {
            Some(v) => Some(v as i8),
            None => None,
        }
    }
}

impl FieldParse for i16 {
    open spec fn parse_text(s: Seq<char>) -> Option<i16> {
        match int_text_val(s) {
            Some(v) => if i16::MIN as int <= v <= i16::MAX as int {
                Some(v as i16)
            } else {
                None
            },
            None => None,
        }
    }

    fn parse_field(s: &str) -> (r: Option<i16>) {
        match parse_int_str(s, 32768, 32767) {
            Some(v) => Some(v as i16),
            None => None,
        }
    }
}

impl FieldParse for i32 {
    open spec fn parse_text(s: Seq<char>) -> Option<i32> {
        match int_text_val(s) {
            Some(v) => if i32::MIN as int <= v <= i32::MAX as int {
                Some(v as i32)
            } else {
                None
            },
            None => None,
        }
    }

    fn parse_field(s: &str) -> (r: Option<i32>) {
        match parse_int_str(s, 0x8000_0000u64, 0x7fff_ffffu64) {
            Some(v) => Some(v as i32),
            None => None,
        }
    }
}

impl FieldParse for i64 {
    open spec fn parse_text(s: Seq<char>) -> Option<i64> {
        match int_text_val(s) {
            Some(v) => if i64::MIN as int <= v <= i64::MAX as int {
                Some(v as i64)
            } else {
                None
            },
            None => None,
        }
    }

    fn parse_field(s: &str) -> (r: Option<i64>) {
        parse_int_str(s, 0x8000_0000_0000_0000u64, 0x7fff_ffff_ffff_ffffu64)
    }
}

impl FieldParse for char {
    open spec fn parse_text(s: Seq<char>) -> Option<char> {
        if s.len() == 1 {
            Some(s[0])
        } else {
            None
        }
    }

    fn parse_field(s: &str) -> (r: Option<char>) {
        if s.unicode_len() == 1 {
            Some(s.get_char(0))
        } else {
            None
        }
    }
}

impl FieldParse for Decimal {
    open spec fn parse_text(s: Seq<char>) -> Option<Decimal> {
        decimal_text_val(s)
    }

    fn parse_field(s: &str) -> (r: Option<Decimal>) {
        parse_decimal_str(s)
    }
}

} // verus!
