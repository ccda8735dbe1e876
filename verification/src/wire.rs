//! Specification model of the NMEA-0183 wire format.
//!
//! A sentence on the wire is
//! `<sender><message>,<field0>,...,<fieldN>*<checksum-hex-2-digits>`,
//! optionally surrounded by whitespace.  The functions here describe, at the
//! level of character sequences, how a line decomposes into those parts and
//! how the XOR checksum is folded over them.

use vstd::prelude::*;

use crate::errors::FrameError;

verus! {

/// The whitespace characters stripped from the ends of a line before
/// framing: space, tab, carriage return and line feed.
pub open spec fn is_wsp(c: char) -> bool {
    c == ' ' || c == '\t' || c == '\r' || c == '\n'
}

/// Leading whitespace removed.
pub open spec fn trim_start_text(s: Seq<char>) -> Seq<char>
    decreases s.len(),
{
    if s.len() > 0 && is_wsp(s[0]) {
        trim_start_text(s.drop_first())
    } else {
        s
    }
}

/// Trailing whitespace removed.
pub open spec fn trim_end_text(s: Seq<char>) -> Seq<char>
    decreases s.len(),
{
    if s.len() > 0 && is_wsp(s.last()) {
        trim_end_text(s.drop_last())
    } else {
        s
    }
}

/// Whitespace removed from both ends.
pub open spec fn trim_text(s: Seq<char>) -> Seq<char> {
    trim_end_text(trim_start_text(s))
}

/// A sequence that carries no whitespace at either end.
pub open spec fn ws_free_ends(s: Seq<char>) -> bool {
    s.len() > 0 ==> (!is_wsp(s[0]) && !is_wsp(s.last()))
}

/// Index of the first occurrence of `c` in `s`, if any.
pub open spec fn find_first(s: Seq<char>, c: char) -> Option<int>
    decreases s.len(),
{
    if s.len() == 0 {
        None
    } else if s[0] == c {
        Some(0int)
    } else {
        match find_first(s.drop_first(), c) {
            None => None,
            Some(j) => Some(j + 1),
        }
    }
}

/// Index of the last occurrence of `c` in `s`, if any.
pub open spec fn find_last(s: Seq<char>, c: char) -> Option<int>
    decreases s.len(),
{
    if s.len() == 0 {
        None
    } else if s.last() == c {
        Some(s.len() - 1)
    } else {
        find_last(s.drop_last(), c)
    }
}

/// The comma-separated decomposition of `s`: splitting on every occurrence
/// of `sep`, in order, keeping empty pieces.  Never empty; a separator-free
/// `s` is the single piece `s`.
pub open spec fn split_text(s: Seq<char>, sep: char) -> Seq<Seq<char>>
    decreases s.len(),
    via split_text_decreases
{
    match find_first(s, sep) {
        None => seq![s],
        Some(j) => seq![s.take(j)] + split_text(s.skip(j + 1), sep),
    }
}

#[via_fn]
proof fn split_text_decreases(s: Seq<char>, sep: char) {
    lemma_find_first_props(s, sep);
}

/// The pieces joined back with `sep` between each pair.
pub open spec fn join_text(fields: Seq<Seq<char>>, sep: char) -> Seq<char>
    decreases fields.len(),
{
    if fields.len() == 0 {
        Seq::<char>::empty()
    } else if fields.len() == 1 {
        fields[0]
    } else {
        fields[0] + seq![sep] + join_text(fields.drop_first(), sep)
    }
}

/// Value of one hexadecimal digit, either case.
pub open spec fn hex_digit_val(c: char) -> Option<u8> {
    match c {
        '0' => Some(0u8),
        '1' => Some(1u8),
        '2' => Some(2u8),
        '3' => Some(3u8),
        '4' => Some(4u8),
        '5' => Some(5u8),
        '6' => Some(6u8),
        '7' => Some(7u8),
        '8' => Some(8u8),
        '9' => Some(9u8),
        'a' | 'A' => Some(10u8),
        'b' | 'B' => Some(11u8),
        'c' | 'C' => Some(12u8),
        'd' | 'D' => Some(13u8),
        'e' | 'E' => Some(14u8),
        'f' | 'F' => Some(15u8),
        _ => None,
    }
}

/// The checksum text after `*`: exactly two hexadecimal digits.
pub open spec fn checksum_text_val(s: Seq<char>) -> Option<u8> {
    if s.len() == 2 {
        match (hex_digit_val(s[0]), hex_digit_val(s[1])) {
            (Some(h), Some(l)) => Some((h * 16 + l) as u8),
            _ => None,
        }
    } else {
        None
    }
}

/// Upper-case hexadecimal digit for a value below 16.
pub open spec fn hex_upper(n: u8) -> char {
    if n == 0 {
        '0'
    } else if n == 1 {
        '1'
    } else if n == 2 {
        '2'
    } else if n == 3 {
        '3'
    } else if n == 4 {
        '4'
    } else if n == 5 {
        '5'
    } else if n == 6 {
        '6'
    } else if n == 7 {
        '7'
    } else if n == 8 {
        '8'
    } else if n == 9 {
        '9'
    } else if n == 10 {
        'A'
    } else if n == 11 {
        'B'
    } else if n == 12 {
        'C'
    } else if n == 13 {
        'D'
    } else if n == 14 {
        'E'
    } else {
        'F'
    }
}

/// Upper-case two-digit hexadecimal rendering of a byte.
pub open spec fn hex_two(b: u8) -> Seq<char> {
    seq![hex_upper(b / 16), hex_upper(b % 16)]
}

/// How a raw line decomposes into (sender, message identifier, parameters,
/// checksum byte), or the shape error it exhibits.  The algorithm: trim
/// whitespace; split on the last `*`; re-trim and comma-split the payload;
/// the first field is the introducer, whose first three characters are the
/// sender and whose remainder is the message identifier; the text after the
/// `*` must be a two-digit hexadecimal byte.
pub open spec fn parse_parts(line: Seq<char>) -> Result<
    (Seq<char>, Seq<char>, Seq<Seq<char>>, u8),
    FrameError,
> {
    let t = trim_text(line);
    match find_last(t, '*') {
        None => Err(FrameError::MissingChecksum),
        Some(star) => {
            let payload = trim_text(t.take(star));
            let cstext = t.skip(star + 1);
            if payload.len() == 0 {
                Err(FrameError::Empty)
            } else {
                let fields = split_text(payload, ',');
                if fields[0].len() < 3 {
                    Err(FrameError::IntroducerTooShort)
                } else {
                    match checksum_text_val(cstext) {
                        None => Err(FrameError::InvalidChecksumFormat),
                        Some(cs) => Ok(
                            (fields[0].take(3), fields[0].skip(3), fields.drop_first(), cs),
                        ),
                    }
                }
            }
        },
    }
}

/// The canonical wire rendering of a framed sentence with checksum byte
/// `cs`: introducer and parameters joined by commas, then `*` and the
/// upper-case two-digit hexadecimal checksum.
pub open spec fn wire_text(
    sender: Seq<char>,
    message: Seq<char>,
    params: Seq<Seq<char>>,
    cs: u8,
) -> Seq<char> {
    join_text(seq![sender + message] + params, ',') + seq!['*'] + hex_two(cs)
}

/// What serialization yields: the canonical line under the stated checksum
/// when it is correct, the canonical line under a freshly computed checksum
/// when none was stamped, and nothing when the stated checksum is wrong.
pub open spec fn serialize_parts(
    sender: Seq<char>,
    message: Seq<char>,
    params: Seq<Seq<char>>,
    cs: u8,
) -> Option<Seq<char>> {
    if cs == checksum_of(sender, message, params) {
        Some(wire_text(sender, message, params, cs))
    } else if cs == 0 {
        Some(wire_text(sender, message, params, checksum_of(sender, message, params)))
    } else {
        None
    }
}

pub proof fn lemma_find_first_props(s: Seq<char>, c: char)
    ensures
        match find_first(s, c) {
            None => forall|i: int| 0 <= i < s.len() ==> s[i] != c,
            Some(j) => 0 <= j < s.len() && s[j] == c && (forall|i: int| 0 <= i < j ==> s[i] != c),
        },
    decreases s.len(),
{
    if s.len() > 0 && s[0] != c {
        let t = s.drop_first();
        lemma_find_first_props(t, c);
        assert(forall|i: int| 1 <= i < s.len() ==> s[i] == t[i - 1]);
    }
}

pub proof fn lemma_find_last_props(s: Seq<char>, c: char)
    ensures
        match find_last(s, c) {
            None => forall|i: int| 0 <= i < s.len() ==> s[i] != c,
            Some(j) => 0 <= j < s.len() && s[j] == c && (forall|i: int| j < i < s.len() ==> s[i]
                != c),
        },
    decreases s.len(),
{
    if s.len() > 0 && s.last() != c {
        let t = s.drop_last();
        lemma_find_last_props(t, c);
        assert(forall|i: int| 0 <= i < t.len() ==> t[i] == s[i]);
    }
}

/// Splitting never yields an empty piece list.
pub proof fn lemma_split_text_len(s: Seq<char>, sep: char)
    ensures
        split_text(s, sep).len() >= 1,
{
    lemma_find_first_props(s, sep);
}

/// `trim_start_text` drops exactly the leading whitespace run.
pub proof fn lemma_trim_start_at(s: Seq<char>, a: int)
    requires
        0 <= a <= s.len(),
        forall|j: int| 0 <= j < a ==> is_wsp(s[j]),
        a < s.len() ==> !is_wsp(s[a]),
    ensures
        trim_start_text(s) == s.skip(a),
    decreases a,
{
    if a == 0 {
        assert(s.skip(0) =~= s);
    } else {
        let t = s.drop_first();
        assert(forall|j: int| 0 <= j < a - 1 ==> t[j] == s[j + 1]);
        lemma_trim_start_at(t, a - 1);
        assert(t.skip(a - 1) =~= s.skip(a));
    }
}

/// `trim_end_text` drops exactly the trailing whitespace run.
pub proof fn lemma_trim_end_at(s: Seq<char>, b: int)
    requires
        0 <= b <= s.len(),
        forall|j: int| b <= j < s.len() ==> is_wsp(s[j]),
        b > 0 ==> !is_wsp(s[b - 1]),
    ensures
        trim_end_text(s) == s.take(b),
    decreases s.len() - b,
{
    if b == s.len() {
        assert(s.take(b) =~= s);
    } else {
        let t = s.drop_last();
        assert(forall|j: int| 0 <= j < t.len() ==> t[j] == s[j]);
        lemma_trim_end_at(t, b);
        assert(t.take(b) =~= s.take(b));
    }
}

/// The trimmed text carries no whitespace at either end.
pub proof fn lemma_trim_text_ends(s: Seq<char>)
    ensures
        ws_free_ends(trim_text(s)),
{
    lemma_trim_start_head(s);
    let u = trim_start_text(s);
    lemma_trim_end_last(u);
    lemma_trim_end_head(u);
}

proof fn lemma_trim_start_head(s: Seq<char>)
    ensures
        trim_start_text(s).len() > 0 ==> !is_wsp(trim_start_text(s)[0]),
    decreases s.len(),
{
    if s.len() > 0 && is_wsp(s[0]) {
        lemma_trim_start_head(s.drop_first());
    }
}

proof fn lemma_trim_end_last(s: Seq<char>)
    ensures
        trim_end_text(s).len() > 0 ==> !is_wsp(trim_end_text(s).last()),
    decreases s.len(),
{
    if s.len() > 0 && is_wsp(s.last()) {
        lemma_trim_end_last(s.drop_last());
    }
}

proof fn lemma_trim_end_head(s: Seq<char>)
    ensures
        trim_end_text(s).len() > 0 ==> trim_end_text(s)[0] == s[0],
    decreases s.len(),
{
    if s.len() > 0 && is_wsp(s.last()) {
        lemma_trim_end_head(s.drop_last());
    }
}

/// Trimming text that is already whitespace-free at both ends changes
/// nothing.
pub proof fn lemma_trim_noop(s: Seq<char>)
    requires
        ws_free_ends(s),
    ensures
        trim_text(s) == s,
{
}

/// Where the first separator stands at `j`, splitting takes the prefix as
/// one piece and recurses past the separator.
pub proof fn lemma_split_step(s: Seq<char>, sep: char, j: int)
    requires
        0 <= j < s.len(),
        s[j] == sep,
        forall|k: int| 0 <= k < j ==> s[k] != sep,
    ensures
        split_text(s, sep) == seq![s.take(j)] + split_text(s.skip(j + 1), sep),
{
    lemma_find_first_props(s, sep);
}

/// Separator-free text splits into the single piece itself.
pub proof fn lemma_split_whole(s: Seq<char>, sep: char)
    requires
        forall|k: int| 0 <= k < s.len() ==> s[k] != sep,
    ensures
        split_text(s, sep) == seq![s],
{
    lemma_find_first_props(s, sep);
}

/// Appending one more piece appends a separator and the piece to the joined
/// text.
pub proof fn lemma_join_push(fields: Seq<Seq<char>>, sep: char, p: Seq<char>)
    requires
        fields.len() >= 1,
    ensures
        join_text(fields.push(p), sep) == join_text(fields, sep) + seq![sep] + p,
    decreases fields.len(),
{
    let g = fields.push(p);
    if fields.len() == 1 {
        assert(g.drop_first() =~= seq![p]);
        assert(join_text(seq![p], sep) == p);
        assert(g[0] == fields[0]);
        assert(join_text(fields, sep) == fields[0]);
    } else {
        assert(g.drop_first() =~= fields.drop_first().push(p));
        lemma_join_push(fields.drop_first(), sep, p);
        assert(g[0] == fields[0]);
        assert(fields[0] + seq![sep] + (join_text(fields.drop_first(), sep) + seq![sep] + p)
            =~= (fields[0] + seq![sep] + join_text(fields.drop_first(), sep)) + seq![sep] + p);
    }
}

/// Round trip of the checksum text: rendering a byte in upper-case hex and
/// reading it back yields the byte.
pub proof fn lemma_checksum_text_round_trip(b: u8)
    ensures
        checksum_text_val(hex_two(b)) == Some(b),
{
    assert(b / 16 < 16 && b % 16 < 16) by (bit_vector);
    lemma_hex_digit_of_upper(b / 16);
    lemma_hex_digit_of_upper(b % 16);
    assert((b / 16) * 16 + b % 16 == b) by (bit_vector);
}

/// Reading back an upper-case hex digit yields its value.
pub proof fn lemma_hex_digit_of_upper(n: u8)
    requires
        n < 16,
    ensures
        hex_digit_val(hex_upper(n)) == Some(n),
{
}

/// Hex digits are never the `*` delimiter and never whitespace.
pub proof fn lemma_hex_upper_plain(n: u8)
    requires
        n < 16,
    ensures
        hex_upper(n) != '*',
        !is_wsp(hex_upper(n)),
{
}

/// Where `b` is free of the mark `c`, the last occurrence of `c` in
/// `a + [c] + b` is exactly the middle one.
pub proof fn lemma_find_last_mark(a: Seq<char>, b: Seq<char>, c: char)
    requires
        forall|i: int| 0 <= i < b.len() ==> b[i] != c,
    ensures
        find_last(a + seq![c] + b, c) == Some(a.len() as int),
    decreases b.len(),
{
    let u = a + seq![c] + b;
    if b.len() == 0 {
        assert(u.last() == c);
        assert(u.len() - 1 == a.len());
    } else {
        assert(u.last() == b.last());
        assert(u.drop_last() =~= a + seq![c] + b.drop_last());
        assert(forall|i: int| 0 <= i < b.drop_last().len() ==> b.drop_last()[i] == b[i]);
        lemma_find_last_mark(a, b.drop_last(), c);
    }
}

/// No piece of a split carries the separator it was split on.
pub proof fn lemma_split_pieces_free(s: Seq<char>, sep: char)
    ensures
        forall|i: int, j: int|
            0 <= i < split_text(s, sep).len() && 0 <= j < split_text(s, sep)[i].len()
                ==> #[trigger] split_text(s, sep)[i][j] != sep,
    decreases s.len(),
{
    lemma_find_first_props(s, sep);
    match find_first(s, sep) {
        None => {
            assert(forall|j: int| 0 <= j < s.len() ==> s.take(s.len() as int)[j] == s[j]);
        },
        Some(k) => {
            let rest = s.skip(k + 1);
            lemma_split_pieces_free(rest, sep);
            let pieces = seq![s.take(k)] + split_text(rest, sep);
            assert(forall|j: int| 0 <= j < k ==> pieces[0][j] == s[j]);
            assert(forall|i: int, j: int|
                1 <= i < pieces.len() && 0 <= j < pieces[i].len() ==> pieces[i][j] == split_text(
                    rest,
                    sep,
                )[i - 1][j]);
        },
    }
}

/// Positional addressing rests on this: the sender, the message identifier
/// and every parameter of a framed sentence carry no comma, so joining
/// them back with commas can never shift a field boundary.
pub proof fn lemma_parse_fields_comma_free(line: Seq<char>)
    requires
        parse_parts(line) is Ok,
    ensures
        ({
            let (sender, message, params, cs) = parse_parts(line)->Ok_0;
            &&& forall|j: int| 0 <= j < sender.len() ==> #[trigger] sender[j] != ','
            &&& forall|j: int| 0 <= j < message.len() ==> #[trigger] message[j] != ','
            &&& forall|i: int, j: int|
                0 <= i < params.len() && 0 <= j < params[i].len() ==> #[trigger] params[i][j]
                    != ','
        }),
{
    let t = trim_text(line);
    lemma_find_last_props(t, '*');
    let star = find_last(t, '*')->Some_0;
    let payload = trim_text(t.take(star));
    let fields = split_text(payload, ',');
    lemma_split_text_len(payload, ',');
    lemma_split_pieces_free(payload, ',');
    let intro = fields[0];
    let sender = intro.take(3);
    let message = intro.skip(3);
    let params = fields.drop_first();
    assert(forall|j: int| 0 <= j < sender.len() ==> sender[j] == intro[j]);
    assert(forall|j: int| 0 <= j < message.len() ==> message[j] == intro[j + 3]);
    assert(forall|i: int, j: int|
        0 <= i < params.len() && 0 <= j < params[i].len() ==> params[i][j] == fields[i + 1][j]);
}

/// Framing then serializing reproduces an equivalent canonical line: for
/// any line whose shape frames successfully and whose stated checksum
/// matches the recomputed one, serialization succeeds with the canonical
/// wire text, and framing that canonical text yields exactly the same
/// sender, message identifier, parameters and checksum.  One
/// canonicalization pass is thus idempotent.
pub proof fn lemma_parse_serialize_round_trip(line: Seq<char>)
    requires
        parse_parts(line) is Ok,
        parse_parts(line)->Ok_0.3 == checksum_of(
            parse_parts(line)->Ok_0.0,
            parse_parts(line)->Ok_0.1,
            parse_parts(line)->Ok_0.2,
        ),
    ensures
        serialize_parts(
            parse_parts(line)->Ok_0.0,
            parse_parts(line)->Ok_0.1,
            parse_parts(line)->Ok_0.2,
            parse_parts(line)->Ok_0.3,
        ) == Some(
            wire_text(
                parse_parts(line)->Ok_0.0,
                parse_parts(line)->Ok_0.1,
                parse_parts(line)->Ok_0.2,
                parse_parts(line)->Ok_0.3,
            ),
        ),
        parse_parts(
            wire_text(
                parse_parts(line)->Ok_0.0,
                parse_parts(line)->Ok_0.1,
                parse_parts(line)->Ok_0.2,
                parse_parts(line)->Ok_0.3,
            ),
        ) == parse_parts(line),
{
    let t = trim_text(line);
    lemma_find_last_props(t, '*');
    let star = find_last(t, '*')->Some_0;
    let payload = trim_text(t.take(star));
    let fields = split_text(payload, ',');
    lemma_split_text_len(payload, ',');
    let intro = fields[0];
    let sdr = intro.take(3);
    let msg = intro.skip(3);
    let params = fields.drop_first();
    let cs = parse_parts(line)->Ok_0.3;
    let w = wire_text(sdr, msg, params, cs);

    // The rebuilt payload is the original payload, joined back piecewise.
    assert(sdr + msg =~= intro);
    assert(seq![intro] + params =~= fields);
    lemma_join_split(payload, ',');
    assert(w =~= payload + seq!['*'] + hex_two(cs));

    // Neither the hex digits nor the payload ends carry whitespace or `*`.
    assert(cs / 16 < 16 && cs % 16 < 16) by (bit_vector);
    lemma_hex_upper_plain(cs / 16);
    lemma_hex_upper_plain(cs % 16);
    assert(forall|i: int| 0 <= i < hex_two(cs).len() ==> hex_two(cs)[i] != '*');
    lemma_trim_text_ends(t.take(star));

    // The canonical line needs no trimming.
    assert(w[0] == payload[0]);
    assert(w.last() == hex_two(cs)[1]);
    lemma_trim_noop(w);

    // Its last `*` is the checksum delimiter.
    lemma_find_last_mark(payload, hex_two(cs), '*');
    assert(find_last(w, '*') == Some(payload.len() as int));

    // The text on either side of it is the payload and the checksum text.
    assert(w.take(payload.len() as int) =~= payload);
    lemma_trim_noop(payload);
    assert(w.skip(payload.len() as int + 1) =~= hex_two(cs));
    lemma_checksum_text_round_trip(cs);
}

/// ASCII upper-casing of one character.
pub open spec fn upper_char(c: char) -> char {
    match c {
        'a' => 'A',
        'b' => 'B',
        'c' => 'C',
        'd' => 'D',
        'e' => 'E',
        'f' => 'F',
        'g' => 'G',
        'h' => 'H',
        'i' => 'I',
        'j' => 'J',
        'k' => 'K',
        'l' => 'L',
        'm' => 'M',
        'n' => 'N',
        'o' => 'O',
        'p' => 'P',
        'q' => 'Q',
        'r' => 'R',
        's' => 'S',
        't' => 'T',
        'u' => 'U',
        'v' => 'V',
        'w' => 'W',
        'x' => 'X',
        'y' => 'Y',
        'z' => 'Z',
        _ => c,
    }
}

/// ASCII upper-casing of a text, character by character.
pub open spec fn upper_text(s: Seq<char>) -> Seq<char> {
    Seq::new(s.len(), |i: int| upper_char(s[i]))
}

/// ASCII upper-casing of one character.
pub fn upper_char_of(c: char) -> (r: char)
    ensures
        r == upper_char(c),
{
    match c {
        'a' => 'A',
        'b' => 'B',
        'c' => 'C',
        'd' => 'D',
        'e' => 'E',
        'f' => 'F',
        'g' => 'G',
        'h' => 'H',
        'i' => 'I',
        'j' => 'J',
        'k' => 'K',
        'l' => 'L',
        'm' => 'M',
        'n' => 'N',
        'o' => 'O',
        'p' => 'P',
        'q' => 'Q',
        'r' => 'R',
        's' => 'S',
        't' => 'T',
        'u' => 'U',
        'v' => 'V',
        'w' => 'W',
        'x' => 'X',
        'y' => 'Y',
        'z' => 'Z',
        _ => c,
    }
}

/// Whether `s`, upper-cased, is exactly the three characters given.
pub fn matches_code(s: &str, c0: char, c1: char, c2: char) -> (r: bool)
    ensures
        r == (upper_text(s@) == seq![c0, c1, c2]),
{
    let len = s.unicode_len();
    if len != 3 {
        proof {
            assert(upper_text(s@).len() == s@.len());
        }
        return false;
    }
    let a = upper_char_of(s.get_char(0));
    let b = upper_char_of(s.get_char(1));
    let c = upper_char_of(s.get_char(2));
    proof {
        assert(upper_text(s@) =~= seq![upper_char(s@[0]), upper_char(s@[1]), upper_char(s@[2])]);
        if a == c0 && b == c1 && c == c2 {
            assert(upper_text(s@) =~= seq![c0, c1, c2]);
        } else {
            assert(seq![c0, c1, c2][0] == c0 && seq![c0, c1, c2][1] == c1 && seq![c0, c1, c2][2]
                == c2);
        }
    }
    a == c0 && b == c1 && c == c2
}

/// Joining the pieces of a split restores the original text exactly.
pub proof fn lemma_join_split(s: Seq<char>, sep: char)
    ensures
        join_text(split_text(s, sep), sep) == s,
    decreases s.len(),
{
    lemma_find_first_props(s, sep);
    match find_first(s, sep) {
        None => {},
        Some(j) => {
            let rest = s.skip(j + 1);
            lemma_join_split(rest, sep);
            lemma_split_text_len(rest, sep);
            let pieces = seq![s.take(j)] + split_text(rest, sep);
            assert(pieces.drop_first() =~= split_text(rest, sep));
            assert(join_text(pieces, sep) == s.take(j) + seq![sep] + join_text(
                split_text(rest, sep),
                sep,
            ));
            assert(s.take(j) + seq![sep] + rest =~= s);
        },
    }
}

/// The byte a character contributes to the checksum: the low eight bits of
/// its code point.  For the ASCII characters of the wire format this is the
/// character itself.
pub open spec fn char_byte(c: char) -> u8 {
    (c as u32 % 256) as u8
}

/// XOR-fold of the bytes of a character sequence.
pub open spec fn xor_chars(s: Seq<char>) -> u8
    decreases s.len(),
{
    if s.len() == 0 {
        0u8
    } else {
        xor_chars(s.drop_last()) ^ char_byte(s.last())
    }
}

/// XOR-fold over a sequence of fields, in field order.
pub open spec fn xor_fields(fields: Seq<Seq<char>>) -> u8
    decreases fields.len(),
{
    if fields.len() == 0 {
        0u8
    } else {
        xor_fields(fields.drop_last()) ^ xor_chars(fields.last())
    }
}

/// The checksum of a framed sentence: every byte of the sender, the message
/// identifier and each parameter, XOR-folded in order.  Commas and the `*`
/// delimiter are not included.
pub open spec fn checksum_of(sender: Seq<char>, message: Seq<char>, params: Seq<Seq<char>>) -> u8 {
    xor_chars(sender) ^ xor_chars(message) ^ xor_fields(params)
}

pub proof fn lemma_xor_zero(a: u8)
    ensures
        a ^ 0u8 == a,
        0u8 ^ a == a,
{
    assert(a ^ 0u8 == a && 0u8 ^ a == a) by (bit_vector);
}

pub proof fn lemma_xor_assoc(a: u8, b: u8, c: u8)
    ensures
        (a ^ b) ^ c == a ^ (b ^ c),
{
    assert((a ^ b) ^ c == a ^ (b ^ c)) by (bit_vector);
}

pub proof fn lemma_xor_chars_push(s: Seq<char>, c: char)
    ensures
        xor_chars(s.push(c)) == xor_chars(s) ^ char_byte(c),
{
    assert(s.push(c).drop_last() =~= s);
    assert(s.push(c).last() == c);
}

pub proof fn lemma_xor_fields_push(fields: Seq<Seq<char>>, f: Seq<char>)
    ensures
        xor_fields(fields.push(f)) == xor_fields(fields) ^ xor_chars(f),
{
    assert(fields.push(f).drop_last() =~= fields);
    assert(fields.push(f).last() == f);
}

} // verus!
