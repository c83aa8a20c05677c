//! Percent-encoding of the keys and values of a query string.
//!
//! A component is encoded byte by byte from its UTF-8 form: the unreserved characters of
//! RFC 3986 stay as they are, every other byte becomes `%` and two upper case hexadecimal
//! digits. Decoding also reads `+` as a space.

use std::borrow::Cow;
use vstd::prelude::*;
use vstd::string::*;
use vstd::utf8::*;

verus! {

/// ASCII letters and digits.
pub open spec fn is_alphanumeric(b: u8) -> bool {
    ||| 0x30 <= b <= 0x39
    ||| 0x41 <= b <= 0x5a
    ||| 0x61 <= b <= 0x7a
}

/// The four unreserved characters besides letters and digits: `-`, `.`, `_` and `~`.
pub open spec fn is_mark(b: u8) -> bool {
    b == 0x2d || b == 0x2e || b == 0x5f || b == 0x7e
}

/// The bytes that a query component keeps as they are.
pub open spec fn is_unreserved(b: u8) -> bool {
    is_alphanumeric(b) || is_mark(b)
}

/// The upper case hexadecimal digit of a number below sixteen.
pub open spec fn hex_upper(n: u8) -> char {
    if n < 10 {
        (0x30 + n) as char
    } else {
        (0x41 + n - 10) as char
    }
}

/// `%` and the two hexadecimal digits of a byte.
pub open spec fn escape(b: u8) -> Seq<char> {
    seq!['%', hex_upper(b / 16), hex_upper(b % 16)]
}

/// Whether a byte is an ASCII hexadecimal digit, of either case.
pub open spec fn is_hex_digit(b: u8) -> bool {
    ||| 0x30 <= b <= 0x39
    ||| 0x41 <= b <= 0x46
    ||| 0x61 <= b <= 0x66
}

/// The number that a hexadecimal digit stands for.
pub open spec fn hex_value(b: u8) -> int {
    if b <= 0x39 {
        b - 0x30
    } else if b <= 0x46 {
        b - 0x41 + 10
    } else {
        b - 0x61 + 10
    }
}

/// The bytes in percent-encoding, where `kept` says which of them need no escape.
pub open spec fn percent_encoded(bytes: Seq<u8>, kept: spec_fn(u8) -> bool) -> Seq<char>
    decreases bytes.len(),
{
    if bytes.len() == 0 {
        Seq::empty()
    } else {
        (if kept(bytes[0]) {
            seq![bytes[0] as char]
        } else {
            escape(bytes[0])
        }) + percent_encoded(bytes.skip(1), kept)
    }
}

/// The bytes that percent-encoded bytes stand for. A `%` without two hexadecimal digits
/// behind it stands for itself.
pub open spec fn percent_decoded(bytes: Seq<u8>) -> Seq<u8>
    decreases bytes.len(),
{
    if bytes.len() == 0 {
        Seq::empty()
    } else if bytes[0] == 0x25 && bytes.len() >= 3 && is_hex_digit(bytes[1]) && is_hex_digit(
        bytes[2],
    ) {
        seq![(16 * hex_value(bytes[1]) + hex_value(bytes[2])) as u8] + percent_decoded(
            bytes.skip(3),
        )
    } else {
        seq![bytes[0]] + percent_decoded(bytes.skip(1))
    }
}

/// The text that `String::from_utf8_lossy` makes of bytes that are not UTF-8.
pub uninterp spec fn replaced_invalid(bytes: Seq<u8>) -> Seq<char>;

/// The text of bytes: what they encode in UTF-8 where they are UTF-8, and otherwise what is
/// left with replacement characters in place of the invalid parts.
pub open spec fn lossy_text(bytes: Seq<u8>) -> Seq<char> {
    if valid_utf8(bytes) {
        decode_utf8(bytes)
    } else {
        replaced_invalid(bytes)
    }
}

/// The text with a space for each `+`.
pub open spec fn plus_as_space(s: Seq<char>) -> Seq<char> {
    s.map_values(
        |c: char|
            if c == '+' {
                ' '
            } else {
                c
            },
    )
}

/// Bytes in the percent-encoding of query components.
pub open spec fn encoded_bytes(bytes: Seq<u8>) -> Seq<char> {
    percent_encoded(bytes, |b: u8| is_unreserved(b))
}

/// A query component in its encoded form.
pub open spec fn encoded(s: Seq<char>) -> Seq<char> {
    encoded_bytes(encode_utf8(s))
}

/// What an encoded query component stands for.
pub open spec fn decoded(s: Seq<char>) -> Seq<char> {
    lossy_text(percent_decoded(encode_utf8(plus_as_space(s))))
}

/// `percent_encoding::utf8_percent_encode` with the set `NON_ALPHANUMERIC`, written to a
/// string: each byte of the UTF-8 form that is an ASCII letter or digit stands for itself,
/// every other byte is escaped.
#[verifier::external_body]
fn encode_non_alphanumeric(s: &str) -> (r: String)
    ensures
        r@ == percent_encoded(encode_utf8(s@), |b: u8| is_alphanumeric(b)),
{
    percent_encoding::utf8_percent_encode(s, percent_encoding::NON_ALPHANUMERIC).to_string()
}

/// `percent_encoding::percent_decode_str`, then `decode_utf8_lossy` on its result: each `%`
/// with two hexadecimal digits behind it becomes one byte, and the bytes are read as UTF-8,
/// with replacement characters for what is not UTF-8. Which text is left of bytes that are
/// not UTF-8 has only a name here.
#[verifier::external_body]
fn decode_lossy(s: &str) -> (r: String)
    ensures
        valid_utf8(percent_decoded(encode_utf8(s@))) ==> r@ == decode_utf8(
            percent_decoded(encode_utf8(s@)),
        ),
        !valid_utf8(percent_decoded(encode_utf8(s@))) ==> r@ == replaced_invalid(
            percent_decoded(encode_utf8(s@)),
        ),
{
    percent_encoding::percent_decode_str(s).decode_utf8_lossy().into_owned()
}

/// `String::push`: the character goes to the end of the string.
pub assume_specification[ String::push ](s: &mut String, c: char)
    ensures
        final(s)@ == old(s)@.push(c),
;

proof fn lemma_encode_utf8_push(s: Seq<char>, c: char)
    ensures
        encode_utf8(s.push(c)) == encode_utf8(s) + encode_scalar(c as u32),
    decreases s.len(),
{
    reveal_with_fuel(encode_utf8, 2);
    if s.len() == 0 {
        assert(s.push(c).drop_first() =~= s);
        assert(encode_utf8(s.push(c)) =~= encode_utf8(s) + encode_scalar(c as u32));
    } else {
        lemma_encode_utf8_push(s.drop_first(), c);
        assert(s.push(c).drop_first() =~= s.drop_first().push(c));
        assert(encode_utf8(s.push(c)) =~= encode_utf8(s) + encode_scalar(c as u32));
    }
}

/// UTF-8 is encoded piece by piece.
pub proof fn lemma_encode_utf8_concat(a: Seq<char>, b: Seq<char>)
    ensures
        encode_utf8(a + b) == encode_utf8(a) + encode_utf8(b),
    decreases b.len(),
{
    if b.len() == 0 {
        assert(a + b =~= a);
        assert(encode_utf8(a) + encode_utf8(b) =~= encode_utf8(a));
    } else {
        lemma_encode_utf8_concat(a, b.drop_last());
        lemma_encode_utf8_push(b.drop_last(), b.last());
        lemma_encode_utf8_push(a + b.drop_last(), b.last());
        assert(b.drop_last().push(b.last()) =~= b);
        assert((a + b.drop_last()).push(b.last()) =~= a + b);
        assert(encode_utf8(a + b) =~= encode_utf8(a) + encode_utf8(b));
    }
}

/// Percent-encoding goes piece by piece.
proof fn lemma_percent_encoded_concat(a: Seq<u8>, b: Seq<u8>, kept: spec_fn(u8) -> bool)
    ensures
        percent_encoded(a + b, kept) == percent_encoded(a, kept) + percent_encoded(b, kept),
    decreases a.len(),
{
    if a.len() == 0 {
        assert(a + b =~= b);
        assert(percent_encoded(a, kept) + percent_encoded(b, kept) =~= percent_encoded(b, kept));
    } else {
        lemma_percent_encoded_concat(a.skip(1), b, kept);
        assert((a + b).skip(1) =~= a.skip(1) + b);
        assert(percent_encoded(a + b, kept) =~= percent_encoded(a, kept) + percent_encoded(
            b,
            kept,
        ));
    }
}

/// Encoding a component goes piece by piece.
proof fn lemma_encoded_concat(a: Seq<char>, b: Seq<char>)
    ensures
        encoded(a + b) == encoded(a) + encoded(b),
{
    lemma_encode_utf8_concat(a, b);
    lemma_percent_encoded_concat(encode_utf8(a), encode_utf8(b), |b: u8| is_unreserved(b));
}

/// A character below 128 has its own number as its one byte; the bytes of any other
/// character are 128 or more.
proof fn lemma_scalar_bytes(c: char)
    ensures
        (c as u32) < 0x80 ==> encode_scalar(c as u32) == seq![c as u8],
        (c as u32) >= 0x80 ==> forall|i: int|
            0 <= i < encode_scalar(c as u32).len() ==> (#[trigger] encode_scalar(c as u32)[i])
                >= 0x80,
        !is_mark_char(c) ==> forall|i: int|
            0 <= i < encode_scalar(c as u32).len() ==> !is_mark(
                #[trigger] encode_scalar(c as u32)[i],
            ),
{
    let n = c as u32;
    assert(n < 0x80 ==> (n & 0x7F) as u8 == n as u8) by (bit_vector);
    assert((0xC0u8 | ((n >> 6) & 0x1F) as u8) >= 0x80 && (0xE0u8 | ((n >> 12) & 0x0F) as u8) >= 0x80
        && (0xF0u8 | ((n >> 18) & 0x7) as u8) >= 0x80 && (0x80u8 | (n & 0x3F) as u8) >= 0x80 && (
    0x80u8 | ((n >> 6) & 0x3F) as u8) >= 0x80 && (0x80u8 | ((n >> 12) & 0x3F) as u8) >= 0x80)
        by (bit_vector);
    if n < 0x80 {
        assert(encode_scalar(n) =~= seq![c as u8]);
    }
}

spec fn is_mark_char(c: char) -> bool {
    c == '-' || c == '.' || c == '_' || c == '~'
}

/// Where no mark occurs, keeping marks makes no difference.
proof fn lemma_no_mark(s: Seq<char>)
    requires
        forall|i: int| 0 <= i < s.len() ==> !is_mark_char(#[trigger] s[i]),
    ensures
        percent_encoded(encode_utf8(s), |b: u8| is_alphanumeric(b)) == encoded(s),
    decreases s.len(),
{
    if s.len() > 0 {
        let rest = s.drop_last();
        let c = s.last();
        let bytes = encode_scalar(c as u32);
        lemma_no_mark(rest);
        lemma_encode_utf8_push(rest, c);
        assert(rest.push(c) =~= s);
        lemma_scalar_bytes(c);
        assert(!is_mark_char(s[s.len() - 1]));
        lemma_no_mark_bytes(bytes);
        lemma_percent_encoded_concat(encode_utf8(rest), bytes, |b: u8| is_alphanumeric(b));
        lemma_percent_encoded_concat(encode_utf8(rest), bytes, |b: u8| is_unreserved(b));
    }
}

proof fn lemma_no_mark_bytes(bytes: Seq<u8>)
    requires
        forall|i: int| 0 <= i < bytes.len() ==> !is_mark(#[trigger] bytes[i]),
    ensures
        percent_encoded(bytes, |b: u8| is_alphanumeric(b)) == percent_encoded(
            bytes,
            |b: u8| is_unreserved(b),
        ),
    decreases bytes.len(),
{
    if bytes.len() > 0 {
        assert forall|i: int| 0 <= i < bytes.skip(1).len() implies !is_mark(
            #[trigger] bytes.skip(1)[i],
        ) by {
            assert(bytes.skip(1)[i] == bytes[i + 1]);
        }
        lemma_no_mark_bytes(bytes.skip(1));
    }
}

/// A mark stands for itself.
proof fn lemma_encoded_mark(c: char)
    requires
        is_mark_char(c),
    ensures
        encoded(seq![c]) == seq![c],
{
    lemma_scalar_bytes(c);
    let none = Seq::<char>::empty();
    lemma_encode_utf8_push(none, c);
    assert(none.push(c) =~= seq![c]);
    let bytes = encode_utf8(seq![c]);
    assert(bytes =~= seq![c as u8]);
    reveal_with_fuel(percent_encoded, 2);
    assert(bytes.skip(1) =~= Seq::<u8>::empty());
    assert((c as u8) as char == c);
    assert(encoded(seq![c]) =~= seq![c]);
}

/// Percent-encodes one key or value of a query string.
pub fn encode_component(s: &str) -> (r: String)
    ensures
        r@ == encoded(s@),
{
    let mut out = String::new();
    let mut run = String::new();
    let ghost mut done: Seq<char> = Seq::empty();
    assert(out@ =~= encoded(done));
    for c in it: s.chars()
        invariant
            it.seq() == s@,
            done + run@ =~= s@.take(it.index() as int),
            out@ == encoded(done),
            forall|i: int| 0 <= i < run@.len() ==> !is_mark_char(#[trigger] run@[i]),
    {
        assert(s@.take(it.index() + 1) =~= s@.take(it.index() as int).push(c));
        if c == '-' || c == '.' || c == '_' || c == '~' {
            let encoded_run = encode_non_alphanumeric(run.as_str());
            proof {
                lemma_no_mark(run@);
                lemma_encoded_concat(done, run@);
                lemma_encoded_concat(done + run@, seq![c]);
                lemma_encoded_mark(c);
            }
            out.append(encoded_run.as_str());
            out.push(c);
            proof {
                done = done + run@ + seq![c];
                assert(out@ =~= encoded(done));
            }
            run = String::new();
        } else {
            run.push(c);
        }
    }
    assert(s@.take(s@.len() as int) =~= s@);
    let encoded_run = encode_non_alphanumeric(run.as_str());
    proof {
        lemma_no_mark(run@);
        lemma_encoded_concat(done, run@);
    }
    out.append(encoded_run.as_str());
    out
}

/// A byte below 128 occurs in the UTF-8 form of a text only where its character does.
proof fn lemma_ascii_byte_is_char(s: Seq<char>, b: u8)
    requires
        b < 0x80,
        forall|i: int| 0 <= i < s.len() ==> #[trigger] s[i] != b as char,
    ensures
        forall|i: int| 0 <= i < encode_utf8(s).len() ==> #[trigger] encode_utf8(s)[i] != b,
    decreases s.len(),
{
    if s.len() > 0 {
        let rest = s.drop_last();
        let c = s.last();
        lemma_ascii_byte_is_char(rest, b);
        lemma_encode_utf8_push(rest, c);
        assert(rest.push(c) =~= s);
        lemma_other_char_has_not_byte(c, b);
    }
}

proof fn lemma_other_char_has_not_byte(c: char, b: u8)
    requires
        b < 0x80,
        c != b as char,
    ensures
        forall|i: int|
            0 <= i < encode_scalar(c as u32).len() ==> #[trigger] encode_scalar(c as u32)[i] != b,
{
    lemma_scalar_bytes(c);
}

/// Bytes without a `%` stand for themselves.
proof fn lemma_percent_decoded_plain(bytes: Seq<u8>)
    requires
        forall|i: int| 0 <= i < bytes.len() ==> #[trigger] bytes[i] != 0x25,
    ensures
        percent_decoded(bytes) == bytes,
    decreases bytes.len(),
{
    if bytes.len() > 0 {
        let rest = bytes.skip(1);
        assert forall|i: int| 0 <= i < rest.len() implies #[trigger] rest[i] != 0x25 by {
            assert(rest[i] == bytes[i + 1]);
        }
        lemma_percent_decoded_plain(rest);
        assert(bytes[0] != 0x25);
        assert(percent_decoded(bytes) =~= bytes);
    } else {
        assert(percent_decoded(bytes) =~= bytes);
    }
}

/// A component with neither `%` nor `+` in it stands for itself.
pub proof fn lemma_decoded_plain(s: Seq<char>)
    requires
        forall|i: int| 0 <= i < s.len() ==> #[trigger] s[i] != '%' && s[i] != '+',
    ensures
        decoded(s) == s,
{
    assert(plus_as_space(s) =~= s);
    lemma_ascii_byte_is_char(s, 0x25u8);
    lemma_percent_decoded_plain(encode_utf8(s));
    encode_utf8_valid_utf8(s);
    encode_utf8_decode_utf8(s);
}

/// Whether a component holds an escape or a `+`.
fn has_escape(raw: &str) -> (r: bool)
    ensures
        r == !(forall|i: int| 0 <= i < raw@.len() ==> #[trigger] raw@[i] != '%' && raw@[i] != '+'),
{
    for c in it: raw.chars()
        invariant
            it.seq() == raw@,
            forall|i: int| 0 <= i < it.index() ==> #[trigger] raw@[i] != '%' && raw@[i] != '+',
    {
        assert(raw@[it.index() as int] == c);
        if c == '%' || c == '+' {
            return true;
        }
    }
    false
}

/// Decodes one key or value of a query string: `%XX` escapes, and `+` as a space. The text is
/// borrowed exactly where it holds neither.
pub fn decode_query_component<'a>(raw: &'a str) -> (r: Cow<'a, str>)
    ensures
        r@ == decoded(raw@),
        r is Borrowed <==> forall|i: int|
            0 <= i < raw@.len() ==> #[trigger] raw@[i] != '%' && raw@[i] != '+',
{
    if !has_escape(raw) {
        proof {
            lemma_decoded_plain(raw@);
        }
        return Cow::Borrowed(raw);
    }
    let mut spaced = String::new();
    for c in it: raw.chars()
        invariant
            it.seq() == raw@,
            spaced@ =~= plus_as_space(raw@.take(it.index() as int)),
    {
        assert(raw@[it.index() as int] == c);
        if c == '+' {
            spaced.push(' ');
        } else {
            spaced.push(c);
        }
    }
    assert(raw@.take(raw@.len() as int) =~= raw@);
    Cow::Owned(decode_lossy(spaced.as_str()))
}

/// The characters that an encoded component is made of.
pub open spec fn is_encoded_char(c: char) -> bool {
    (c as u32) < 0x80 && (is_unreserved(c as u8) || c == '%')
}

proof fn lemma_percent_encoded_chars(bytes: Seq<u8>)
    ensures
        forall|i: int|
            0 <= i < encoded_bytes(bytes).len() ==> is_encoded_char(
                #[trigger] encoded_bytes(bytes)[i],
            ),
    decreases bytes.len(),
{
    if bytes.len() > 0 {
        lemma_percent_encoded_chars(bytes.skip(1));
        lemma_escape_digits(bytes[0]);
        let head = if is_unreserved(bytes[0]) {
            seq![bytes[0] as char]
        } else {
            escape(bytes[0])
        };
        let rest = encoded_bytes(bytes.skip(1));
        let whole = encoded_bytes(bytes);
        assert(whole == head + rest);
        assert forall|i: int| 0 <= i < whole.len() implies is_encoded_char(#[trigger] whole[i]) by {
            if i < head.len() {
                assert(whole[i] == head[i]);
            } else {
                assert(whole[i] == rest[i - head.len()]);
            }
        }
    }
}

/// The two digits of an escape are hexadecimal digits that give the byte back.
proof fn lemma_escape_digits(b: u8)
    ensures
        is_encoded_char(hex_upper(b / 16)),
        is_encoded_char(hex_upper(b % 16)),
        is_hex_digit(hex_upper(b / 16) as u8),
        is_hex_digit(hex_upper(b % 16) as u8),
        16 * hex_value(hex_upper(b / 16) as u8) + hex_value(hex_upper(b % 16) as u8) == b,
{
    assert(b / 16 < 16);
    assert(b % 16 < 16);
}

/// An encoded component holds only unreserved characters and `%`, so that neither `&` nor
/// `=` nor `+` occurs in it.
pub proof fn lemma_encoded_chars(s: Seq<char>)
    ensures
        forall|i: int| 0 <= i < encoded(s).len() ==> is_encoded_char(#[trigger] encoded(s)[i]),
        !encoded(s).contains('&'),
        !encoded(s).contains('='),
        !encoded(s).contains('+'),
{
    lemma_percent_encoded_chars(encode_utf8(s));
}

spec fn ascii_bytes(s: Seq<char>) -> Seq<u8> {
    s.map_values(|c: char| c as u8)
}

proof fn lemma_percent_decoded_encoded(bytes: Seq<u8>)
    ensures
        percent_decoded(ascii_bytes(encoded_bytes(bytes))) == bytes,
    decreases bytes.len(),
{
    let whole = encoded_bytes(bytes);
    if bytes.len() == 0 {
        assert(ascii_bytes(whole) =~= Seq::<u8>::empty());
        assert(percent_decoded(ascii_bytes(whole)) =~= bytes);
    } else {
        let b = bytes[0];
        let rest = encoded_bytes(bytes.skip(1));
        lemma_percent_decoded_encoded(bytes.skip(1));
        lemma_escape_digits(b);
        let a = ascii_bytes(whole);
        if is_unreserved(b) {
            assert(whole =~= seq![b as char] + rest);
            assert(a[0] == b);
            assert(a.skip(1) =~= ascii_bytes(rest));
        } else {
            assert(whole =~= escape(b) + rest);
            assert(a[0] == 0x25u8 && a[1] == hex_upper(b / 16) as u8 && a[2] == hex_upper(b % 16) as u8);
            assert(a.skip(3) =~= ascii_bytes(rest));
        }
        assert(percent_decoded(a) =~= seq![b] + bytes.skip(1));
        assert(seq![b] + bytes.skip(1) =~= bytes);
    }
}

proof fn lemma_encoded_char_is_ascii(c: char)
    requires
        is_encoded_char(c),
    ensures
        '\0' <= c <= '\u{7f}',
{
}

/// Decoding undoes encoding, for every text.
pub proof fn lemma_decoded_encoded(s: Seq<char>)
    ensures
        decoded(encoded(s)) == s,
{
    let e = encoded(s);
    lemma_encoded_chars(s);
    assert(plus_as_space(e) =~= e);
    assert forall|i: int| 0 <= i < e.len() implies '\0' <= #[trigger] e[i] <= '\u{7f}' by {
        lemma_encoded_char_is_ascii(e[i]);
    }
    is_ascii_chars_encode_utf8(e);
    assert(encode_utf8(e) =~= ascii_bytes(e));
    lemma_percent_decoded_encoded(encode_utf8(s));
    encode_utf8_valid_utf8(s);
    encode_utf8_decode_utf8(s);
}

/// Each `+` becomes a space, wherever it stands, and every other character stays where and what
/// it is.
pub proof fn lemma_plus_places(s: Seq<char>, i: int)
    requires
        0 <= i < s.len(),
    ensures
        plus_as_space(s).len() == s.len(),
        s[i] == '+' ==> plus_as_space(s)[i] == ' ',
        s[i] != '+' ==> plus_as_space(s)[i] == s[i],
{
}

/// A component without escapes is read character by character: a space for each `+`, and every
/// other character as it is.
pub proof fn lemma_decoded_without_escapes(s: Seq<char>)
    requires
        forall|i: int| 0 <= i < s.len() ==> #[trigger] s[i] != '%',
    ensures
        decoded(s).len() == s.len(),
        forall|i: int|
            0 <= i < s.len() ==> #[trigger] decoded(s)[i] == (if s[i] == '+' {
                ' '
            } else {
                s[i]
            }),
{
    let spaced = plus_as_space(s);
    assert forall|i: int| 0 <= i < spaced.len() implies #[trigger] spaced[i] != '%' by {
        assert(s[i] != '%');
    }
    lemma_ascii_byte_is_char(spaced, 0x25u8);
    lemma_percent_decoded_plain(encode_utf8(spaced));
    encode_utf8_valid_utf8(spaced);
    encode_utf8_decode_utf8(spaced);
}

/// A `+` between two plain texts reads as a space between them.
pub proof fn lemma_decoded_plus_between(a: Seq<char>, b: Seq<char>)
    requires
        forall|i: int| 0 <= i < a.len() ==> #[trigger] a[i] != '%' && a[i] != '+',
        forall|i: int| 0 <= i < b.len() ==> #[trigger] b[i] != '%' && b[i] != '+',
    ensures
        decoded(a + seq!['+'] + b) == a + seq![' '] + b,
{
    let s = a + seq!['+'] + b;
    assert forall|i: int| 0 <= i < s.len() implies #[trigger] s[i] != '%' by {
        if i < a.len() {
            assert(s[i] == a[i]);
        } else if i > a.len() {
            assert(s[i] == b[i - a.len() - 1]);
        }
    }
    lemma_decoded_without_escapes(s);
    assert(decoded(s) =~= a + seq![' '] + b);
}

/// An escape stands for its byte, in front of whatever follows: a `%`, then the upper and the
/// lower half of the byte as digits of either case.
pub proof fn lemma_escape_stands_for_its_byte(
    b: u8,
    upper: u8,
    lower: u8,
    rest: Seq<u8>,
)
    requires
        upper == (if b / 16 < 10 {
            48 + b / 16
        } else {
            55 + b / 16
        }) || b / 16 >= 10 && upper == 87 + b / 16,
        lower == (if b % 16 < 10 {
            48 + b % 16
        } else {
            55 + b % 16
        }) || b % 16 >= 10 && lower == 87 + b % 16,
    ensures
        percent_decoded(seq![0x25, upper, lower] + rest) == seq![b] + percent_decoded(rest),
{
    let whole = seq![0x25, upper, lower] + rest;
    assert(whole.skip(3) =~= rest);
    assert(16 * hex_value(upper) + hex_value(lower) == b);
}

/// Every byte but a `%` stands for itself, in front of whatever follows, and so does a `%` with
/// fewer than two bytes behind it or with one of them no digit.
pub proof fn lemma_other_bytes_stand_for_themselves(b: u8, rest: Seq<u8>)
    requires
        b != 0x25 || rest.len() < 2 || !(48 <= rest[0] <= 57 || 65 <= rest[0] <= 70 || 97 <= rest[0]
            <= 102) || !(48 <= rest[1] <= 57 || 65 <= rest[1] <= 70 || 97 <= rest[1] <= 102),
    ensures
        percent_decoded(seq![b] + rest) == seq![b] + percent_decoded(rest),
        percent_decoded(Seq::<u8>::empty()).len() == 0,
{
    let whole = seq![b] + rest;
    assert(whole.skip(1) =~= rest);
    assert(rest.len() >= 2 ==> whole[1] == rest[0] && whole[2] == rest[1]);
}

/// Encoding goes byte by byte: letters, digits and `-`, `.`, `_`, `~` stay, every other byte
/// becomes a `%` and its two halves as upper case digits.
pub proof fn lemma_encoded_byte(b: u8, rest: Seq<u8>)
    ensures
        ({
            let kept = 65 <= b <= 90 || 97 <= b <= 122 || 48 <= b <= 57 || b == 45 || b == 46 || b
                == 95 || b == 126;
            let whole = encoded_bytes(seq![b] + rest);
            &&& kept ==> whole == seq![b as char] + encoded_bytes(rest)
            &&& !kept ==> {
                &&& whole.len() == 3 + encoded_bytes(rest).len()
                &&& whole[0] == '%'
                &&& whole[1] as u32 == (if b / 16 < 10 {
                    48 + b / 16
                } else {
                    55 + b / 16
                })
                &&& whole[2] as u32 == (if b % 16 < 10 {
                    48 + b % 16
                } else {
                    55 + b % 16
                })
                &&& whole.skip(3) == encoded_bytes(rest)
            }
        }),
        encoded_bytes(Seq::<u8>::empty()).len() == 0,
{
    let bytes = seq![b] + rest;
    let whole = encoded_bytes(bytes);
    assert(bytes.skip(1) =~= rest);
    if !is_unreserved(b) {
        assert(whole =~= escape(b) + encoded_bytes(rest));
        assert(whole.skip(3) =~= encoded_bytes(rest));
        assert(b / 16 < 16 && b % 16 < 16);
    }
}

/// A component is encoded from its UTF-8 form, and one text behind the other is encoded as the
/// one behind the other.
pub proof fn lemma_encoded_pieces(a: Seq<char>, b: Seq<char>)
    ensures
        encoded(a + b) == encoded(a) + encoded(b),
        encoded(a) == encoded_bytes(encode_utf8(a)),
        encoded(Seq::<char>::empty()).len() == 0,
{
    lemma_encoded_concat(a, b);
}

/// What a character of ASCII is encoded as.
pub proof fn lemma_encoded_ascii(c: char)
    requires
        (c as u32) < 0x80,
    ensures
        ({
            let n = c as u32;
            let kept = 'A' <= c <= 'Z' || 'a' <= c <= 'z' || '0' <= c <= '9' || c == '-' || c == '.'
                || c == '_' || c == '~';
            &&& kept ==> encoded(seq![c]) == seq![c]
            &&& !kept ==> {
                &&& encoded(seq![c]).len() == 3
                &&& encoded(seq![c])[0] == '%'
                &&& encoded(seq![c])[1] as u32 == 48 + n / 16
                &&& encoded(seq![c])[2] as u32 == (if n % 16 < 10 {
                    48 + n % 16
                } else {
                    55 + n % 16
                })
            }
        }),
{
    lemma_scalar_bytes(c);
    lemma_encode_utf8_push(Seq::empty(), c);
    assert(Seq::<char>::empty().push(c) =~= seq![c]);
    let b = c as u8;
    let none = Seq::<u8>::empty();
    assert(encode_utf8(seq![c]) =~= seq![b] + none);
    lemma_encoded_byte(b, none);
    assert(encoded(seq![c]) == encoded_bytes(seq![b] + none));
    assert(seq![b as char] + encoded_bytes(none) =~= seq![c]);
}

/// Bytes that are the UTF-8 form of a text are read as that text.
pub proof fn lemma_lossy_text_of_utf8(s: Seq<char>)
    ensures
        lossy_text(encode_utf8(s)) == s,
{
    encode_utf8_valid_utf8(s);
    encode_utf8_decode_utf8(s);
}

proof fn lemma_percent_decoded_behind_plain(plain: Seq<u8>, rest: Seq<u8>)
    requires
        forall|i: int| 0 <= i < plain.len() ==> #[trigger] plain[i] != 0x25,
    ensures
        percent_decoded(plain + rest) == plain + percent_decoded(rest),
    decreases plain.len(),
{
    if plain.len() == 0 {
        assert(plain + rest =~= rest);
        assert(plain + percent_decoded(rest) =~= percent_decoded(rest));
    } else {
        let tail = plain.skip(1);
        assert forall|i: int| 0 <= i < tail.len() implies #[trigger] tail[i] != 0x25 by {
            assert(tail[i] == plain[i + 1]);
        }
        lemma_percent_decoded_behind_plain(tail, rest);
        assert(plain[0] != 0x25);
        assert((plain + rest).skip(1) =~= tail + rest);
        assert(percent_decoded(plain + rest) =~= plain + percent_decoded(rest));
    }
}

proof fn lemma_percent_decoded_encoded_before(bytes: Seq<u8>, rest: Seq<u8>)
    ensures
        percent_decoded(ascii_bytes(encoded_bytes(bytes)) + rest) == bytes + percent_decoded(rest),
    decreases bytes.len(),
{
    let whole = encoded_bytes(bytes);
    if bytes.len() == 0 {
        assert(ascii_bytes(whole) + rest =~= rest);
        assert(bytes + percent_decoded(rest) =~= percent_decoded(rest));
    } else {
        let b = bytes[0];
        let tail = encoded_bytes(bytes.skip(1));
        lemma_percent_decoded_encoded_before(bytes.skip(1), rest);
        lemma_escape_digits(b);
        let a = ascii_bytes(whole) + rest;
        if is_unreserved(b) {
            assert(whole =~= seq![b as char] + tail);
            assert(a[0] == b);
            assert(a.skip(1) =~= ascii_bytes(tail) + rest);
        } else {
            assert(whole =~= escape(b) + tail);
            assert(a[0] == 0x25u8 && a[1] == hex_upper(b / 16) as u8 && a[2] == hex_upper(b % 16) as u8);
            assert(a.skip(3) =~= ascii_bytes(tail) + rest);
        }
        assert(percent_decoded(a) =~= seq![b] + (bytes.skip(1) + percent_decoded(rest)));
        assert(seq![b] + (bytes.skip(1) + percent_decoded(rest)) =~= bytes + percent_decoded(rest));
    }
}

/// An encoded text is read as itself in the middle of any plain text, wherever that is.
pub proof fn lemma_decoded_in_the_middle(a: Seq<char>, text: Seq<char>, b: Seq<char>)
    requires
        forall|i: int| 0 <= i < a.len() ==> #[trigger] a[i] != '%' && a[i] != '+',
        forall|i: int| 0 <= i < b.len() ==> #[trigger] b[i] != '%' && b[i] != '+',
    ensures
        decoded(a + encoded(text) + b) == a + text + b,
{
    let e = encoded(text);
    let s = a + e + b;
    lemma_encoded_chars(text);
    assert forall|i: int| 0 <= i < s.len() implies plus_as_space(s)[i] == #[trigger] s[i] by {
        if i < a.len() {
            assert(s[i] == a[i]);
        } else if i < a.len() + e.len() {
            assert(s[i] == e[i - a.len()]);
            assert(e.contains(e[i - a.len()]));
        } else {
            assert(s[i] == b[i - a.len() - e.len()]);
        }
    }
    assert(plus_as_space(s) =~= s);
    assert forall|i: int| 0 <= i < e.len() implies '\0' <= #[trigger] e[i] <= '\u{7f}' by {
        lemma_encoded_char_is_ascii(e[i]);
    }
    is_ascii_chars_encode_utf8(e);
    assert(encode_utf8(e) =~= ascii_bytes(e));
    lemma_encode_utf8_concat(a + e, b);
    lemma_encode_utf8_concat(a, e);
    lemma_ascii_byte_is_char(a, 0x25u8);
    lemma_ascii_byte_is_char(b, 0x25u8);
    assert(encode_utf8(s) =~= encode_utf8(a) + (encode_utf8(e) + encode_utf8(b)));
    lemma_percent_decoded_behind_plain(encode_utf8(a), encode_utf8(e) + encode_utf8(b));
    lemma_percent_decoded_encoded_before(encode_utf8(text), encode_utf8(b));
    lemma_percent_decoded_plain(encode_utf8(b));
    lemma_encode_utf8_concat(a + text, b);
    lemma_encode_utf8_concat(a, text);
    assert(percent_decoded(encode_utf8(s)) =~= encode_utf8(a + text + b));
    encode_utf8_valid_utf8(a + text + b);
    encode_utf8_decode_utf8(a + text + b);
}

/// Pluses and escapes are read side by side: an encoded text comes out as itself between two
/// texts without escapes, whose every `+` comes out as a space.
pub proof fn lemma_decoded_mixed(a: Seq<char>, text: Seq<char>, b: Seq<char>)
    requires
        forall|i: int| 0 <= i < a.len() ==> #[trigger] a[i] != '%',
        forall|i: int| 0 <= i < b.len() ==> #[trigger] b[i] != '%',
    ensures
        decoded(a + encoded(text) + b) == decoded(a) + text + decoded(b),
        decoded(a + encoded(text) + b).len() == a.len() + text.len() + b.len(),
{
    let x = plus_as_space(a);
    let y = plus_as_space(b);
    let e = encoded(text);
    let s = a + e + b;
    lemma_encoded_chars(text);
    assert forall|i: int| 0 <= i < x.len() implies #[trigger] x[i] != '%' && x[i] != '+' by {
        assert(a[i] != '%');
    }
    assert forall|i: int| 0 <= i < y.len() implies #[trigger] y[i] != '%' && y[i] != '+' by {
        assert(b[i] != '%');
    }
    let t = x + e + y;
    assert forall|i: int| 0 <= i < s.len() implies plus_as_space(s)[i] == #[trigger] t[i] by {
        if a.len() <= i < a.len() + e.len() {
            assert(s[i] == e[i - a.len()]);
            assert(e.contains(e[i - a.len()]));
        } else if i >= a.len() + e.len() {
            assert(s[i] == b[i - a.len() - e.len()]);
        }
    }
    assert(plus_as_space(s) =~= t);
    assert forall|i: int| 0 <= i < t.len() implies plus_as_space(t)[i] == #[trigger] t[i] by {
        if a.len() <= i < a.len() + e.len() {
            assert(t[i] == e[i - a.len()]);
            assert(e.contains(e[i - a.len()]));
        } else if i < a.len() {
            assert(t[i] == x[i]);
        } else {
            assert(t[i] == y[i - a.len() - e.len()]);
        }
    }
    assert(plus_as_space(t) =~= t);
    assert(decoded(s) == decoded(t));
    lemma_decoded_in_the_middle(x, text, y);
    lemma_decoded_without_escapes(a);
    lemma_decoded_without_escapes(b);
    assert(decoded(a) =~= x);
    assert(decoded(b) =~= y);
}

/// A component is read as the text whose UTF-8 form its bytes are, and where they are no UTF-8
/// as what is left of them with replacement characters.
pub proof fn lemma_decoded_is_read_as_utf8(s: Seq<char>, bytes: Seq<u8>, text: Seq<char>)
    requires
        bytes == percent_decoded(encode_utf8(plus_as_space(s))),
    ensures
        bytes == encode_utf8(text) ==> decoded(s) == text,
        !valid_utf8(bytes) ==> decoded(s) == replaced_invalid(bytes),
{
    if bytes == encode_utf8(text) {
        encode_utf8_valid_utf8(text);
        encode_utf8_decode_utf8(text);
    }
}

} // verus!
