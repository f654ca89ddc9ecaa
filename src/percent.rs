//! RFC 3986 percent-encoding as OAuth 1.0a uses it: every byte outside
//! `A-Z a-z 0-9 - . _ ~` becomes `%XX` with upper-case hex digits.

use vstd::prelude::*;
use vstd::utf8::*;
use crate::text::string_of;

verus! {

/// The unreserved bytes, which are written as themselves.
pub open spec fn is_unreserved(b: u8) -> bool {
    ||| (0x41 <= b && b <= 0x5A)
    ||| (0x61 <= b && b <= 0x7A)
    ||| (0x30 <= b && b <= 0x39)
    ||| b == 0x2D
    ||| b == 0x2E
    ||| b == 0x5F
    ||| b == 0x7E
}

/// Upper-case hex digit of a value below 16.
pub open spec fn hex_digit(n: u8) -> char {
    if n < 10 {
        ((n + 0x30) as u8) as char
    } else {
        ((n + 0x37) as u8) as char
    }
}

/// What one byte becomes.
pub open spec fn encode_byte(b: u8) -> Seq<char> {
    if is_unreserved(b) {
        seq![b as char]
    } else {
        seq!['%', hex_digit(b / 16), hex_digit(b % 16)]
    }
}

/// Percent-encoding of a byte sequence.
pub open spec fn encode_bytes(bs: Seq<u8>) -> Seq<char>
    decreases bs.len(),
{
    if bs.len() == 0 {
        seq![]
    } else {
        encode_byte(bs[0]) + encode_bytes(bs.drop_first())
    }
}

/// Percent-encoding of a text: of the bytes of its UTF-8 encoding.
pub open spec fn percent_encoded(s: Seq<char>) -> Seq<char> {
    encode_bytes(encode_utf8(s))
}

/// Whether `c` is a hex digit, in either case.
pub open spec fn is_hex_char(c: char) -> bool {
    ('0' <= c && c <= '9') || ('A' <= c && c <= 'F') || ('a' <= c && c <= 'f')
}

/// Value of a hex digit.
pub open spec fn hex_value(c: char) -> int {
    if '0' <= c && c <= '9' {
        c as int - '0' as int
    } else if 'A' <= c && c <= 'F' {
        c as int - 'A' as int + 10
    } else {
        c as int - 'a' as int + 10
    }
}

/// Standard percent-decoding: `%` followed by two hex digits is one byte,
/// any other character stands for its own UTF-8 bytes.
pub open spec fn percent_decode(s: Seq<char>) -> Seq<u8>
    decreases s.len(),
{
    if s.len() == 0 {
        seq![]
    } else if s[0] == '%' && s.len() >= 3 && is_hex_char(s[1]) && is_hex_char(s[2]) {
        seq![(hex_value(s[1]) * 16 + hex_value(s[2])) as u8] + percent_decode(s.subrange(3, s.len() as int))
    } else {
        encode_utf8(seq![s[0]]) + percent_decode(s.drop_first())
    }
}

pub proof fn lemma_encode_bytes_concat(a: Seq<u8>, b: Seq<u8>)
    ensures
        encode_bytes(a + b) == encode_bytes(a) + encode_bytes(b),
    decreases a.len(),
{
    if a.len() == 0 {
        assert(a + b =~= b);
        assert(encode_bytes(a) + encode_bytes(b) =~= encode_bytes(b));
    } else {
        assert((a + b).drop_first() =~= a.drop_first() + b);
        lemma_encode_bytes_concat(a.drop_first(), b);
        assert(encode_bytes(a + b) =~= encode_bytes(a) + encode_bytes(b));
    }
}

proof fn lemma_hex_digit(n: u8)
    requires
        n < 16,
    ensures
        is_hex_char(hex_digit(n)),
        hex_value(hex_digit(n)) == n as int,
{
}

proof fn lemma_ascii_char_encoding(b: u8)
    requires
        b < 0x80,
    ensures
        encode_utf8(seq![b as char]) == seq![b],
{
    let c = b as char;
    let u = c as u32;
    assert(u == b as u32);
    assert(u & 0x7F == u) by (bit_vector)
        requires
            u < 0x80,
    ;
    reveal_with_fuel(encode_utf8, 2);
    assert(seq![c].drop_first() =~= Seq::<char>::empty());
    assert(encode_utf8(seq![c]) =~= seq![b]);
}

proof fn lemma_decode_byte(b: u8, rest: Seq<char>)
    ensures
        percent_decode(encode_byte(b) + rest) == seq![b] + percent_decode(rest),
{
    let s = encode_byte(b) + rest;
    if is_unreserved(b) {
        assert(s[0] == b as char);
        assert(s.drop_first() =~= rest);
        lemma_ascii_char_encoding(b);
    } else {
        lemma_hex_digit(b / 16);
        lemma_hex_digit(b % 16);
        assert(s[0] == '%');
        assert(s[1] == hex_digit(b / 16));
        assert(s[2] == hex_digit(b % 16));
        assert(s.subrange(3, s.len() as int) =~= rest);
        assert((hex_value(s[1]) * 16 + hex_value(s[2])) as u8 == b);
    }
}

/// Decoding the percent-encoding of any byte sequence gives the bytes back.
pub proof fn lemma_decode_encode_bytes(bs: Seq<u8>)
    ensures
        percent_decode(encode_bytes(bs)) == bs,
    decreases bs.len(),
{
    if bs.len() > 0 {
        lemma_decode_byte(bs[0], encode_bytes(bs.drop_first()));
        lemma_decode_encode_bytes(bs.drop_first());
        assert(seq![bs[0]] + bs.drop_first() =~= bs);
    }
}

/// Percent-encoding a text and then percent-decoding the result gives back
/// exactly the UTF-8 bytes of the text.
pub proof fn lemma_percent_round_trip(s: Seq<char>)
    ensures
        percent_decode(percent_encoded(s)) == encode_utf8(s),
{
    lemma_decode_encode_bytes(encode_utf8(s));
}

/// Whether `c` is an upper-case hex digit.
pub open spec fn is_upper_hex(c: char) -> bool {
    ('0' <= c && c <= '9') || ('A' <= c && c <= 'F')
}

/// Whether `c` is one of the unreserved characters.
pub open spec fn is_unreserved_char(c: char) -> bool {
    ('A' <= c && c <= 'Z') || ('a' <= c && c <= 'z') || ('0' <= c && c <= '9') || c == '-' || c == '.'
        || c == '_' || c == '~'
}

/// Well-formed percent-encoded text: only unreserved characters and `%`,
/// and every `%` followed by two upper-case hex digits.
pub open spec fn well_encoded(s: Seq<char>) -> bool {
    &&& forall|i: int| 0 <= i < s.len() ==> is_unreserved_char(#[trigger] s[i]) || s[i] == '%'
    &&& forall|i: int|
        0 <= i < s.len() && #[trigger] s[i] == '%' ==> i + 2 < s.len() && is_upper_hex(s[i + 1]) && is_upper_hex(
            s[i + 2],
        )
}

/// Whether every byte is unreserved.
pub open spec fn all_unreserved(bs: Seq<u8>) -> bool {
    forall|i: int| 0 <= i < bs.len() ==> is_unreserved(#[trigger] bs[i])
}

proof fn lemma_encode_byte_shape(b: u8)
    ensures
        well_encoded(encode_byte(b)),
        encode_byte(b).len() == if is_unreserved(b) {
            1int
        } else {
            3int
        },
{
    if !is_unreserved(b) {
        lemma_hex_digit(b / 16);
        lemma_hex_digit(b % 16);
        let e = encode_byte(b);
        assert(e[1] != '%' && e[2] != '%');
    }
}

proof fn lemma_well_encoded_concat(a: Seq<char>, b: Seq<char>)
    requires
        well_encoded(a),
        well_encoded(b),
    ensures
        well_encoded(a + b),
{
    let s = a + b;
    assert forall|i: int| 0 <= i < s.len() implies is_unreserved_char(#[trigger] s[i]) || s[i] == '%' by {
        if i < a.len() {
            assert(s[i] == a[i]);
        } else {
            assert(s[i] == b[i - a.len()]);
        }
    }
    assert forall|i: int| 0 <= i < s.len() && #[trigger] s[i] == '%' implies i + 2 < s.len() && is_upper_hex(s[i + 1])
        && is_upper_hex(s[i + 2]) by {
        if i < a.len() {
            assert(s[i] == a[i]);
            assert(s[i + 1] == a[i + 1]);
            assert(s[i + 2] == a[i + 2]);
        } else {
            let j = i - a.len();
            assert(s[i] == b[j]);
            assert(s[i + 1] == b[j + 1]);
            assert(s[i + 2] == b[j + 2]);
        }
    }
}

/// Percent-encoded bytes hold only unreserved characters and `%XX`
/// escapes; each byte gives one to three characters, and the text is as
/// long as the input exactly when every byte is unreserved.
pub proof fn lemma_encoded_shape(bs: Seq<u8>)
    ensures
        well_encoded(encode_bytes(bs)),
        bs.len() <= encode_bytes(bs).len() <= 3 * bs.len(),
        encode_bytes(bs).len() == bs.len() <==> all_unreserved(bs),
    decreases bs.len(),
{
    if bs.len() == 0 {
        assert(encode_bytes(bs) =~= Seq::<char>::empty());
    } else {
        let rest = bs.drop_first();
        lemma_encoded_shape(rest);
        lemma_encode_byte_shape(bs[0]);
        lemma_well_encoded_concat(encode_byte(bs[0]), encode_bytes(rest));
        if all_unreserved(bs) {
            assert forall|i: int| 0 <= i < rest.len() implies is_unreserved(#[trigger] rest[i]) by {
                assert(rest[i] == bs[i + 1]);
            }
        }
        if all_unreserved(rest) && is_unreserved(bs[0]) {
            assert forall|i: int| 0 <= i < bs.len() implies is_unreserved(#[trigger] bs[i]) by {
                if i > 0 {
                    assert(bs[i] == rest[i - 1]);
                }
            }
        }
        if !is_unreserved(bs[0]) {
            assert(!all_unreserved(bs) || !is_unreserved(bs[0]));
        }
    }
}

/// Upper-case hex digit of a value below 16.
fn hex_upper(n: u8) -> (c: char)
    requires
        n < 16,
    ensures
        c == hex_digit(n),
{
    if n < 10 {
        (n + 0x30) as char
    } else {
        (n + 0x37) as char
    }
}

/// Whether a byte is written as itself.
fn unreserved(b: u8) -> (r: bool)
    ensures
        r == is_unreserved(b),
{
    (0x41 <= b && b <= 0x5A) || (0x61 <= b && b <= 0x7A) || (0x30 <= b && b <= 0x39) || b == 0x2D
        || b == 0x2E || b == 0x5F || b == 0x7E
}

/// Percent-encodes the UTF-8 bytes of `input`.
pub fn percent_encode(input: &str) -> (r: String)
    ensures
        r@ == percent_encoded(input@),
{
    let bytes = input.as_bytes();
    let mut out: Vec<char> = Vec::new();
    let mut i: usize = 0;
    while i < bytes.len()
        invariant
            i <= bytes@.len(),
            bytes@ == encode_utf8(input@),
            out@ == encode_bytes(bytes@.take(i as int)),
        decreases bytes@.len() - i,
    {
        let b = bytes[i];
        if unreserved(b) {
            out.push(b as char);
        } else {
            out.push('%');
            out.push(hex_upper(b / 16));
            out.push(hex_upper(b % 16));
        }
        proof {
            assert(bytes@.take(i as int + 1) =~= bytes@.take(i as int) + seq![b]);
            lemma_encode_bytes_concat(bytes@.take(i as int), seq![b]);
            reveal_with_fuel(encode_bytes, 2);
            assert(seq![b].drop_first() =~= Seq::<u8>::empty());
            assert(encode_bytes(seq![b]) =~= encode_byte(b));
            assert(out@ =~= encode_bytes(bytes@.take(i as int)) + encode_byte(b));
        }
        i = i + 1;
    }
    assert(bytes@.take(i as int) =~= bytes@);
    string_of(out.as_slice())
}

} // verus!
