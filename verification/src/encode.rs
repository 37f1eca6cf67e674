//! Percent-encoding of query parameter values.
//!
//! A value is encoded byte by byte over its UTF-8 representation: unreserved
//! bytes (ASCII letters, digits, `-`, `.`, `_`, `~`) pass through, every other
//! byte becomes `%` followed by two upper-case hex digits. The encoding is
//! total over arbitrary input and loses nothing: `percent_decoded` recovers
//! the exact byte sequence.

use vstd::prelude::*;
use vstd::string::StringSliceAdditionalSpecFns;

verus! {

/// Bytes that are emitted unescaped: ASCII letters, digits, `-`, `.`, `_`, `~`.
pub open spec fn is_unreserved_byte(b: u8) -> bool {
    (0x41 <= b <= 0x5A)  // A-Z
    || (0x61 <= b <= 0x7A)  // a-z
    || (0x30 <= b <= 0x39)  // 0-9
    || b == 0x2D  // -
    || b == 0x2E  // .
    || b == 0x5F  // _
    || b == 0x7E  // ~
}

/// The upper-case hex digit for a value below 16.
pub open spec fn hex_digit_char(n: u8) -> char
    recommends
        n < 16,
{
    if n < 10 {
        ((0x30 + n) as u8) as char
    } else {
        ((0x37 + n) as u8) as char
    }
}

/// How a single byte appears in the encoded output.
pub open spec fn encode_byte(b: u8) -> Seq<char> {
    if is_unreserved_byte(b) {
        seq![b as char]
    } else {
        seq!['%', hex_digit_char(b / 16), hex_digit_char(b % 16)]
    }
}

/// The encoded form of a whole byte sequence.
pub open spec fn percent_encoded(bytes: Seq<u8>) -> Seq<char>
    decreases bytes.len(),
{
    if bytes.len() == 0 {
        Seq::empty()
    } else {
        encode_byte(bytes[0]) + percent_encoded(bytes.drop_first())
    }
}

/// Characters a decoder accepts unescaped: the unreserved bytes, seen as chars.
pub open spec fn is_unreserved_char(c: char) -> bool {
    (c as u32) < 0x80 && is_unreserved_byte((c as u32) as u8)
}

/// Upper-case hex digits as characters.
pub open spec fn is_upper_hex_char(c: char) -> bool {
    ('0' <= c <= '9') || ('A' <= c <= 'F')
}

/// The value of an upper-case hex digit character.
pub open spec fn hex_char_value(c: char) -> u8
    recommends
        is_upper_hex_char(c),
{
    if '0' <= c <= '9' {
        ((c as u32) - 0x30) as u8
    } else {
        ((c as u32) - 0x37) as u8
    }
}

/// Decoding of an encoded value back to its bytes: `%` begins a two-digit
/// escape, an unreserved character stands for its own byte, anything else is
/// rejected.
pub open spec fn percent_decoded(s: Seq<char>) -> Option<Seq<u8>>
    decreases s.len(),
{
    if s.len() == 0 {
        Some(Seq::empty())
    } else if s[0] == '%' {
        if s.len() >= 3 && is_upper_hex_char(s[1]) && is_upper_hex_char(s[2]) {
            match percent_decoded(s.skip(3)) {
                Some(rest) => Some(
                    seq![(16 * hex_char_value(s[1]) + hex_char_value(s[2])) as u8] + rest,
                ),
                None => None,
            }
        } else {
            None
        }
    } else if is_unreserved_char(s[0]) {
        match percent_decoded(s.drop_first()) {
            Some(rest) => Some(seq![(s[0] as u32) as u8] + rest),
            None => None,
        }
    } else {
        None
    }
}

/// A hex digit emitted by the encoder is an upper-case hex character and
/// decodes back to its value.
proof fn lemma_hex_digit_round_trip(n: u8)
    requires
        n < 16,
    ensures
        is_upper_hex_char(hex_digit_char(n)),
        hex_char_value(hex_digit_char(n)) == n,
{
}

/// Encoding never loses information: decoding the encoded form of any byte
/// sequence gives back exactly that sequence.
pub proof fn lemma_encoding_round_trip(bytes: Seq<u8>)
    ensures
        percent_decoded(percent_encoded(bytes)) == Some(bytes),
    decreases bytes.len(),
{
    if bytes.len() == 0 {
        assert(percent_encoded(bytes) == Seq::<char>::empty());
        assert(percent_decoded(percent_encoded(bytes)) == Some(bytes)) by {
            assert(bytes =~= Seq::<u8>::empty());
        }
    } else {
        let b = bytes[0];
        let tail = percent_encoded(bytes.drop_first());
        lemma_encoding_round_trip(bytes.drop_first());
        let s = percent_encoded(bytes);
        assert(s == encode_byte(b) + tail);
        if is_unreserved_byte(b) {
            let c = b as char;
            assert(s[0] == c);
            assert(c as u32 == b);
            assert(c != '%');
            assert(is_unreserved_char(c));
            assert(s.drop_first() =~= tail);
            assert(percent_decoded(s) == Some(seq![((c as u32) as u8)] + bytes.drop_first()));
            assert(seq![((c as u32) as u8)] + bytes.drop_first() =~= bytes);
        } else {
            lemma_hex_digit_round_trip(b / 16);
            lemma_hex_digit_round_trip(b % 16);
            assert(s[0] == '%');
            assert(s[1] == hex_digit_char(b / 16));
            assert(s[2] == hex_digit_char(b % 16));
            assert(s.len() >= 3);
            assert(s.skip(3) =~= tail);
            assert(16 * hex_char_value(s[1]) + hex_char_value(s[2]) == b);
            assert(percent_decoded(s) == Some(seq![b] + bytes.drop_first()));
            assert(seq![b] + bytes.drop_first() =~= bytes);
        }
    }
}

/// Every character of an encoded value is `%`, an upper-case hex digit, or an
/// unreserved character; in particular no reserved query character (`&`, `=`,
/// `?`, space, unescaped `%`-as-data) appears unescaped.
pub proof fn lemma_encoding_unreserved_output(bytes: Seq<u8>)
    ensures
        forall|i: int|
            0 <= i < percent_encoded(bytes).len() ==> (#[trigger] percent_encoded(bytes)[i] == '%'
                || is_upper_hex_char(percent_encoded(bytes)[i]) || is_unreserved_char(
                percent_encoded(bytes)[i],
            )),
    decreases bytes.len(),
{
    if bytes.len() == 0 {
    } else {
        let b = bytes[0];
        lemma_encoding_unreserved_output(bytes.drop_first());
        if is_unreserved_byte(b) {
            assert(is_unreserved_char(b as char));
        } else {
            lemma_hex_digit_round_trip(b / 16);
            lemma_hex_digit_round_trip(b % 16);
        }
        assert forall|i: int| 0 <= i < percent_encoded(bytes).len() implies (
        #[trigger] percent_encoded(bytes)[i] == '%' || is_upper_hex_char(
            percent_encoded(bytes)[i],
        ) || is_unreserved_char(percent_encoded(bytes)[i])) by {
            let s = percent_encoded(bytes);
            assert(s == encode_byte(b) + percent_encoded(bytes.drop_first()));
            if i >= encode_byte(b).len() {
                assert(s[i] == percent_encoded(bytes.drop_first())[i - encode_byte(b).len()]);
            }
        }
    }
}

/// Relies on `String::from_utf8`: a vector of ASCII bytes decodes to the
/// string whose characters are exactly those bytes.
#[verifier::external_body]
fn ascii_bytes_to_string(v: Vec<u8>) -> (r: String)
    requires
        forall|i: int| 0 <= i < v@.len() ==> v@[i] < 0x80,
    ensures
        r@ == v@.map_values(|b: u8| b as char),
{
    String::from_utf8(v).unwrap_or_default()
}

/// The upper-case hex digit byte for a value below 16.
fn hex_digit(n: u8) -> (r: u8)
    requires
        n < 16,
    ensures
        r as char == hex_digit_char(n),
        r < 0x80,
{
    if n < 10 {
        0x30 + n
    } else {
        0x37 + n
    }
}

/// Appending one byte to the input appends that byte's encoding to the output.
proof fn lemma_percent_encoded_push(bytes: Seq<u8>, b: u8)
    ensures
        percent_encoded(bytes.push(b)) == percent_encoded(bytes) + encode_byte(b),
    decreases bytes.len(),
{
    if bytes.len() == 0 {
        assert(bytes.push(b).drop_first() =~= Seq::<u8>::empty());
        assert(bytes.push(b)[0] == b);
        assert(bytes.push(b).len() == 1);
        assert(percent_encoded(bytes.push(b)) == encode_byte(b) + percent_encoded(
            Seq::<u8>::empty(),
        ));
        assert(percent_encoded(Seq::<u8>::empty()) == Seq::<char>::empty());
        assert(percent_encoded(bytes) == Seq::<char>::empty());
        assert(percent_encoded(bytes.push(b)) =~= percent_encoded(bytes) + encode_byte(b));
    } else {
        assert(bytes.push(b).drop_first() =~= bytes.drop_first().push(b));
        lemma_percent_encoded_push(bytes.drop_first(), b);
        assert(bytes.push(b)[0] == bytes[0]);
        assert(percent_encoded(bytes.push(b)) == encode_byte(bytes[0]) + percent_encoded(
            bytes.drop_first().push(b),
        ));
        assert(percent_encoded(bytes.push(b)) =~= percent_encoded(bytes) + encode_byte(b));
    }
}

/// Percent-encode a query parameter value. Total over any input string;
/// the result is the encoding of the value's UTF-8 bytes.
pub fn url_param(param: &str) -> (r: String)
    ensures
        r@ == percent_encoded(param.spec_bytes()),
{
    let bytes: &[u8] = param.as_bytes();
    let mut out: Vec<u8> = Vec::new();
    let mut i: usize = 0;
    while i < bytes.len()
        invariant
            i <= bytes@.len(),
            bytes@ == param.spec_bytes(),
            out@.map_values(|b: u8| b as char) == percent_encoded(bytes@.take(i as int)),
            forall|j: int| 0 <= j < out@.len() ==> out@[j] < 0x80,
        decreases bytes@.len() - i,
    {
        let b = bytes[i];
        let ghost prev = out@;
        if (0x41 <= b && b <= 0x5A) || (0x61 <= b && b <= 0x7A) || (0x30 <= b && b <= 0x39)
            || b == 0x2D || b == 0x2E || b == 0x5F || b == 0x7E {
            out.push(b);
        } else {
            out.push(0x25);
            out.push(hex_digit(b / 16));
            out.push(hex_digit(b % 16));
        }
        proof {
            lemma_percent_encoded_push(bytes@.take(i as int), b);
            assert(bytes@.take(i + 1 as int) =~= bytes@.take(i as int).push(b));
            assert(out@.map_values(|x: u8| x as char) =~= prev.map_values(|x: u8| x as char)
                + encode_byte(b));
        }
        i += 1;
    }
    proof {
        assert(bytes@.take(i as int) =~= bytes@);
    }
    ascii_bytes_to_string(out)
}

} // verus!

