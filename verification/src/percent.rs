//! Percent-encoding of arbitrary bytes into the characters that a URL query
//! value may hold, and the matching decoder.

use crate::text::push_byte;
use vstd::prelude::*;
use vstd::utf8::encode_utf8;

verus! {

/// The characters that stand for themselves in a URL component: ASCII
/// letters, digits, `-`, `.`, `_` and `~`.
pub open spec fn is_unreserved(c: char) -> bool {
    ||| 'A' <= c <= 'Z'
    ||| 'a' <= c <= 'z'
    ||| '0' <= c <= '9'
    ||| c == '-'
    ||| c == '.'
    ||| c == '_'
    ||| c == '~'
}

/// The upper-case hexadecimal digit for a value below sixteen.
pub open spec fn hex_digit(n: u8) -> char {
    if n < 10 {
        ('0' as u8 + n) as char
    } else {
        ('A' as u8 + (n - 10)) as char
    }
}

/// The value of a hexadecimal digit of either case, if the character is one.
pub open spec fn hex_value(d: char) -> Option<u8> {
    if '0' <= d <= '9' {
        Some((d as u8 - '0' as u8) as u8)
    } else if 'A' <= d <= 'F' {
        Some((d as u8 - 'A' as u8 + 10) as u8)
    } else if 'a' <= d <= 'f' {
        Some((d as u8 - 'a' as u8 + 10) as u8)
    } else {
        None
    }
}

/// The encoding of one byte: the character itself if the byte is an
/// unreserved ASCII character, else `%` and two upper-case hexadecimal digits.
pub open spec fn encoded_byte(b: u8) -> Seq<char> {
    if is_unreserved(b as char) {
        seq![b as char]
    } else {
        seq!['%', hex_digit(b / 16), hex_digit(b % 16)]
    }
}

/// The percent-encoding of a byte string: the encodings of its bytes, in
/// order.
pub open spec fn percent_encoded(bytes: Seq<u8>) -> Seq<char>
    decreases bytes.len(),
{
    if bytes.len() == 0 {
        Seq::empty()
    } else {
        encoded_byte(bytes[0]) + percent_encoded(bytes.drop_first())
    }
}

/// The byte that two hexadecimal digits spell, if both are digits.
pub open spec fn escaped_byte(high: char, low: char) -> Option<u8> {
    match (hex_value(high), hex_value(low)) {
        (Some(h), Some(l)) => Some((h * 16 + l) as u8),
        _ => None,
    }
}

/// What a percent-encoded text stands for. An escape is `%` followed by two
/// hexadecimal digits; any other ASCII character stands for its own byte. A
/// `%` that does not start an escape, or a character outside ASCII, makes the
/// whole text undecodable.
pub open spec fn percent_decoded(text: Seq<char>) -> Option<Seq<u8>>
    decreases text.len(),
{
    if text.len() == 0 {
        Some(Seq::empty())
    } else if text[0] == '%' {
        if text.len() >= 3 && escaped_byte(text[1], text[2]) is Some {
            match percent_decoded(text.skip(3)) {
                Some(rest) => Some(seq![escaped_byte(text[1], text[2])->0] + rest),
                None => None,
            }
        } else {
            None
        }
    } else if '\0' <= text[0] <= '\u{7f}' {
        match percent_decoded(text.drop_first()) {
            Some(rest) => Some(seq![text[0] as u8] + rest),
            None => None,
        }
    } else {
        None
    }
}

/// Whether a character can occur in percent-encoded output.
pub open spec fn is_encoded_char(c: char) -> bool {
    is_unreserved(c) || c == '%'
}

/// Whether every character of a text can occur in percent-encoded output.
pub open spec fn is_encoded_text(text: Seq<char>) -> bool {
    forall|i: int| 0 <= i < text.len() ==> is_encoded_char(#[trigger] text[i])
}

/// A hexadecimal digit spelled by `hex_digit` reads back as its value.
pub proof fn lemma_hex_digit_value(n: u8)
    requires
        n < 16,
    ensures
        hex_value(hex_digit(n)) == Some(n),
        is_unreserved(hex_digit(n)),
{
}

/// Decoding the encoding of one byte, followed by more text, yields that byte
/// followed by what the rest decodes to.
pub proof fn lemma_decode_encoded_byte(b: u8, rest: Seq<char>)
    ensures
        percent_decoded(encoded_byte(b) + rest) == match percent_decoded(rest) {
            Some(r) => Some(seq![b] + r),
            None => None,
        },
{
    let text = encoded_byte(b) + rest;
    if is_unreserved(b as char) {
        assert(text.drop_first() =~= rest);
        assert(text[0] == b as char);
        assert((b as char) as u8 == b);
    } else {
        lemma_hex_digit_value(b / 16);
        lemma_hex_digit_value(b % 16);
        assert(text.skip(3) =~= rest);
        assert(text[0] == '%');
        assert(text[1] == hex_digit(b / 16));
        assert(text[2] == hex_digit(b % 16));
        assert(((b / 16) * 16 + b % 16) as u8 == b);
    }
}

/// Decoding undoes encoding: every byte string is recovered from its
/// percent-encoding.
pub proof fn lemma_decode_encode(bytes: Seq<u8>)
    ensures
        percent_decoded(percent_encoded(bytes)) == Some(bytes),
    decreases bytes.len(),
{
    if bytes.len() == 0 {
    } else {
        lemma_decode_encode(bytes.drop_first());
        lemma_decode_encoded_byte(bytes[0], percent_encoded(bytes.drop_first()));
        assert(seq![bytes[0]] + bytes.drop_first() =~= bytes);
    }
}

/// Percent-encoded output holds only unreserved characters and `%`, so none
/// of the characters that delimit parts of a URL, no space and nothing
/// outside ASCII.
pub proof fn lemma_encoded_is_plain(bytes: Seq<u8>)
    ensures
        is_encoded_text(percent_encoded(bytes)),
    decreases bytes.len(),
{
    if bytes.len() == 0 {
    } else {
        lemma_encoded_is_plain(bytes.drop_first());
        lemma_hex_digit_value(bytes[0] / 16);
        lemma_hex_digit_value(bytes[0] % 16);
    }
}

/// Encoding distributes over concatenation.
pub proof fn lemma_encoded_concat(a: Seq<u8>, b: Seq<u8>)
    ensures
        percent_encoded(a + b) == percent_encoded(a) + percent_encoded(b),
    decreases a.len(),
{
    if a.len() == 0 {
        assert(a + b =~= b);
        assert(percent_encoded(a) + percent_encoded(b) =~= percent_encoded(b));
    } else {
        lemma_encoded_concat(a.drop_first(), b);
        assert((a + b).drop_first() =~= a.drop_first() + b);
        assert(encoded_byte(a[0]) + (percent_encoded(a.drop_first()) + percent_encoded(b))
            =~= (encoded_byte(a[0]) + percent_encoded(a.drop_first())) + percent_encoded(b));
    }
}

/// Encoding one more byte appends that byte's encoding.
pub proof fn lemma_encoded_push(a: Seq<u8>, b: u8)
    ensures
        percent_encoded(a.push(b)) == percent_encoded(a) + encoded_byte(b),
{
    let one = seq![b];
    assert(percent_encoded(one.drop_first()) =~= Seq::<char>::empty());
    assert(percent_encoded(one) =~= encoded_byte(b));
    lemma_encoded_concat(a, one);
    assert(a.push(b) =~= a + one);
}

/// The percent-encoding of a text: that of its UTF-8 bytes.
pub open spec fn encoded_text(text: Seq<char>) -> Seq<char> {
    percent_encoded(encode_utf8(text))
}

/// Tells whether a byte is an unreserved ASCII character.
pub fn is_unreserved_byte(b: u8) -> (r: bool)
    ensures
        r == is_unreserved(b as char),
{
    let c = b as char;
    ('A' <= c && c <= 'Z') || ('a' <= c && c <= 'z') || ('0' <= c && c <= '9') || c == '-'
        || c == '.' || c == '_' || c == '~'
}

/// The upper-case hexadecimal digit for a value below sixteen, as a byte.
fn upper_hex(n: u8) -> (d: u8)
    requires
        n < 16,
    ensures
        d as char == hex_digit(n),
{
    if n < 10 {
        48 + n
    } else {
        55 + n
    }
}

/// Appends the percent-encoding of `bytes` to `out`.
pub fn push_encoded(out: &mut String, bytes: &[u8])
    ensures
        final(out)@ == old(out)@ + percent_encoded(bytes@),
{
    let mut i: usize = 0;
    while i < bytes.len()
        invariant
            i <= bytes.len(),
            out@ == old(out)@ + percent_encoded(bytes@.take(i as int)),
        decreases bytes.len() - i,
    {
        let b = bytes[i];
        proof {
            lemma_encoded_push(bytes@.take(i as int), b);
            assert(bytes@.take(i as int).push(b) =~= bytes@.take(i + 1));
        }
        if is_unreserved_byte(b) {
            push_byte(out, b);
            assert(out@ =~= old(out)@ + percent_encoded(bytes@.take(i + 1)));
        } else {
            push_byte(out, 37);
            push_byte(out, upper_hex(b / 16));
            push_byte(out, upper_hex(b % 16));
            assert(out@ =~= old(out)@ + percent_encoded(bytes@.take(i + 1)));
        }
        i += 1;
    }
    assert(bytes@.take(i as int) =~= bytes@);
}

/// Percent-encodes a text for use as one query value of a URL.
pub fn encode_component(text: &str) -> (out: String)
    ensures
        out@ == encoded_text(text@),
{
    let mut out = String::new();
    push_encoded(&mut out, text.as_bytes());
    assert(out@ =~= encoded_text(text@));
    out
}

/// A text with a character outside ASCII cannot be decoded.
pub proof fn lemma_decoded_needs_ascii(text: Seq<char>, at: int)
    requires
        0 <= at < text.len(),
        !('\0' <= text[at] <= '\u{7f}'),
    ensures
        percent_decoded(text) is None,
    decreases text.len(),
{
    if text[0] == '%' {
        if text.len() >= 3 && escaped_byte(text[1], text[2]) is Some {
            lemma_decoded_needs_ascii(text.skip(3), at - 3);
        }
    } else if '\0' <= text[0] <= '\u{7f}' {
        lemma_decoded_needs_ascii(text.drop_first(), at - 1);
    }
}

/// A text that can be decoded is all ASCII.
pub proof fn lemma_decodable_is_ascii(text: Seq<char>)
    ensures
        percent_decoded(text) is Some ==> vstd::utf8::is_ascii_chars(text),
{
    if percent_decoded(text) is Some {
        assert forall|i: int| 0 <= i < text.len() implies '\0' <= #[trigger] text[i]
            <= '\u{7f}' by {
            if !('\0' <= text[i] <= '\u{7f}') {
                lemma_decoded_needs_ascii(text, i);
            }
        }
    }
}

/// The value of a hexadecimal digit of either case, given as a byte.
fn hex_value_of(b: u8) -> (r: Option<u8>)
    ensures
        r == hex_value(b as char),
        r is Some ==> r->0 < 16,
{
    if 48 <= b && b <= 57 {
        Some(b - 48)
    } else if 65 <= b && b <= 70 {
        Some(b - 55)
    } else if 97 <= b && b <= 102 {
        Some(b - 87)
    } else {
        None
    }
}

/// Decodes a percent-encoded text into the bytes it stands for, or `None`
/// where the text holds a malformed escape or a character outside ASCII.
pub fn decode_component(text: &str) -> (out: Option<Vec<u8>>)
    ensures
        match out {
            Some(bytes) => percent_decoded(text@) == Some(bytes@),
            None => percent_decoded(text@) is None,
        },
{
    if !text.is_ascii() {
        proof {
            lemma_decodable_is_ascii(text@);
        }
        return None;
    }
    let bytes = text.as_bytes();
    proof {
        vstd::string::is_ascii_spec_bytes(text);
    }
    let mut out: Vec<u8> = Vec::new();
    let mut i: usize = 0;
    assert(text@.skip(0) =~= text@);
    assert forall|rest: Seq<u8>| out@ + rest == rest by {
        assert(out@ + rest =~= rest);
    }
    while i < bytes.len()
        invariant
            i <= bytes.len(),
            bytes@.len() == text@.len(),
            forall|k: int| 0 <= k < text@.len() ==> #[trigger] bytes@[k] as char == text@[k],
            forall|k: int| 0 <= k < text@.len() ==> #[trigger] bytes@[k] < 128,
            percent_decoded(text@) == match percent_decoded(text@.skip(i as int)) {
                Some(rest) => Some(out@ + rest),
                None => None,
            },
        decreases bytes.len() - i,
    {
        let ghost tail = text@.skip(i as int);
        let b = bytes[i];
        assert(tail[0] == b as char);
        if b == 37 {
            if bytes.len() - i < 3 {
                return None;
            }
            assert(tail[1] == bytes@[i + 1] as char);
            assert(tail[2] == bytes@[i + 2] as char);
            let high = hex_value_of(bytes[i + 1]);
            let low = hex_value_of(bytes[i + 2]);
            match (high, low) {
                (Some(h), Some(l)) => {
                    assert(tail.skip(3) =~= text@.skip(i + 3));
                    let ghost before = out@;
                    out.push(h * 16 + l);
                    proof {
                        match percent_decoded(text@.skip(i + 3)) {
                            Some(rest) => {
                                assert(before + (seq![(h * 16 + l) as u8] + rest) =~= out@ + rest);
                            },
                            None => {},
                        }
                    }
                    i += 3;
                },
                _ => {
                    return None;
                },
            }
        } else {
            assert(tail.drop_first() =~= text@.skip(i + 1));
            let ghost before = out@;
            out.push(b);
            proof {
                match percent_decoded(text@.skip(i + 1)) {
                    Some(rest) => {
                        assert(before + (seq![b] + rest) =~= out@ + rest);
                    },
                    None => {},
                }
            }
            i += 1;
        }
    }
    assert(text@.skip(i as int) =~= Seq::<char>::empty());
    assert(out@ + Seq::<u8>::empty() =~= out@);
    Some(out)
}

} // verus!
