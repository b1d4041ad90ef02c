//! Mathematical model of the tick text encoding.
//!
//! A byte sequence is encoded byte by byte: bytes that need no escaping are
//! kept as they are, a backtick is doubled, and every other byte becomes a
//! backtick followed by two uppercase hex digits. Decoding inverts this and
//! rejects every text that is not the canonical encoding of some byte
//! sequence.

use vstd::prelude::*;

verus! {

/// The backtick byte, the escape character of the encoding.
pub const TICK: u8 = 96;

/// True for the bytes that must be escaped in the encoded text: everything
/// except tab, newline, carriage return, and printable ASCII other than the
/// backtick.
pub open spec fn escape_needed(b: u8) -> bool {
    !(b == 9 || b == 10 || b == 13 || (32 <= b && b <= 126 && b != TICK))
}

/// The uppercase hex digit for a nibble.
pub open spec fn upper_hex_digit(n: u8) -> u8
    recommends
        n < 16,
{
    if n < 10 {
        (48 + n) as u8
    } else {
        (55 + n) as u8
    }
}

/// The nibble an uppercase hex digit stands for; `None` for every other byte
/// (lowercase hex digits are not part of the canonical encoding).
pub open spec fn hex_digit_value(d: u8) -> Option<u8> {
    if 48 <= d && d <= 57 {
        Some((d - 48) as u8)
    } else if 65 <= d && d <= 70 {
        Some((d - 55) as u8)
    } else {
        None
    }
}

/// The encoded form of a single byte.
pub open spec fn encoded_byte(b: u8) -> Seq<u8> {
    if b == TICK {
        seq![TICK, TICK]
    } else if escape_needed(b) {
        seq![TICK, upper_hex_digit(b / 16), upper_hex_digit(b % 16)]
    } else {
        seq![b]
    }
}

/// The encoded text (as ASCII bytes) of a byte sequence.
pub open spec fn encoding_of(bs: Seq<u8>) -> Seq<u8>
    decreases bs.len(),
{
    if bs.len() == 0 {
        Seq::empty()
    } else {
        encoded_byte(bs[0]) + encoding_of(bs.skip(1))
    }
}

/// The byte sequence a text (as ASCII bytes) decodes to, or `None` when the
/// text is not the canonical encoding of any byte sequence.
pub open spec fn decoding_of(t: Seq<u8>) -> Option<Seq<u8>>
    decreases t.len(),
{
    if t.len() == 0 {
        Some(Seq::empty())
    } else if t[0] == TICK {
        if t.len() >= 2 && t[1] == TICK {
            match decoding_of(t.skip(2)) {
                Some(r) => Some(seq![TICK] + r),
                None => None,
            }
        } else if t.len() >= 3 && t[1] != TICK {
            match (hex_digit_value(t[1]), hex_digit_value(t[2])) {
                (Some(h), Some(l)) => {
                    let b = (16 * h + l) as u8;
                    if b != TICK && escape_needed(b) {
                        match decoding_of(t.skip(3)) {
                            Some(r) => Some(seq![b] + r),
                            None => None,
                        }
                    } else {
                        None
                    }
                },
                _ => None,
            }
        } else {
            None
        }
    } else if !escape_needed(t[0]) {
        match decoding_of(t.skip(1)) {
            Some(r) => Some(seq![t[0]] + r),
            None => None,
        }
    } else {
        None
    }
}

/// The two hex spec functions are inverses on nibbles.
proof fn lemma_hex_digit_roundtrip(n: u8)
    requires
        n < 16,
    ensures
        hex_digit_value(upper_hex_digit(n)) == Some(n),
{
}

/// Round-trip law: the encoded text of any byte sequence decodes back to
/// exactly that sequence.
pub proof fn lemma_decoding_of_encoding_of(bs: Seq<u8>)
    ensures
        decoding_of(encoding_of(bs)) == Some(bs),
    decreases bs.len(),
{
    if bs.len() == 0 {
        assert(encoding_of(bs) == Seq::<u8>::empty());
    } else {
        let b0 = bs[0];
        let e = encoded_byte(b0);
        let rest = encoding_of(bs.skip(1));
        let t = e + rest;
        assert(encoding_of(bs) == t);
        lemma_decoding_of_encoding_of(bs.skip(1));
        if b0 == TICK {
            assert(t.len() >= 2 && t[0] == TICK && t[1] == TICK);
            assert(t.skip(2) =~= rest);
            assert(seq![TICK] + bs.skip(1) =~= bs);
        } else if escape_needed(b0) {
            let h = upper_hex_digit(b0 / 16);
            let l = upper_hex_digit(b0 % 16);
            lemma_hex_digit_roundtrip(b0 / 16);
            lemma_hex_digit_roundtrip(b0 % 16);
            assert(t.len() >= 3 && t[0] == TICK && t[1] == h && t[2] == l);
            assert(h != TICK);
            assert(16 * (b0 / 16) + (b0 % 16) == b0) by {
                vstd::arithmetic::div_mod::lemma_fundamental_div_mod(b0 as int, 16);
            }
            assert(t.skip(3) =~= rest);
            assert(seq![b0] + bs.skip(1) =~= bs);
        } else {
            assert(t[0] == b0 && t[0] != TICK);
            assert(t.skip(1) =~= rest);
            assert(seq![b0] + bs.skip(1) =~= bs);
        }
    }
}

/// Distinct byte sequences encode to distinct texts.
pub proof fn lemma_encoding_injective(a: Seq<u8>, b: Seq<u8>)
    requires
        encoding_of(a) == encoding_of(b),
    ensures
        a == b,
{
    lemma_decoding_of_encoding_of(a);
    lemma_decoding_of_encoding_of(b);
}

/// Determinism: the encoded text depends on the input bytes alone, so two
/// encodings of the same byte sequence are the same text.
pub proof fn lemma_encoding_deterministic(bs: Seq<u8>, t1: Seq<u8>, t2: Seq<u8>)
    requires
        t1 == encoding_of(bs),
        t2 == encoding_of(bs),
    ensures
        t1 == t2,
{
}

/// Determinism: the decoded bytes depend on the text alone, so two decodings
/// of the same text agree.
pub proof fn lemma_decoding_deterministic(t: Seq<u8>, r1: Option<Seq<u8>>, r2: Option<Seq<u8>>)
    requires
        r1 == decoding_of(t),
        r2 == decoding_of(t),
    ensures
        r1 == r2,
{
}

/// ASCII bytes read as text characters.
pub open spec fn ascii_chars_of(bytes: Seq<u8>) -> Seq<char> {
    Seq::new(bytes.len(), |i: int| bytes[i] as char)
}

/// Reading ASCII bytes as characters and encoding those characters back as
/// UTF-8 gives the same bytes.
pub proof fn lemma_ascii_chars_of_utf8(bytes: Seq<u8>)
    requires
        forall|i: int| 0 <= i < bytes.len() ==> bytes[i] < 128,
    ensures
        vstd::utf8::is_ascii_chars(ascii_chars_of(bytes)),
        vstd::utf8::encode_utf8(ascii_chars_of(bytes)) == bytes,
{
    let chars = ascii_chars_of(bytes);
    assert forall|i: int| 0 <= i < chars.len() implies '\0' <= #[trigger] chars[i]
        <= '\u{7f}' by {
        assert(chars[i] == bytes[i] as char);
    }
    vstd::utf8::is_ascii_chars_encode_utf8(chars);
    assert(vstd::utf8::encode_utf8(chars) =~= bytes);
}

/// Every byte of an encoded text is ASCII.
pub proof fn lemma_encoding_ascii(bs: Seq<u8>)
    ensures
        forall|i: int| 0 <= i < encoding_of(bs).len() ==> encoding_of(bs)[i] < 128,
    decreases bs.len(),
{
    if bs.len() > 0 {
        lemma_encoding_ascii(bs.skip(1));
        assert forall|i: int| 0 <= i < encoding_of(bs).len() implies encoding_of(bs)[i]
            < 128 by {
            let e = encoded_byte(bs[0]);
            if i < e.len() {
                assert(encoding_of(bs)[i] == e[i]);
            } else {
                assert(encoding_of(bs)[i] == encoding_of(bs.skip(1))[i - e.len()]);
            }
        }
    }
}

}
