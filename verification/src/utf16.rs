//! UTF-16: what a sequence of units encodes, and how a character is written
//! in UTF-8.

use vstd::prelude::*;
use vstd::utf8::*;

verus! {

/// Whether `unit` is the first half of a surrogate pair.
pub open spec fn is_high_surrogate(unit: u16) -> bool {
    0xD800 <= unit <= 0xDBFF
}

/// Whether `unit` is the second half of a surrogate pair.
pub open spec fn is_low_surrogate(unit: u16) -> bool {
    0xDC00 <= unit <= 0xDFFF
}

/// The scalar value that the surrogate pair `high`, `low` stands for.
pub open spec fn pair_scalar(high: u16, low: u16) -> u32
    recommends
        is_high_surrogate(high),
        is_low_surrogate(low),
{
    (0x10000 + (high - 0xD800) * 0x400 + (low - 0xDC00)) as u32
}

/// The characters that `units` encode, or `None` if a surrogate stands
/// without its partner anywhere in `units`.
pub open spec fn decode_utf16(units: Seq<u16>) -> Option<Seq<char>>
    decreases units.len(),
{
    if units.len() == 0 {
        Some(seq![])
    } else if !is_high_surrogate(units[0]) && !is_low_surrogate(units[0]) {
        match decode_utf16(units.subrange(1, units.len() as int)) {
            Some(rest) => Some(seq![units[0] as char] + rest),
            None => None,
        }
    } else if is_high_surrogate(units[0]) && units.len() >= 2 && is_low_surrogate(units[1]) {
        match decode_utf16(units.subrange(2, units.len() as int)) {
            Some(rest) => Some(seq![pair_scalar(units[0], units[1]) as char] + rest),
            None => None,
        }
    } else {
        None
    }
}

/// The units that encode `c`: one unit, or a surrogate pair for a character
/// beyond `U+FFFF`.
pub open spec fn encode_utf16_char(c: char) -> Seq<u16> {
    let scalar = c as u32;
    if scalar < 0x10000 {
        seq![scalar as u16]
    } else {
        seq![
            (0xD800 + (scalar - 0x10000) / 0x400) as u16,
            (0xDC00 + (scalar - 0x10000) % 0x400) as u16,
        ]
    }
}

/// The units that encode `chars`.
pub open spec fn encode_utf16(chars: Seq<char>) -> Seq<u16>
    decreases chars.len(),
{
    if chars.len() == 0 {
        seq![]
    } else {
        encode_utf16_char(chars[0]) + encode_utf16(chars.drop_first())
    }
}

/// The scalar value of a character is the character as a number, which is
/// no surrogate and at most `0x10FFFF`.
pub proof fn lemma_char_range(c: char)
    ensures
        c as u32 == c as int,
        0 <= c as int <= 0x10FFFF,
        !(0xD800 <= c as int <= 0xDFFF),
        (c as u32) as char == c,
{
}

/// What encodes a text decodes to that text.
pub proof fn lemma_decode_encode_utf16(chars: Seq<char>)
    ensures
        decode_utf16(encode_utf16(chars)) == Some(chars),
    decreases chars.len(),
{
    if chars.len() == 0 {
        assert(decode_utf16(encode_utf16(chars)) == Some(Seq::<char>::empty()));
        assert(chars =~= Seq::<char>::empty());
    } else {
        let c = chars[0];
        let rest = chars.drop_first();
        let head = encode_utf16_char(c);
        let units = encode_utf16(chars);
        lemma_char_range(c);
        lemma_decode_encode_utf16(rest);
        assert(units == head + encode_utf16(rest));
        assert(units.subrange(head.len() as int, units.len() as int) =~= encode_utf16(rest));
        assert(units[0] == head[0]);
        if (c as u32) < 0x10000 {
            assert(units[0] as char == c);
        } else {
            assert(units[1] == head[1]);
            assert(pair_scalar(units[0], units[1]) == c as u32);
        }
        assert(seq![c] + rest =~= chars);
    }
}

/// Encoding a concatenation gives the concatenation of the encodings.
pub proof fn lemma_encode_utf8_concat(a: Seq<char>, b: Seq<char>)
    ensures
        encode_utf8(a + b) == encode_utf8(a) + encode_utf8(b),
    decreases a.len(),
{
    if a.len() == 0 {
        assert(a + b =~= b);
        assert(encode_utf8(a) + encode_utf8(b) =~= encode_utf8(b));
    } else {
        lemma_encode_utf8_concat(a.drop_first(), b);
        assert((a + b).drop_first() =~= a.drop_first() + b);
        assert(encode_utf8(a + b) =~= encode_utf8(a) + encode_utf8(b));
    }
}

/// The encoding of a single character is that of its scalar value.
pub proof fn lemma_encode_utf8_single(c: char)
    ensures
        encode_utf8(seq![c]) == encode_scalar(c as u32),
{
    reveal_with_fuel(encode_utf8, 2);
    assert(seq![c].drop_first() =~= Seq::<char>::empty());
    assert(encode_utf8(seq![c]) =~= encode_scalar(c as u32));
}

/// The UTF-8 encoding of `scalar`: the bytes, of which the first `r.1` count.
/// `None` where `scalar` is no Unicode scalar value: a surrogate, or beyond
/// `0x10FFFF`.
pub fn encode_scalar_utf8(scalar: u32) -> (r: Option<([u8; 4], usize)>)
    ensures
        r is Some <==> is_scalar(scalar),
        r matches Some((bytes, len)) ==> 1 <= len <= 4 && bytes@.subrange(0, len as int)
            == encode_scalar(scalar),
{
    let mut bytes = [0u8; 4];
    if scalar <= 0x7F {
        bytes[0] = (scalar & 0x7F) as u8;
        assert(bytes@.subrange(0, 1) =~= encode_scalar(scalar));
        Some((bytes, 1))
    } else if scalar <= 0x7FF {
        bytes[0] = 0xC0 | ((scalar >> 6) & 0x1F) as u8;
        bytes[1] = 0x80 | (scalar & 0x3F) as u8;
        assert(bytes@.subrange(0, 2) =~= encode_scalar(scalar));
        Some((bytes, 2))
    } else if 0xD800 <= scalar && scalar <= 0xDFFF {
        None
    } else if scalar <= 0xFFFF {
        bytes[0] = 0xE0 | ((scalar >> 12) & 0x0F) as u8;
        bytes[1] = 0x80 | ((scalar >> 6) & 0x3F) as u8;
        bytes[2] = 0x80 | (scalar & 0x3F) as u8;
        assert(bytes@.subrange(0, 3) =~= encode_scalar(scalar));
        Some((bytes, 3))
    } else if scalar <= 0x10FFFF {
        bytes[0] = 0xF0 | ((scalar >> 18) & 0x7) as u8;
        bytes[1] = 0x80 | ((scalar >> 12) & 0x3F) as u8;
        bytes[2] = 0x80 | ((scalar >> 6) & 0x3F) as u8;
        bytes[3] = 0x80 | (scalar & 0x3F) as u8;
        assert(bytes@.subrange(0, 4) =~= encode_scalar(scalar));
        Some((bytes, 4))
    } else {
        None
    }
}

/// Whether `units` is well-formed UTF-16: every surrogate is one half of a
/// pair.
pub fn is_well_formed(units: &[u16]) -> (r: bool)
    ensures
        r == decode_utf16(units@) is Some,
{
    let n = units.len();
    let mut i: usize = 0;
    assert(units@.subrange(0, n as int) =~= units@);
    while i < n
        invariant
            i <= n == units@.len(),
            decode_utf16(units@) is Some <==> decode_utf16(
                units@.subrange(i as int, n as int),
            ) is Some,
        decreases n - i,
    {
        let ghost rest = units@.subrange(i as int, n as int);
        let unit = units[i];
        if unit < 0xD800 || unit > 0xDFFF {
            assert(rest.subrange(1, rest.len() as int) =~= units@.subrange(i + 1, n as int));
            i += 1;
        } else if unit <= 0xDBFF && i + 1 < n && 0xDC00 <= units[i + 1] && units[i + 1] <= 0xDFFF {
            assert(rest.subrange(2, rest.len() as int) =~= units@.subrange(i + 2, n as int));
            i += 2;
        } else {
            return false;
        }
    }
    assert(units@.subrange(i as int, n as int) =~= Seq::<u16>::empty());
    true
}

} // verus!
