//! Strings of the Windows Runtime.

use vstd::prelude::*;
use vstd::string::StringSliceAdditionalSpecFns;
use vstd::utf8::*;

use super::HRESULT;
use crate::utf16::lemma_char_range;

verus! {

/// The string is not reference counted.
pub const HSTRING_REFERENCE_FLAG: u32 = 0x1;

/// A flag that the headers of string literals carry besides.
pub const UNKNOWN_FLAG_10: u32 = 0x10;

/// The header of a string, without the address of its text.
#[derive(Debug, Clone, Copy, PartialEq, Eq, Structural)]
pub struct HstringHeader {
    pub flags: u32,
    pub len: u32,
    pub padding1: u32,
    pub padding2: u32,
}

/// A string that the system owns: the address of its header, which is not
/// null.
#[derive(Debug, Clone, Copy, PartialEq, Eq)]
pub struct Hstring(usize);

impl Hstring {
    #[verifier::type_invariant]
    spec fn not_null(&self) -> bool {
        self.0 != 0
    }

    /// The address of the header.
    pub closed spec fn address(&self) -> usize {
        self.0
    }

    /// The string that `GetTimeZone` gave: `status` is its return value and
    /// `string` the address it stored. A null address is a failure that
    /// carries `status`, a success too.
    pub fn from_tz_on_calendar(status: HRESULT, string: usize) -> (r: Result<Self, HRESULT>)
        ensures
            match r {
                Ok(this) => status.0 >= 0 && string != 0 && this.address() == string,
                Err(e) => (status.0 < 0 || string == 0) && e == status,
            },
    {
        if status.0 < 0 || string == 0 {
            return Err(status);
        }
        Ok(Self(string))
    }

    /// The address of the header.
    pub fn as_ptr(&self) -> (r: usize)
        ensures
            r == self.address(),
            r != 0,
    {
        proof {
            use_type_invariant(self);
        }
        self.0
    }
}

/// Whether a string literal can be made of `text`: it is ASCII and holds no
/// NUL.
pub open spec fn is_literal(text: Seq<char>) -> bool {
    forall|i: int| 0 <= i < text.len() ==> '\u{1}' <= #[trigger] text[i] <= '\u{7f}'
}

/// `text` as a wide string with a closing NUL, or `None` where `text` is not
/// ASCII or holds a NUL.
pub fn w(text: &str) -> (r: Option<Vec<u16>>)
    ensures
        r is Some <==> is_literal(text@),
        r matches Some(wide) ==> {
            &&& wide@.len() == text@.len() + 1
            &&& wide@.last() == 0
            &&& forall|i: int| 0 <= i < text@.len() ==> #[trigger] wide@[i] == text@[i] as u32
        },
{
    let input = text.as_bytes();
    let n = input.len();
    let mut buffer: Vec<u16> = Vec::new();
    let mut pos: usize = 0;
    while pos < n
        invariant
            pos <= n == input@.len(),
            input@ == encode_utf8(text@),
            buffer@.len() == pos,
            forall|i: int|
                0 <= i < pos ==> 1 <= #[trigger] input@[i] <= 0x7f && buffer@[i]
                    == input@[i] as u16,
        decreases n - pos,
    {
        let byte = input[pos];
        if byte < 1 || byte > 0x7f {
            proof {
                lemma_not_literal(text@, pos as int);
            }
            return None;
        }
        buffer.push(byte as u16);
        pos += 1;
    }
    proof {
        lemma_ascii_bytes(text@);
        is_ascii_chars_encode_utf8(text@);
        assert forall|i: int| 0 <= i < text@.len() implies '\u{1}' <= #[trigger] text@[i]
            <= '\u{7f}' by {
            assert(text@[i] as u8 == input@[i]);
        }
    }
    buffer.push(0);
    Some(buffer)
}

/// Where the bytes of `text` are ASCII, so are its characters.
proof fn lemma_ascii_bytes(text: Seq<char>)
    requires
        forall|i: int| 0 <= i < encode_utf8(text).len() ==> #[trigger] encode_utf8(text)[i] <= 0x7f,
    ensures
        is_ascii_chars(text),
    decreases text.len(),
{
    if text.len() > 0 {
        let rest = text.drop_first();
        let head = encode_scalar(text[0] as u32);
        char_is_scalar(text[0]);
        assert(encode_utf8(text) == head + encode_utf8(rest));
        assert(encode_utf8(text)[0] == head[0]);
        lemma_leading_byte_is_not_ascii(text[0] as u32);
        assert(has_width_1_encoding(text[0] as u32));
        assert forall|i: int| 0 <= i < encode_utf8(rest).len() implies #[trigger] encode_utf8(
            rest,
        )[i] <= 0x7f by {
            assert(encode_utf8(rest)[i] == encode_utf8(text)[i + 1]);
        }
        lemma_ascii_bytes(rest);
        assert forall|i: int| 0 <= i < text.len() implies '\0' <= #[trigger] text[i]
            <= '\u{7f}' by {
            if i > 0 {
                assert(text[i] == rest[i - 1]);
                assert('\0' <= rest[i - 1] <= '\u{7f}');
            } else {
                lemma_char_range(text[0]);
            }
        }
    }
}

/// The first byte of an encoding of more than one byte is not ASCII.
proof fn lemma_leading_byte_is_not_ascii(scalar: u32)
    requires
        is_scalar(scalar),
    ensures
        !has_width_1_encoding(scalar) ==> encode_scalar(scalar)[0] > 0x7f,
{
    assert(0xC0u8 | ((scalar >> 6) & 0x1F) as u8 > 0x7f) by (bit_vector);
    assert(0xE0u8 | ((scalar >> 12) & 0x0F) as u8 > 0x7f) by (bit_vector);
    assert(0xF0u8 | ((scalar >> 18) & 0x7) as u8 > 0x7f) by (bit_vector);
}

/// Where a byte of `text` is NUL or not ASCII, `text` is no literal.
proof fn lemma_not_literal(text: Seq<char>, at: int)
    requires
        0 <= at < encode_utf8(text).len(),
        encode_utf8(text)[at] < 1 || encode_utf8(text)[at] > 0x7f,
    ensures
        !is_literal(text),
{
    if is_literal(text) {
        assert(is_ascii_chars(text));
        is_ascii_chars_encode_utf8(text);
        assert(encode_utf8(text)[at] == text[at] as u8);
        assert('\u{1}' <= text[at] <= '\u{7f}');
    }
}

/// The header of the literal for `text`, or `None` where there can be none:
/// `text` is not ASCII, holds a NUL, or is too long for the header to tell its
/// length. The empty literal has no header: it is the null string.
pub fn h(text: &str) -> (r: Option<Option<HstringHeader>>)
    ensures
        r is Some <==> is_literal(text@) && text@.len() <= u32::MAX,
        r matches Some(header) ==> header == if text@.len() == 0 {
            None::<HstringHeader>
        } else {
            Some(
                (HstringHeader {
                    flags: HSTRING_REFERENCE_FLAG | UNKNOWN_FLAG_10,
                    len: text@.len() as u32,
                    padding1: 0,
                    padding2: 0,
                }),
            )
        },
{
    match w(text) {
        None => None,
        Some(wide) => {
            let len = wide.len() - 1;
            if len == 0 {
                Some(None)
            } else if len > u32::MAX as usize {
                None
            } else {
                Some(
                    Some(
                        HstringHeader {
                            flags: HSTRING_REFERENCE_FLAG | UNKNOWN_FLAG_10,
                            len: len as u32,
                            padding1: 0,
                            padding2: 0,
                        },
                    ),
                )
            }
        },
    }
}

} // verus!
