//! A time zone name held in fixed storage.

use core::cmp::Ordering;
use core::fmt::Write;

use vstd::prelude::*;
use vstd::pervasive::unreached;
use vstd::slice::slice_subrange;
use vstd::string::StringExecFns;
use vstd::std_specs::cmp::{PartialEqSpecImpl, PartialOrdSpecImpl};
use vstd::std_specs::convert::{FromSpecImpl, TryFromSpecImpl};
use vstd::string::StringSliceAdditionalSpecFns;
use vstd::utf8::*;

use crate::utf16::{
    decode_utf16, encode_scalar_utf8, encode_utf16, lemma_decode_encode_utf16,
    lemma_encode_utf8_concat, lemma_encode_utf8_single,
};

verus! {

/// The greatest number of bytes that a [`Timezone`] holds.
pub const TIMEZONE_MAX_LENGTH: usize = 31;

/// Whether `name`, encoded as UTF-8, has a length that a [`Timezone`] can hold.
pub open spec fn fits(name: Seq<char>) -> bool {
    1 <= encode_utf8(name).len() <= TIMEZONE_MAX_LENGTH
}

/// The name of a time zone: between 1 and 31 bytes of UTF-8.
#[derive(Debug, Clone, Copy, Eq, Ord)]
pub struct Timezone {
    data: [u8; TIMEZONE_MAX_LENGTH],
    length: u8,
}

impl View for Timezone {
    type V = Seq<char>;

    /// The name, as the characters that its bytes encode.
    closed spec fn view(&self) -> Seq<char> {
        decode_utf8(self.bytes())
    }
}

/// Renders `value` into a `String` with `write!`. Whether that succeeds, and
/// with what text, is up to the `Display` implementation of `T`, so nothing is
/// claimed of the result.
#[verifier::external_body]
fn render<T: core::fmt::Display>(value: &T) -> (r: Option<String>) {
    let mut text = String::new();
    match write!(text, "{}", value) {
        Ok(()) => Some(text),
        Err(_) => None,
    }
}

/// The storage that holds the first `n` of `bytes`, and zero behind them.
spec fn storage(bytes: Seq<u8>, n: nat) -> [u8; TIMEZONE_MAX_LENGTH]
    decreases n,
{
    if n == 0 {
        vstd::array::spec_array_fill_for_copy_type::<u8, TIMEZONE_MAX_LENGTH>(0u8)
    } else {
        vstd::array::spec_array_update(storage(bytes, (n - 1) as nat), n - 1, bytes[n - 1])
    }
}

proof fn lemma_storage(bytes: Seq<u8>, n: nat)
    requires
        n <= bytes.len() <= TIMEZONE_MAX_LENGTH,
    ensures
        forall|i: int| 0 <= i < n ==> #[trigger] storage(bytes, n)@[i] == bytes[i],
        forall|i: int| n <= i < TIMEZONE_MAX_LENGTH ==> #[trigger] storage(bytes, n)@[i] == 0,
    decreases n,
{
    if n > 0 {
        let before = storage(bytes, (n - 1) as nat);
        lemma_storage(bytes, (n - 1) as nat);
        vstd::array::axiom_spec_array_update(before, n - 1, bytes[n - 1]);
        assert(storage(bytes, n)@ == before@.update(n - 1, bytes[n - 1]));
        vstd::array::array_len_matches_n(&before);
    } else {
        vstd::array::axiom_spec_array_fill_for_copy_type::<u8, TIMEZONE_MAX_LENGTH>(0u8);
    }
}

impl Timezone {
    /// The bytes in use hold valid UTF-8, and the bytes behind them are zero.
    #[verifier::type_invariant]
    pub closed spec fn well_formed(&self) -> bool {
        &&& 1 <= self.length <= TIMEZONE_MAX_LENGTH
        &&& valid_utf8(self.bytes())
        &&& forall|i: int| self.length <= i < TIMEZONE_MAX_LENGTH ==> self.data@[i] == 0
    }

    /// The bytes of the name.
    pub closed spec fn bytes(&self) -> Seq<u8> {
        self.data@.subrange(0, self.length as int)
    }

    /// The name of a `Timezone` is what its bytes decode to.
    pub proof fn lemma_name_is_decoded(self)
        ensures
            self@ == decode_utf8(self.bytes()),
    {
    }

    /// The bytes of a `Timezone` are the UTF-8 encoding of its name, and
    /// there are between 1 and 31 of them.
    pub proof fn lemma_bytes_encode_the_name(self)
        requires
            self.well_formed(),
        ensures
            self.bytes() == encode_utf8(self@),
            valid_utf8(self.bytes()),
            fits(self@),
    {
        decode_utf8_encode_utf8(self.bytes());
    }

    /// Two `Timezone`s of the same name are the same value.
    pub proof fn lemma_name_determines(self, other: Self)
        requires
            self.well_formed(),
            other.well_formed(),
            self@ == other@,
        ensures
            self == other,
    {
        self.lemma_bytes_encode_the_name();
        other.lemma_bytes_encode_the_name();
        assert(self.bytes().len() == other.bytes().len());
        assert forall|i: int| 0 <= i < TIMEZONE_MAX_LENGTH implies self.data[i]
            == other.data[i] by {
            if i < self.length {
                assert(self.data@[i] == self.bytes()[i]);
                assert(other.data@[i] == other.bytes()[i]);
            }
        }
        assert(self.data =~= other.data);
    }

    /// The `Timezone` of the name `name`, where `name` fits.
    pub closed spec fn of(name: Seq<char>) -> Self {
        choose|tz: Self| tz.well_formed() && tz@ == name
    }

    /// The `Timezone` of the name `name`, or `None` where `name` is empty or
    /// its UTF-8 encoding is longer than [`TIMEZONE_MAX_LENGTH`] bytes.
    pub open spec fn named(name: Seq<char>) -> Option<Self> {
        if fits(name) {
            Some(Self::of(name))
        } else {
            None
        }
    }

    /// The `Timezone` of the name that `bytes` encode, or `None` where
    /// `bytes` are not valid UTF-8, or are none or more than
    /// [`TIMEZONE_MAX_LENGTH`].
    pub open spec fn encoded(bytes: Seq<u8>) -> Option<Self> {
        if valid_utf8(bytes) && 1 <= bytes.len() <= TIMEZONE_MAX_LENGTH {
            Some(Self::of(decode_utf8(bytes)))
        } else {
            None
        }
    }

    /// The `Timezone` of the name that `units` encode, or `None` where
    /// `units` are not well-formed UTF-16 or the name does not fit.
    pub open spec fn transcoded(units: Seq<u16>) -> Option<Self> {
        match decode_utf16(units) {
            Some(name) => Self::named(name),
            None => None,
        }
    }

    /// A name and its UTF-16 encoding give the same `Timezone`.
    pub proof fn lemma_transcoded(name: Seq<char>)
        ensures
            Self::transcoded(encode_utf16(name)) == Self::named(name),
    {
        lemma_decode_encode_utf16(name);
    }

    /// A name and its UTF-8 encoding give the same `Timezone`.
    pub proof fn lemma_encoded(name: Seq<char>)
        ensures
            Self::encoded(encode_utf8(name)) == Self::named(name),
    {
        encode_utf8_valid_utf8(name);
        encode_utf8_decode_utf8(name);
    }

    /// Every name that fits is the name of a `Timezone`, which holds its
    /// UTF-8 encoding: the name that is put in is the name that is read back.
    pub proof fn lemma_of(name: Seq<char>)
        requires
            fits(name),
        ensures
            Self::of(name).well_formed(),
            Self::of(name)@ == name,
            Self::of(name).bytes() == encode_utf8(name),
    {
        let bytes = encode_utf8(name);
        let data = storage(bytes, bytes.len());
        lemma_storage(bytes, bytes.len());
        let tz = Timezone { data, length: bytes.len() as u8 };
        assert(tz.bytes() =~= bytes);
        encode_utf8_valid_utf8(name);
        encode_utf8_decode_utf8(name);
        assert(tz.well_formed() && tz@ == name);
        Self::of(name).lemma_bytes_encode_the_name();
    }

    /// A `Timezone` is the `Timezone` of its name.
    pub proof fn lemma_of_name(self)
        requires
            self.well_formed(),
        ensures
            Self::of(self@) == self,
    {
        self.lemma_name_determines(Self::of(self@));
    }

    /// Copies `s` into a new `Timezone`, or returns `None` if `s` is empty or
    /// longer than [`TIMEZONE_MAX_LENGTH`] bytes.
    pub fn new(s: &str) -> (r: Option<Self>)
        ensures
            r == Self::named(s@),
            r is Some <==> fits(s@),
            r matches Some(tz) ==> tz@ == s@ && tz.bytes() == encode_utf8(s@),
    {
        let src = s.as_bytes();
        let n = src.len();
        if n == 0 || n > TIMEZONE_MAX_LENGTH {
            return None;
        }
        let mut data = [0u8; TIMEZONE_MAX_LENGTH];
        let mut i: usize = 0;
        while i < n
            invariant
                i <= n <= TIMEZONE_MAX_LENGTH,
                n == src@.len(),
                forall|j: int| 0 <= j < i ==> data@[j] == src@[j],
                forall|j: int| i <= j < TIMEZONE_MAX_LENGTH ==> data@[j] == 0,
            decreases n - i,
        {
            data[i] = src[i];
            i += 1;
        }
        proof {
            broadcast use group_utf8_lib;
            assert(data@.subrange(0, n as int) =~= src@);
        }
        let tz = Timezone { data, length: n as u8 };
        proof {
            tz.lemma_of_name();
        }
        Some(tz)
    }

    /// Copies `buf` into a new `Timezone`, or returns `None` if `buf` is not
    /// valid UTF-8, is empty or is longer than [`TIMEZONE_MAX_LENGTH`] bytes.
    pub fn try_from_utf8(buf: &[u8]) -> (r: Option<Self>)
        ensures
            r == Self::encoded(buf@),
            r is Some <==> valid_utf8(buf@) && 1 <= buf@.len() <= TIMEZONE_MAX_LENGTH,
            r matches Some(tz) ==> tz.bytes() == buf@ && tz@ == decode_utf8(buf@),
    {
        match core::str::from_utf8(buf) {
            Ok(s) => {
                proof {
                    broadcast use group_utf8_lib;
                }
                Self::new(s)
            },
            Err(_) => None,
        }
    }

    /// Transcodes UTF-16 into a new `Timezone`, or returns `None` if `buf` is
    /// not well-formed UTF-16 or its UTF-8 form is empty or longer than
    /// [`TIMEZONE_MAX_LENGTH`] bytes.
    pub fn try_from_utf16(buf: &[u16]) -> (r: Option<Self>)
        ensures
            r == Self::transcoded(buf@),
            r is Some <==> (decode_utf16(buf@) matches Some(name) && fits(name)),
            r matches Some(tz) ==> decode_utf16(buf@) == Some(tz@),
    {
        let n = buf.len();
        let mut data = [0u8; TIMEZONE_MAX_LENGTH];
        let mut pos: usize = 0;
        let mut i: usize = 0;
        let ghost mut done: Seq<char> = seq![];
        proof {
            assert(buf@.subrange(0, n as int) =~= buf@);
            assert(data@.subrange(0, 0) =~= encode_utf8(done));
            assert(decode_utf16(buf@) matches Some(rest) ==> done + rest =~= rest);
        }
        while i < n
            invariant
                i <= n == buf@.len(),
                pos <= TIMEZONE_MAX_LENGTH,
                data@.subrange(0, pos as int) == encode_utf8(done),
                forall|j: int| pos <= j < TIMEZONE_MAX_LENGTH ==> data@[j] == 0,
                decode_utf16(buf@) == match decode_utf16(buf@.subrange(i as int, n as int)) {
                    Some(rest) => Some(done + rest),
                    None => None,
                },
            decreases n - i,
        {
            let ghost rest = buf@.subrange(i as int, n as int);
            let unit = buf[i];
            let scalar: u32;
            let step: usize;
            if unit < 0xD800 || unit > 0xDFFF {
                scalar = unit as u32;
                step = 1;
                assert(rest.subrange(1, rest.len() as int) =~= buf@.subrange(i + 1, n as int));
            } else if unit <= 0xDBFF && i + 1 < n && 0xDC00 <= buf[i + 1] && buf[i + 1] <= 0xDFFF {
                scalar = 0x10000 + (unit - 0xD800) as u32 * 0x400 + (buf[i + 1] - 0xDC00) as u32;
                step = 2;
                assert(rest.subrange(2, rest.len() as int) =~= buf@.subrange(i + 2, n as int));
            } else {
                return None;
            }
            let ghost c = scalar as char;
            let ghost tail = buf@.subrange(i + step, n as int);
            assert(decode_utf16(rest) == match decode_utf16(tail) {
                Some(t) => Some(seq![c] + t),
                None => None,
            });
            let (bytes, len) = match encode_scalar_utf8(scalar) {
                Some(encoded) => encoded,
                None => return None,
            };
            proof {
                lemma_encode_utf8_single(c);
                lemma_encode_utf8_concat(done, seq![c]);
                if decode_utf16(tail) is Some {
                    let t = decode_utf16(tail)->Some_0;
                    lemma_encode_utf8_concat(done + seq![c], t);
                    assert(done + (seq![c] + t) =~= (done + seq![c]) + t);
                }
            }
            if len > TIMEZONE_MAX_LENGTH - pos {
                return None;
            }
            let mut k: usize = 0;
            while k < len
                invariant
                    k <= len <= 4,
                    pos + len <= TIMEZONE_MAX_LENGTH,
                    data@.subrange(0, pos as int) == encode_utf8(done),
                    forall|j: int| 0 <= j < k ==> data@[pos + j] == bytes@[j],
                    forall|j: int| pos + k <= j < TIMEZONE_MAX_LENGTH ==> data@[j] == 0,
                decreases len - k,
            {
                let ghost before = data@;
                data[pos + k] = bytes[k];
                assert(data@.subrange(0, pos as int) =~= before.subrange(0, pos as int));
                k += 1;
            }
            proof {
                assert(data@.subrange(0, pos + len) =~= data@.subrange(0, pos as int)
                    + bytes@.subrange(0, len as int));
                done = done + seq![c];
            }
            pos += len;
            i += step;
        }
        proof {
            assert(buf@.subrange(i as int, n as int) =~= Seq::<u16>::empty());
            assert(done + Seq::<char>::empty() =~= done);
            broadcast use group_utf8_lib;
        }
        if pos == 0 {
            return None;
        }
        let tz = Timezone { data, length: pos as u8 };
        proof {
            tz.lemma_of_name();
        }
        Some(tz)
    }

    /// Renders `value` and copies the text into a new `Timezone`. Returns
    /// `None` if rendering fails, or if the text is empty or longer than
    /// [`TIMEZONE_MAX_LENGTH`] bytes: what [`Timezone::from_rendered`] makes
    /// of the rendering, which is up to the `Display` implementation of `T`.
    pub fn try_from_display<T: core::fmt::Display>(value: T) -> (r: Option<Self>)
        ensures
            r matches Some(tz) ==> fits(tz@),
    {
        match render(&value) {
            Some(text) => Self::from_rendered(Some(text.as_str())),
            None => Self::from_rendered(None),
        }
    }

    /// The `Timezone` of the text that a value was rendered to, where
    /// `rendered` is that text, or `None` where rendering failed.
    pub fn from_rendered(rendered: Option<&str>) -> (r: Option<Self>)
        ensures
            r == match rendered {
                Some(text) => Self::named(text@),
                None => None,
            },
            r matches Some(tz) ==> rendered matches Some(text) && tz@ == text@ && fits(text@),
    {
        match rendered {
            Some(text) => Self::new(text),
            None => None,
        }
    }

    /// The name as a string slice.
    pub fn as_str(&self) -> (r: &str)
        ensures
            r@ == self@,
            r.spec_bytes() == self.bytes(),
            fits(r@),
            Self::of(r@) == *self,
    {
        proof {
            use_type_invariant(self);
            self.lemma_of_name();
            broadcast use group_utf8_lib;
        }
        let bytes = slice_subrange(self.data.as_slice(), 0, self.length as usize);
        match core::str::from_utf8(bytes) {
            Ok(s) => s,
            Err(_) => unreached(),
        }
    }

    /// The name as a string slice that can be changed in place.
    ///
    /// This hands out what `core::str::from_utf8_mut` makes of the bytes in
    /// use. It is not proved: the claim is that the slice holds the name, and
    /// that the name is afterwards what the slice was left as. However a
    /// string slice is changed, it keeps its length and stays valid UTF-8.
    #[verifier::external_body]
    pub fn as_mut_str(&mut self) -> (r: &mut str)
        ensures
            r@ == old(self)@,
            final(self)@ == final(r)@,
    {
        let len: usize = self.length.into();
        match core::str::from_utf8_mut(&mut self.data[..len]) {
            Ok(text) => text,
            Err(_) => Default::default(),
        }
    }

    /// The name as bytes.
    pub fn as_bytes(&self) -> (r: &[u8])
        ensures
            r@ == self.bytes(),
            valid_utf8(r@),
            1 <= r@.len() <= TIMEZONE_MAX_LENGTH,
    {
        proof {
            use_type_invariant(self);
        }
        slice_subrange(self.data.as_slice(), 0, self.length as usize)
    }
}

/// How `a` stands to `b` where byte sequences are ordered as in a
/// dictionary: -1 where `a` comes first, 1 where `b` does, 0 where they are
/// the same.
pub open spec fn compare_bytes(a: Seq<u8>, b: Seq<u8>) -> int
    decreases a.len(),
{
    if a.len() == 0 && b.len() == 0 {
        0
    } else if a.len() == 0 {
        -1
    } else if b.len() == 0 {
        1
    } else if a[0] < b[0] {
        -1
    } else if a[0] > b[0] {
        1
    } else {
        compare_bytes(a.drop_first(), b.drop_first())
    }
}

/// Skipping an equal start does not change how two sequences compare.
proof fn lemma_compare_skip(a: Seq<u8>, b: Seq<u8>, n: int)
    requires
        0 <= n <= a.len(),
        n <= b.len(),
        forall|i: int| 0 <= i < n ==> a[i] == b[i],
    ensures
        compare_bytes(a, b) == compare_bytes(a.skip(n), b.skip(n)),
    decreases n,
{
    if n == 0 {
        assert(a.skip(0) =~= a);
        assert(b.skip(0) =~= b);
    } else {
        let a1 = a.drop_first();
        let b1 = b.drop_first();
        assert forall|i: int| 0 <= i < n - 1 implies a1[i] == b1[i] by {
            assert(a1[i] == a[i + 1] && b1[i] == b[i + 1]);
        }
        lemma_compare_skip(a1, b1, n - 1);
        assert(a1.skip(n - 1) =~= a.skip(n));
        assert(b1.skip(n - 1) =~= b.skip(n));
    }
}

/// Compares two byte slices as in a dictionary.
pub fn compare(a: &[u8], b: &[u8]) -> (r: i8)
    ensures
        r == compare_bytes(a@, b@),
{
    let mut i: usize = 0;
    while i < a.len() && i < b.len()
        invariant
            i <= a@.len(),
            i <= b@.len(),
            forall|j: int| 0 <= j < i ==> a@[j] == b@[j],
        decreases a@.len() - i,
    {
        if a[i] != b[i] {
            proof {
                lemma_compare_skip(a@, b@, i as int);
            }
            return if a[i] < b[i] {
                -1
            } else {
                1
            };
        }
        i += 1;
    }
    proof {
        lemma_compare_skip(a@, b@, i as int);
    }
    if i < b.len() {
        -1
    } else if i < a.len() {
        1
    } else {
        0
    }
}

/// Two byte sequences are the same exactly if neither comes before the
/// other.
pub proof fn lemma_compare_equal(a: Seq<u8>, b: Seq<u8>)
    ensures
        compare_bytes(a, b) == 0 <==> a == b,
    decreases a.len(),
{
    if a.len() > 0 && b.len() > 0 && a[0] == b[0] {
        lemma_compare_equal(a.drop_first(), b.drop_first());
        if a.drop_first() == b.drop_first() {
            assert(a =~= seq![a[0]] + a.drop_first());
            assert(b =~= seq![b[0]] + b.drop_first());
        }
    } else if a.len() == 0 && b.len() == 0 {
        assert(a =~= b);
    }
}

impl PartialEq for Timezone {
    fn eq(&self, other: &Self) -> (r: bool) {
        proof {
            use_type_invariant(self);
            use_type_invariant(other);
            lemma_compare_equal(self.bytes(), other.bytes());
            decode_utf8_encode_utf8(self.bytes());
            decode_utf8_encode_utf8(other.bytes());
        }
        compare(self.as_bytes(), other.as_bytes()) == 0
    }
}

impl PartialEqSpecImpl for Timezone {
    open spec fn obeys_eq_spec() -> bool {
        true
    }

    open spec fn eq_spec(&self, other: &Self) -> bool {
        self@ == other@
    }
}

impl PartialOrd for Timezone {
    fn partial_cmp(&self, other: &Self) -> (r: Option<Ordering>) {
        let order = compare(self.as_bytes(), other.as_bytes());
        if order < 0 {
            Some(Ordering::Less)
        } else if order > 0 {
            Some(Ordering::Greater)
        } else {
            Some(Ordering::Equal)
        }
    }
}

impl PartialOrdSpecImpl for Timezone {
    open spec fn obeys_partial_cmp_spec() -> bool {
        true
    }

    open spec fn partial_cmp_spec(&self, other: &Self) -> Option<Ordering> {
        let order = compare_bytes(self.bytes(), other.bytes());
        if order < 0 {
            Some(Ordering::Less)
        } else if order > 0 {
            Some(Ordering::Greater)
        } else {
            Some(Ordering::Equal)
        }
    }
}

/// Feeds `text` into `state` with the `Hash` implementation of `str`, so that
/// a `Timezone` and its name have the same hash. Nothing is claimed of what
/// that does to `state`.
#[verifier::external_body]
fn hash_str<H: core::hash::Hasher>(text: &str, state: &mut H) {
    core::hash::Hash::hash(text, state)
}

impl core::hash::Hash for Timezone {
    fn hash<H: core::hash::Hasher>(&self, state: &mut H) {
        hash_str(self.as_str(), state)
    }
}

impl core::ops::Deref for Timezone {
    type Target = str;

    fn deref(&self) -> (r: &str)
        ensures
            r@ == self@,
    {
        self.as_str()
    }
}

impl AsRef<str> for Timezone {
    fn as_ref(&self) -> (r: &str)
        ensures
            r@ == self@,
    {
        self.as_str()
    }
}

impl AsMut<str> for Timezone {
    fn as_mut(&mut self) -> (r: &mut str)
        ensures
            r@ == old(self)@,
            final(self)@ == final(r)@,
    {
        self.as_mut_str()
    }
}

impl core::ops::DerefMut for Timezone {
    fn deref_mut(&mut self) -> (r: &mut str)
        ensures
            r@ == old(self)@,
            final(self)@ == final(r)@,
    {
        self.as_mut_str()
    }
}

impl core::borrow::BorrowMut<str> for Timezone {
    fn borrow_mut(&mut self) -> (r: &mut str)
        ensures
            ({
                let text: &mut str = r;
                text@ == old(self)@ && final(self)@ == final(text)@
            }),
    {
        self.as_mut_str()
    }
}

impl core::borrow::Borrow<str> for Timezone {
    fn borrow(&self) -> (r: &str)
        ensures
            ({
                let text: &str = r;
                text@ == self@
            }),
    {
        self.as_str()
    }
}

/// Could not convert string into [`Timezone`]
#[derive(Debug, Clone, Copy, PartialEq, Eq, Structural)]
pub struct CovertError;

impl CovertError {
    /// The error in words.
    pub fn message(&self) -> (r: String)
        ensures
            r@ == "could not convert string into Timezone"@,
    {
        String::from_str("could not convert string into Timezone")
    }
}

impl core::str::FromStr for Timezone {
    type Err = CovertError;

    fn from_str(value: &str) -> (r: Result<Self, CovertError>)
        ensures
            r is Ok <==> fits(value@),
            r matches Ok(tz) ==> tz@ == value@,
    {
        match Self::new(value) {
            Some(tz) => Ok(tz),
            None => Err(CovertError),
        }
    }
}

impl TryFrom<&str> for Timezone {
    type Error = CovertError;

    fn try_from(value: &str) -> (r: Result<Self, CovertError>)
        ensures
            r is Ok <==> fits(value@),
            r matches Ok(tz) ==> tz@ == value@,
    {
        match Self::new(value) {
            Some(tz) => Ok(tz),
            None => Err(CovertError),
        }
    }
}

impl TryFromSpecImpl<&str> for Timezone {
    open spec fn obeys_try_from_spec() -> bool {
        true
    }

    open spec fn try_from_spec(value: &str) -> Result<Self, CovertError> {
        match Self::named(value@) {
            Some(tz) => Ok(tz),
            None => Err(CovertError),
        }
    }
}

impl TryFrom<&[u8]> for Timezone {
    type Error = CovertError;

    fn try_from(value: &[u8]) -> (r: Result<Self, CovertError>)
        ensures
            r is Ok <==> valid_utf8(value@) && 1 <= value@.len() <= TIMEZONE_MAX_LENGTH,
            r matches Ok(tz) ==> tz.bytes() == value@ && tz@ == decode_utf8(value@),
    {
        match Self::try_from_utf8(value) {
            Some(tz) => Ok(tz),
            None => Err(CovertError),
        }
    }
}

impl TryFromSpecImpl<&[u8]> for Timezone {
    open spec fn obeys_try_from_spec() -> bool {
        true
    }

    open spec fn try_from_spec(value: &[u8]) -> Result<Self, CovertError> {
        match Self::encoded(value@) {
            Some(tz) => Ok(tz),
            None => Err(CovertError),
        }
    }
}

impl TryFrom<&[u16]> for Timezone {
    type Error = CovertError;

    fn try_from(value: &[u16]) -> (r: Result<Self, CovertError>)
        ensures
            r is Ok <==> (decode_utf16(value@) matches Some(name) && fits(name)),
            r matches Ok(tz) ==> decode_utf16(value@) == Some(tz@),
    {
        match Self::try_from_utf16(value) {
            Some(tz) => Ok(tz),
            None => Err(CovertError),
        }
    }
}

impl TryFromSpecImpl<&[u16]> for Timezone {
    open spec fn obeys_try_from_spec() -> bool {
        true
    }

    open spec fn try_from_spec(value: &[u16]) -> Result<Self, CovertError> {
        match Self::transcoded(value@) {
            Some(tz) => Ok(tz),
            None => Err(CovertError),
        }
    }
}

impl TryFrom<String> for Timezone {
    type Error = CovertError;

    fn try_from(value: String) -> (r: Result<Self, CovertError>)
        ensures
            r is Ok <==> fits(value@),
            r matches Ok(tz) ==> tz@ == value@,
    {
        match Self::new(value.as_str()) {
            Some(tz) => Ok(tz),
            None => Err(CovertError),
        }
    }
}

impl TryFromSpecImpl<String> for Timezone {
    open spec fn obeys_try_from_spec() -> bool {
        true
    }

    open spec fn try_from_spec(value: String) -> Result<Self, CovertError> {
        match Self::named(value@) {
            Some(tz) => Ok(tz),
            None => Err(CovertError),
        }
    }
}

impl From<Timezone> for String {
    fn from(value: Timezone) -> (r: String)
        ensures
            r@ == value@,
    {
        value.as_str().to_owned()
    }
}

impl FromSpecImpl<Timezone> for String {
    open spec fn obeys_from_spec() -> bool {
        false
    }

    open spec fn from_spec(value: Timezone) -> String {
        arbitrary()
    }
}

impl PartialEq<str> for Timezone {
    fn eq(&self, other: &str) -> (r: bool) {
        proof {
            use_type_invariant(self);
            lemma_compare_equal(self.bytes(), other.spec_bytes());
            broadcast use group_utf8_lib;
        }
        compare(self.as_bytes(), other.as_bytes()) == 0
    }
}

impl PartialEqSpecImpl<str> for Timezone {
    open spec fn obeys_eq_spec() -> bool {
        true
    }

    open spec fn eq_spec(&self, other: &str) -> bool {
        self@ == other@
    }
}

impl PartialOrd<str> for Timezone {
    fn partial_cmp(&self, other: &str) -> (r: Option<Ordering>) {
        let order = compare(self.as_bytes(), other.as_bytes());
        if order < 0 {
            Some(Ordering::Less)
        } else if order > 0 {
            Some(Ordering::Greater)
        } else {
            Some(Ordering::Equal)
        }
    }
}

impl PartialOrdSpecImpl<str> for Timezone {
    open spec fn obeys_partial_cmp_spec() -> bool {
        true
    }

    open spec fn partial_cmp_spec(&self, other: &str) -> Option<Ordering> {
        let order = compare_bytes(self.bytes(), other.spec_bytes());
        if order < 0 {
            Some(Ordering::Less)
        } else if order > 0 {
            Some(Ordering::Greater)
        } else {
            Some(Ordering::Equal)
        }
    }
}

} // verus!

