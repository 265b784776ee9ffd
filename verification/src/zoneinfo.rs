//! What the POSIX resolvers share: a zone is named by the path of its file
//! below the zoneinfo directory, or by the text of a small file.

use vstd::prelude::*;
use vstd::slice::slice_subrange;
use vstd::string::StringSliceAdditionalSpecFns;
use vstd::utf8::*;

use crate::str_specs::{is_white_space, trimmed};
use crate::timezone::{fits, Timezone};

verus! {

/// The directory of the zone files, with its closing slash.
pub const PREFIX: &'static str = "/usr/share/zoneinfo/";

/// The number of bytes that a resolver reads of a file or of a link at most.
pub const READ_LIMIT: usize = 64;

/// Whether `bytes` starts with `prefix`.
pub open spec fn has_prefix(bytes: Seq<u8>, prefix: Seq<u8>) -> bool {
    prefix.len() <= bytes.len() && bytes.subrange(0, prefix.len() as int) == prefix
}

/// The zone that a link to `target` names: what follows [`PREFIX`] in it,
/// where that is between 1 and 31 bytes of valid UTF-8.
pub open spec fn link_zone(target: Seq<u8>) -> Option<Timezone> {
    let prefix = encode_utf8(PREFIX@);
    if has_prefix(target, prefix) {
        Timezone::encoded(target.subrange(prefix.len() as int, target.len() as int))
    } else {
        None
    }
}

/// The zone that a file with `contents` names: its text without the white
/// space at its end, where `contents` is valid UTF-8 and a [`Timezone`] can
/// hold that text.
pub open spec fn file_zone(contents: Seq<u8>) -> Option<Timezone> {
    if valid_utf8(contents) {
        Timezone::named(trimmed(decode_utf8(contents)))
    } else {
        None
    }
}

/// A link to the file of a zone below [`PREFIX`] names that zone.
pub proof fn lemma_link_to_zone_file(name: Seq<char>)
    requires
        fits(name),
    ensures
        link_zone(encode_utf8(PREFIX@) + encode_utf8(name)) == Some(Timezone::of(name)),
{
    let prefix = encode_utf8(PREFIX@);
    let target = prefix + encode_utf8(name);
    assert(target.subrange(0, prefix.len() as int) =~= prefix);
    assert(target.subrange(prefix.len() as int, target.len() as int) =~= encode_utf8(name));
    Timezone::lemma_encoded(name);
}

/// White space at the end of a text does not count.
pub proof fn lemma_trimmed(name: Seq<char>, space: Seq<char>)
    requires
        forall|i: int| 0 <= i < space.len() ==> is_white_space(#[trigger] space[i]),
        name.len() == 0 || !is_white_space(name.last()),
    ensures
        trimmed(name + space) == name,
    decreases space.len(),
{
    if space.len() == 0 {
        assert(name + space =~= name);
    } else {
        assert((name + space).last() == space.last());
        assert((name + space).drop_last() =~= name + space.drop_last());
        lemma_trimmed(name, space.drop_last());
    }
}

/// A file that holds the name of a zone, and white space behind it, names
/// that zone.
pub proof fn lemma_file_with_name(name: Seq<char>, space: Seq<char>)
    requires
        fits(name),
        !is_white_space(name.last()),
        forall|i: int| 0 <= i < space.len() ==> is_white_space(#[trigger] space[i]),
    ensures
        file_zone(encode_utf8(name + space)) == Some(Timezone::of(name)),
{
    lemma_trimmed(name, space);
    encode_utf8_valid_utf8(name + space);
    encode_utf8_decode_utf8(name + space);
}

/// Whether `bytes` starts with `prefix`.
pub fn starts_with(bytes: &[u8], prefix: &[u8]) -> (r: bool)
    ensures
        r == has_prefix(bytes@, prefix@),
{
    let n = prefix.len();
    if bytes.len() < n {
        return false;
    }
    let mut i: usize = 0;
    while i < n
        invariant
            i <= n == prefix@.len() <= bytes@.len(),
            forall|j: int| 0 <= j < i ==> bytes@[j] == prefix@[j],
        decreases n - i,
    {
        if bytes[i] != prefix[i] {
            assert(bytes@.subrange(0, n as int)[i as int] != prefix@[i as int]);
            return false;
        }
        i += 1;
    }
    assert(bytes@.subrange(0, n as int) =~= prefix@);
    true
}

/// The zone that a link to `target` names.
pub fn zone_of_link(target: &[u8]) -> (r: Option<Timezone>)
    ensures
        r == link_zone(target@),
{
    let prefix = PREFIX.as_bytes();
    if !starts_with(target, prefix) {
        return None;
    }
    Timezone::try_from_utf8(slice_subrange(target, prefix.len(), target.len()))
}

/// The zone that a file with `contents` names.
pub fn zone_of_file(contents: &[u8]) -> (r: Option<Timezone>)
    ensures
        r == file_zone(contents@),
{
    match core::str::from_utf8(contents) {
        Ok(text) => {
            proof {
                broadcast use group_utf8_lib;
            }
            Timezone::new(text.trim_end())
        },
        Err(_) => None,
    }
}

} // verus!
