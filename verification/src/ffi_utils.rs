//! Cross platform FFI helpers.

use vstd::prelude::*;
use vstd::string::StringSliceAdditionalSpecFns;
use vstd::utf8::*;

verus! {

/// The system property that holds the name of the current time zone, with
/// the NUL that closes a C string.
pub const ANDROID_TIMEZONE_PROPERTY_NAME: &'static str = "persist.sys.timezone\0";

/// Whether `bytes` are a C string: the last of them is NUL, and no other is.
pub open spec fn is_c_string(bytes: Seq<u8>) -> bool {
    &&& bytes.len() > 0
    &&& bytes.last() == 0
    &&& forall|i: int| 0 <= i < bytes.len() - 1 ==> bytes[i] != 0
}

/// The bytes of [`ANDROID_TIMEZONE_PROPERTY_NAME`], which are a C string.
pub fn android_timezone_property_name() -> (r: &'static [u8])
    ensures
        r@ == ANDROID_TIMEZONE_PROPERTY_NAME.spec_bytes(),
        is_c_string(r@),
        valid_utf8(r@),
{
    proof {
        reveal_strlit("persist.sys.timezone\0");
        let name = ANDROID_TIMEZONE_PROPERTY_NAME@;
        assert(is_ascii_chars(name));
        is_ascii_chars_encode_utf8(name);
        encode_utf8_valid_utf8(name);
    }
    ANDROID_TIMEZONE_PROPERTY_NAME.as_bytes()
}

} // verus!
