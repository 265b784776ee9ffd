//! NetBSD and OpenBSD: the target of the link `/etc/localtime`.
//!
//! The caller calls `readlink` for [`PATH`] with a buffer of [`READ_LIMIT`]
//! bytes, and at once hands what it returned to [`get_timezone_inner`].

use vstd::prelude::*;
use vstd::slice::slice_subrange;

use crate::platform::Error;
use crate::timezone::Timezone;
use crate::zoneinfo::{link_zone, zone_of_link, READ_LIMIT};
use crate::{ok_or_failed, parsed, GetTimezoneError};

verus! {

/// The symbolic link whose target names the zone.
pub const PATH: &'static str = "/etc/localtime";

/// The zone in what `readlink` returned for [`PATH`]: `len` is its return
/// value, `buf` the buffer it filled, and `errno` the error number it left
/// where `len` is negative. A `len` beyond the buffer names no zone.
pub open spec fn zone(len: isize, buf: [u8; READ_LIMIT], errno: i32) -> Result<
    Timezone,
    GetTimezoneError,
> {
    if len < 0 {
        Err(GetTimezoneError::IoError(Error::Os(errno)))
    } else if len > READ_LIMIT {
        Err(GetTimezoneError::FailedParsingString)
    } else {
        parsed(link_zone(buf@.subrange(0, len as int)))
    }
}

/// The error number of the calling thread, as `errno::errno` reads it. It is
/// whatever the last call of the system left there, so nothing is claimed of
/// it.
#[verifier::external_body]
fn last_error() -> (r: i32) {
    errno::errno().0
}

/// The zone in what `readlink` returned for [`PATH`], where the error number
/// is `errno`.
pub fn zone_of_readlink(len: isize, buf: &[u8; READ_LIMIT], errno: i32) -> (r: Result<
    Timezone,
    GetTimezoneError,
>)
    ensures
        r == zone(len, *buf, errno),
{
    if len < 0 {
        return Err(GetTimezoneError::IoError(Error::Os(errno)));
    }
    let len = len as usize;
    if len > READ_LIMIT {
        return Err(GetTimezoneError::FailedParsingString);
    }
    ok_or_failed(zone_of_link(slice_subrange(buf.as_slice(), 0, len)))
}

/// The zone in what `readlink` returned for [`PATH`]. Where `len` is
/// negative, the error is the error number of the calling thread as it
/// stands at this call.
pub fn get_timezone_inner(len: isize, buf: &[u8; READ_LIMIT]) -> (r: Result<
    Timezone,
    GetTimezoneError,
>)
    ensures
        len >= 0 ==> r == zone(len, *buf, 0),
        len < 0 ==> exists|errno: i32| r == #[trigger] zone(len, *buf, errno),
{
    if len < 0 {
        zone_of_readlink(len, buf, last_error())
    } else {
        zone_of_readlink(len, buf, 0)
    }
}

} // verus!
