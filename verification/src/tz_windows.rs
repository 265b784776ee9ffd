//! Windows: the zone name in the dynamic time zone information.
//!
//! `GetDynamicTimeZoneInformation` fills a record with three names, each a
//! NUL-terminated wide string in a field of fixed size, and returns which of
//! them is in force.

use vstd::prelude::*;
use vstd::slice::slice_subrange;

use crate::platform::Error;
use crate::timezone::Timezone;
use crate::utf16::{decode_utf16, is_well_formed};
use crate::{ok_or_failed, parsed, GetTimezoneError};

verus! {

/// Daylight saving time is not used in the current zone.
pub const TIME_ZONE_ID_UNKNOWN: u32 = 0;

/// The system is in the range of standard time.
pub const TIME_ZONE_ID_STANDARD: u32 = 1;

/// The system is in the range of daylight saving time.
pub const TIME_ZONE_ID_DAYLIGHT: u32 = 2;

/// The call failed.
pub const TIME_ZONE_ID_INVALID: u32 = 0xFFFF_FFFF;

/// The names in a `DYNAMIC_TIME_ZONE_INFORMATION` record.
pub struct DynamicTimeZoneInformation {
    /// The display name of standard time.
    pub standard_name: [u16; 32],
    /// The display name of daylight saving time.
    pub daylight_name: [u16; 32],
    /// The name of the zone's key in the registry.
    pub time_zone_key_name: [u16; 128],
}

/// The units of `field` before its first NUL, or `None` where `field` holds no
/// NUL.
pub open spec fn until_nul(field: Seq<u16>) -> Option<Seq<u16>>
    decreases field.len(),
{
    if field.len() == 0 {
        None
    } else if field[0] == 0 {
        Some(seq![])
    } else {
        match until_nul(field.drop_first()) {
            Some(rest) => Some(seq![field[0]] + rest),
            None => None,
        }
    }
}

/// The field of `info` that holds the name under `status`: the registry key
/// name where daylight saving time is not in use, else the display name of
/// the range that the system is in. `None` for any other status.
pub open spec fn selected_field(status: u32, info: DynamicTimeZoneInformation) -> Option<
    Seq<u16>,
> {
    if status == TIME_ZONE_ID_UNKNOWN {
        Some(info.time_zone_key_name@)
    } else if status == TIME_ZONE_ID_STANDARD {
        Some(info.standard_name@)
    } else if status == TIME_ZONE_ID_DAYLIGHT {
        Some(info.daylight_name@)
    } else {
        None
    }
}

/// The text that `field` holds: the units before its first NUL, where they
/// are well-formed UTF-16. A field without a NUL holds nothing that can be
/// parsed, and text that is not well-formed is a platform error.
pub open spec fn text_in(field: Seq<u16>) -> Result<Seq<u16>, GetTimezoneError> {
    match until_nul(field) {
        Some(units) => if decode_utf16(units) is Some {
            Ok(units)
        } else {
            Err(GetTimezoneError::IoError(Error::Other))
        },
        None => Err(GetTimezoneError::FailedParsingString),
    }
}

/// Whether `r` is `text` as a slice.
pub open spec fn is_text(
    r: Result<&[u16], GetTimezoneError>,
    text: Result<Seq<u16>, GetTimezoneError>,
) -> bool {
    match text {
        Ok(units) => r matches Ok(slice) && slice@ == units,
        Err(e) => r == Err::<&[u16], _>(e),
    }
}

/// The zone that `field` names: its text as a name, where a [`Timezone`] can
/// hold it.
pub open spec fn name_in(field: Seq<u16>) -> Result<Timezone, GetTimezoneError> {
    match text_in(field) {
        Ok(units) => parsed(Timezone::transcoded(units)),
        Err(e) => Err(e),
    }
}

/// The zone in what `GetDynamicTimeZoneInformation` returned, where `status`
/// is its return value, `info` the record it filled, and `last_error` what
/// `GetLastError` gave after a `status` of [`TIME_ZONE_ID_INVALID`].
///
/// That status is a platform error that carries `last_error`, and a status
/// that the system does not define is a platform error without a code.
pub open spec fn zone(status: u32, info: DynamicTimeZoneInformation, last_error: i32) -> Result<
    Timezone,
    GetTimezoneError,
> {
    match selected_field(status, info) {
        Some(field) => name_in(field),
        None => Err(status_error(status, last_error)),
    }
}

/// The error of a `status` under which no field holds the name.
pub open spec fn status_error(status: u32, last_error: i32) -> GetTimezoneError {
    if status == TIME_ZONE_ID_INVALID {
        GetTimezoneError::IoError(Error::Os(last_error))
    } else {
        GetTimezoneError::IoError(Error::Other)
    }
}

/// The name of the registry key as it is handed to
/// `ucal_getTimeZoneIDForWindowsID`: the text of its field, under every
/// `status` under which a field holds the name.
pub open spec fn key_text(status: u32, info: DynamicTimeZoneInformation, last_error: i32) -> Result<
    Seq<u16>,
    GetTimezoneError,
> {
    match selected_field(status, info) {
        Some(_) => text_in(info.time_zone_key_name@),
        None => Err(status_error(status, last_error)),
    }
}

/// The region as it is handed to `ucal_getTimeZoneIDForWindowsID`, where
/// `written` is the return value of `GetUserDefaultGeoName`, which counts
/// the NUL and is 0 after a failure; `buffer` is what it filled, and
/// `last_error` what `GetLastError` gave after a failure.
pub open spec fn region_text(written: i32, buffer: Seq<u16>, last_error: i32) -> Result<
    Seq<u16>,
    GetTimezoneError,
> {
    if written == 0 {
        Err(GetTimezoneError::IoError(Error::Os(last_error)))
    } else if 0 < written <= buffer.len() {
        text_in(buffer.subrange(0, written as int))
    } else {
        Err(GetTimezoneError::FailedParsingString)
    }
}

/// The zone in what `ucal_getTimeZoneIDForWindowsID` returned, where
/// `written` is its return value, `buffer` what it filled, and `status` the
/// `UErrorCode` it left.
///
/// A `status` other than zero is a platform error that carries it. Else the
/// first `written` units of `buffer` are the name.
pub open spec fn icu_zone(status: i32, written: i32, buffer: Seq<u16>) -> Result<
    Timezone,
    GetTimezoneError,
> {
    if status != 0 {
        Err(GetTimezoneError::IoError(Error::Os(status)))
    } else if 0 <= written <= buffer.len() {
        parsed(Timezone::transcoded(buffer.subrange(0, written as int)))
    } else {
        Err(GetTimezoneError::FailedParsingString)
    }
}

/// A field holds the text that stands before its first NUL, whatever
/// stands behind that.
pub proof fn lemma_text_before_nul(text: Seq<u16>, rest: Seq<u16>)
    requires
        forall|i: int| 0 <= i < text.len() ==> text[i] != 0,
    ensures
        until_nul(text + seq![0u16] + rest) == Some(text),
{
    let field = text + seq![0u16] + rest;
    lemma_until_nul(field, text.len() as int);
    assert(field.subrange(0, text.len() as int) =~= text);
}

/// Where no unit before `at` is NUL, the first NUL of `field` is the first
/// NUL from `at` on.
proof fn lemma_until_nul(field: Seq<u16>, at: int)
    requires
        0 <= at <= field.len(),
        forall|i: int| 0 <= i < at ==> field[i] != 0,
    ensures
        at < field.len() && field[at] == 0 ==> until_nul(field) == Some(field.subrange(0, at)),
        at == field.len() ==> until_nul(field) is None,
    decreases at,
{
    if at == 0 {
        assert(field.subrange(0, 0) =~= Seq::<u16>::empty());
    } else {
        let rest = field.drop_first();
        assert forall|i: int| 0 <= i < at - 1 implies rest[i] != 0 by {
            assert(rest[i] == field[i + 1]);
        }
        lemma_until_nul(rest, at - 1);
        if at < field.len() && field[at] == 0 {
            assert(rest[at - 1] == field[at]);
            assert(seq![field[0]] + rest.subrange(0, at - 1) =~= field.subrange(0, at));
        }
    }
}

/// The units of `field` before its first NUL.
pub fn terminated(field: &[u16]) -> (r: Option<&[u16]>)
    ensures
        match until_nul(field@) {
            Some(units) => r matches Some(text) && text@ == units,
            None => r is None,
        },
{
    let n = field.len();
    let mut at: usize = 0;
    while at < n
        invariant
            at <= n == field@.len(),
            forall|i: int| 0 <= i < at ==> field@[i] != 0,
        decreases n - at,
    {
        if field[at] == 0 {
            proof {
                lemma_until_nul(field@, at as int);
            }
            return Some(slice_subrange(field, 0, at));
        }
        at += 1;
    }
    proof {
        lemma_until_nul(field@, at as int);
    }
    None
}

/// The text that `field` holds.
pub fn text_of(field: &[u16]) -> (r: Result<&[u16], GetTimezoneError>)
    ensures
        is_text(r, text_in(field@)),
{
    match terminated(field) {
        Some(units) => if is_well_formed(units) {
            Ok(units)
        } else {
            Err(GetTimezoneError::IoError(Error::Other))
        },
        None => Err(GetTimezoneError::FailedParsingString),
    }
}

/// The zone that `field` names.
pub fn name_from_field(field: &[u16]) -> (r: Result<Timezone, GetTimezoneError>)
    ensures
        r == name_in(field@),
{
    match text_of(field) {
        Ok(units) => ok_or_failed(Timezone::try_from_utf16(units)),
        Err(e) => Err(e),
    }
}

/// The zone in what `GetDynamicTimeZoneInformation` returned.
pub fn get_timezone_inner(status: u32, info: &DynamicTimeZoneInformation, last_error: i32) -> (r:
    Result<Timezone, GetTimezoneError>)
    ensures
        r == zone(status, *info, last_error),
{
    if status == TIME_ZONE_ID_INVALID {
        Err(GetTimezoneError::IoError(Error::Os(last_error)))
    } else if status == TIME_ZONE_ID_UNKNOWN {
        name_from_field(info.time_zone_key_name.as_slice())
    } else if status == TIME_ZONE_ID_STANDARD {
        name_from_field(info.standard_name.as_slice())
    } else if status == TIME_ZONE_ID_DAYLIGHT {
        name_from_field(info.daylight_name.as_slice())
    } else {
        Err(GetTimezoneError::IoError(Error::Other))
    }
}

/// The name of the registry key as it is handed to
/// `ucal_getTimeZoneIDForWindowsID`. The arguments are those of
/// [`get_timezone_inner`].
pub fn windows_id(status: u32, info: &DynamicTimeZoneInformation, last_error: i32) -> (r: Result<
    &[u16],
    GetTimezoneError,
>)
    ensures
        is_text(r, key_text(status, *info, last_error)),
{
    if status == TIME_ZONE_ID_INVALID {
        return Err(GetTimezoneError::IoError(Error::Os(last_error)));
    }
    if status != TIME_ZONE_ID_UNKNOWN && status != TIME_ZONE_ID_STANDARD && status
        != TIME_ZONE_ID_DAYLIGHT {
        return Err(GetTimezoneError::IoError(Error::Other));
    }
    text_of(info.time_zone_key_name.as_slice())
}

/// The region that `GetUserDefaultGeoName` reported, as it is handed to
/// `ucal_getTimeZoneIDForWindowsID`.
pub fn region_hint<'a>(written: i32, buffer: &'a [u16], last_error: i32) -> (r: Result<
    &'a [u16],
    GetTimezoneError,
>)
    ensures
        is_text(r, region_text(written, buffer@, last_error)),
{
    if written == 0 {
        return Err(GetTimezoneError::IoError(Error::Os(last_error)));
    }
    if written < 0 || written as usize > buffer.len() {
        return Err(GetTimezoneError::FailedParsingString);
    }
    text_of(slice_subrange(buffer, 0, written as usize))
}

/// The zone in what `ucal_getTimeZoneIDForWindowsID` returned.
pub fn from_icu(status: i32, written: i32, buffer: &[u16]) -> (r: Result<
    Timezone,
    GetTimezoneError,
>)
    ensures
        r == icu_zone(status, written, buffer@),
{
    if status != 0 {
        return Err(GetTimezoneError::IoError(Error::Os(status)));
    }
    if written < 0 || written as usize > buffer.len() {
        return Err(GetTimezoneError::FailedParsingString);
    }
    ok_or_failed(Timezone::try_from_utf16(slice_subrange(buffer, 0, written as usize)))
}

} // verus!
