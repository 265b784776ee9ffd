//! The browser: the time zone of the resolved options of
//! `Intl.DateTimeFormat`.

use vstd::prelude::*;

use crate::timezone::Timezone;
use crate::{ok_or_failed, parsed, GetTimezoneError};

verus! {

/// The property of the resolved options that names the zone.
pub const PROPERTY: &'static str = "timeZone";

/// The zone that the property [`PROPERTY`] names, where `time_zone` is its
/// value, or `None` where the options have no such property or it is no
/// string.
pub open spec fn zone(time_zone: Option<&str>) -> Result<Timezone, GetTimezoneError> {
    match time_zone {
        Some(value) => parsed(Timezone::named(value@)),
        None => Err(GetTimezoneError::FailedParsingString),
    }
}

/// The zone that the property [`PROPERTY`] names.
pub fn get_timezone_inner(time_zone: Option<&str>) -> (r: Result<Timezone, GetTimezoneError>)
    ensures
        r == zone(time_zone),
{
    match time_zone {
        Some(value) => ok_or_failed(Timezone::new(value)),
        None => Err(GetTimezoneError::FailedParsingString),
    }
}

} // verus!
