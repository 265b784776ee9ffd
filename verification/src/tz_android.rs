//! Android: the system property `persist.sys.timezone`.

use vstd::prelude::*;

use crate::platform::Error;
use crate::timezone::Timezone;
use crate::{ok_or_failed, parsed, GetTimezoneError};

verus! {

/// The zone that the system property names, where `property` is its value,
/// or `None` where the property is not set or the properties cannot be read.
pub open spec fn zone(property: Option<&str>) -> Result<Timezone, GetTimezoneError> {
    match property {
        Some(value) => parsed(Timezone::named(value@)),
        None => Err(GetTimezoneError::IoError(Error::Other)),
    }
}

/// The zone that the system property names.
pub fn get_timezone_inner(property: Option<&str>) -> (r: Result<Timezone, GetTimezoneError>)
    ensures
        r == zone(property),
{
    match property {
        Some(value) => ok_or_failed(Timezone::new(value)),
        None => Err(GetTimezoneError::IoError(Error::Other)),
    }
}

} // verus!
