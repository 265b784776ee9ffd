//! Emscripten: the time zone that a script asks of `Intl.DateTimeFormat`.

use vstd::prelude::*;

use crate::platform::Error;
use crate::timezone::Timezone;
use crate::{ok_or_failed, parsed, GetTimezoneError};

verus! {

/// The script that is run.
pub const SCRIPT: &'static str = "Intl.DateTimeFormat().resolvedOptions().timeZone";

/// The zone that the script returned, where `result` holds the bytes of the
/// C string that `emscripten_run_script_string` returned, without the NUL,
/// or is `None` where it returned null.
pub open spec fn zone(result: Option<&[u8]>) -> Result<Timezone, GetTimezoneError> {
    match result {
        Some(bytes) => parsed(Timezone::encoded(bytes@)),
        None => Err(GetTimezoneError::IoError(Error::Other)),
    }
}

/// The zone that the script returned.
pub fn get_timezone_inner(result: Option<&[u8]>) -> (r: Result<Timezone, GetTimezoneError>)
    ensures
        r == zone(result),
{
    match result {
        Some(bytes) => ok_or_failed(Timezone::try_from_utf8(bytes)),
        None => Err(GetTimezoneError::IoError(Error::Other)),
    }
}

} // verus!
