//! Linux: the target of the link `/etc/localtime`, else the text of
//! `/etc/timezone`.
//!
//! The caller reads what [`Step`] names and hands it to
//! [`get_timezone_inner`], starting from [`Step::ReadLocaltime`], until the
//! step is [`Step::Done`].

use vstd::prelude::*;

use crate::platform::Error;
use crate::timezone::Timezone;
use crate::zoneinfo::{file_zone, link_zone, zone_of_file, zone_of_link, READ_LIMIT};
use crate::{ok_or_failed, parsed, GetTimezoneError};

verus! {

/// The symbolic link whose target names the zone.
pub const LOCALTIME: &'static str = "/etc/localtime";

/// The file whose text names the zone.
pub const TIMEZONE: &'static str = "/etc/timezone";

/// What the caller is to do next.
#[derive(Debug, Clone, Copy, PartialEq, Eq)]
pub enum Step {
    /// Read the target of the symbolic link [`LOCALTIME`].
    ReadLocaltime,
    /// Read the file [`TIMEZONE`], [`READ_LIMIT`] bytes and one more at most.
    ReadTimezone,
    /// Return this result.
    Done(Result<Timezone, GetTimezoneError>),
}

/// The zone that the link [`LOCALTIME`] names, where `target` is its target
/// as bytes, or the error of reading the link.
pub open spec fn localtime_zone(target: Result<&[u8], Error>) -> Result<
    Timezone,
    GetTimezoneError,
> {
    match target {
        Ok(bytes) => parsed(link_zone(bytes@)),
        Err(e) => Err(GetTimezoneError::IoError(e)),
    }
}

/// The zone that the file [`TIMEZONE`] names, where `contents` is what the
/// file holds, or the error of reading it. A file of more than
/// [`READ_LIMIT`] bytes names no zone.
pub open spec fn timezone_zone(contents: Result<&[u8], Error>) -> Result<
    Timezone,
    GetTimezoneError,
> {
    match contents {
        Ok(bytes) => if bytes@.len() <= READ_LIMIT {
            parsed(file_zone(bytes@))
        } else {
            Err(GetTimezoneError::FailedParsingString)
        },
        Err(e) => Err(GetTimezoneError::IoError(e)),
    }
}

/// The step after `step`, where `reading` is what the caller read for it.
///
/// A link that names a zone ends the resolution. Any other outcome of
/// reading the link, an error too, leads to the file, whose outcome is the
/// result.
pub open spec fn next_step(step: Step, reading: Result<&[u8], Error>) -> Step {
    match step {
        Step::ReadLocaltime => match localtime_zone(reading) {
            Ok(tz) => Step::Done(Ok(tz)),
            Err(_) => Step::ReadTimezone,
        },
        Step::ReadTimezone => Step::Done(timezone_zone(reading)),
        Step::Done(_) => step,
    }
}

/// The result of a whole resolution in which reading the link gave `link`
/// and reading the file, if it came to that, gave `file`.
pub open spec fn resolution(link: Result<&[u8], Error>, file: Result<&[u8], Error>) -> Result<
    Timezone,
    GetTimezoneError,
> {
    match localtime_zone(link) {
        Ok(tz) => Ok(tz),
        Err(_) => timezone_zone(file),
    }
}

/// Two steps from the start end the resolution, the first alone where the
/// link names a zone, and the result is that of [`resolution`].
pub proof fn lemma_two_steps(link: Result<&[u8], Error>, file: Result<&[u8], Error>)
    ensures
        localtime_zone(link) is Ok ==> next_step(Step::ReadLocaltime, link) == Step::Done(
            resolution(link, file),
        ),
        localtime_zone(link) is Err ==> next_step(Step::ReadLocaltime, link) == Step::ReadTimezone,
        next_step(next_step(Step::ReadLocaltime, link), file) == Step::Done(
            resolution(link, file),
        ),
{
}

/// The zone that the target of the link [`LOCALTIME`] names.
pub fn etc_localtime(target: Result<&[u8], Error>) -> (r: Result<Timezone, GetTimezoneError>)
    ensures
        r == localtime_zone(target),
{
    match target {
        Ok(bytes) => ok_or_failed(zone_of_link(bytes)),
        Err(e) => Err(GetTimezoneError::IoError(e)),
    }
}

/// The zone that the file [`TIMEZONE`] names.
pub fn etc_timezone(contents: Result<&[u8], Error>) -> (r: Result<Timezone, GetTimezoneError>)
    ensures
        r == timezone_zone(contents),
{
    match contents {
        Ok(bytes) => {
            if bytes.len() > READ_LIMIT {
                return Err(GetTimezoneError::FailedParsingString);
            }
            ok_or_failed(zone_of_file(bytes))
        },
        Err(e) => Err(GetTimezoneError::IoError(e)),
    }
}

/// Takes what the caller read for `step`, and says what to do next.
pub fn get_timezone_inner(step: Step, reading: Result<&[u8], Error>) -> (next: Step)
    ensures
        next == next_step(step, reading),
{
    match step {
        Step::ReadLocaltime => match etc_localtime(reading) {
            Ok(tz) => Step::Done(Ok(tz)),
            Err(_) => Step::ReadTimezone,
        },
        Step::ReadTimezone => Step::Done(etc_timezone(reading)),
        Step::Done(r) => Step::Done(r),
    }
}

} // verus!
