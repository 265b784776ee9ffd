//! macOS and iOS: the name of the system time zone that Core Foundation
//! reports.
//!
//! The caller makes the calls that [`Step`] names, starting from
//! [`Step::CopySystem`], and hands each answer to [`get_timezone`] until the
//! step is [`Step::Done`]. It releases the time zone object on every path.

use vstd::prelude::*;
use vstd::slice::slice_subrange;
use vstd::utf8::*;

use crate::platform::Error;
use crate::timezone::Timezone;
use crate::GetTimezoneError;

verus! {

/// The size of the buffer into which the name is converted. The name is
/// shorter than that.
pub const MAX_LEN: usize = 32;

/// What the caller is to do next.
#[derive(Debug, Clone, Copy, PartialEq, Eq)]
pub enum Step {
    /// Call `CFTimeZoneCopySystem`.
    CopySystem,
    /// Call `CFTimeZoneGetName` on the time zone.
    GetName,
    /// Call `CFStringGetCStringPtr` on the name, for the encoding UTF-8.
    GetCStringPtr,
    /// Call `CFStringGetLength` on the name, then `CFStringGetBytes` for the
    /// whole of it, the encoding UTF-8 and a buffer of [`MAX_LEN`] bytes.
    GetBytes,
    /// Return this name, or fail where there is none.
    Done(Option<Timezone>),
}

/// What Core Foundation answered.
pub enum Answer<'a> {
    /// `CFTimeZoneCopySystem` returned a time zone, or null.
    TimeZone {
        /// Whether it returned null.
        is_null: bool,
    },
    /// `CFTimeZoneGetName` returned a name, or null.
    Name {
        /// Whether it returned null.
        is_null: bool,
    },
    /// `CFStringGetCStringPtr` returned a C string, of which these are the
    /// bytes before the NUL, or null.
    CString(Option<&'a [u8]>),
    /// `CFStringGetBytes` returned.
    Bytes {
        /// The length of the name that `CFStringGetLength` returned.
        length: isize,
        /// The number of characters converted: the return value.
        converted: isize,
        /// The buffer that it filled.
        buf: &'a [u8; MAX_LEN],
        /// The number of bytes that it says it wrote.
        buf_bytes: isize,
    },
}

/// The step after Core Foundation gave `answer`.
///
/// A null reference ends the resolution without a name. So does a C string
/// that is valid UTF-8 but empty or too long; one that is not valid UTF-8
/// leads to the conversion, as a null C string does. The conversion gives
/// the name where it converted the whole of it into valid UTF-8 of between 1
/// and 31 bytes.
pub open spec fn next_step(answer: Answer) -> Step {
    match answer {
        Answer::TimeZone { is_null } => if is_null {
            Step::Done(None)
        } else {
            Step::GetName
        },
        Answer::Name { is_null } => if is_null {
            Step::Done(None)
        } else {
            Step::GetCStringPtr
        },
        Answer::CString(None) => Step::GetBytes,
        Answer::CString(Some(bytes)) => if valid_utf8(bytes@) {
            Step::Done(Timezone::encoded(bytes@))
        } else {
            Step::GetBytes
        },
        Answer::Bytes { length, converted, buf, buf_bytes } => if converted == length && 1
            <= buf_bytes < MAX_LEN {
            Step::Done(Timezone::encoded(buf@.subrange(0, buf_bytes as int)))
        } else {
            Step::Done(None)
        },
    }
}

/// The result of a resolution that ended with `name`: every failure is the
/// same platform error.
pub open spec fn result(name: Option<Timezone>) -> Result<Timezone, GetTimezoneError> {
    match name {
        Some(tz) => Ok(tz),
        None => Err(GetTimezoneError::IoError(Error::Other)),
    }
}

/// Takes an answer of Core Foundation, and says what to do next.
pub fn get_timezone(answer: Answer) -> (next: Step)
    ensures
        next == next_step(answer),
{
    match answer {
        Answer::TimeZone { is_null } => if is_null {
            Step::Done(None)
        } else {
            Step::GetName
        },
        Answer::Name { is_null } => if is_null {
            Step::Done(None)
        } else {
            Step::GetCStringPtr
        },
        Answer::CString(None) => Step::GetBytes,
        Answer::CString(Some(bytes)) => match core::str::from_utf8(bytes) {
            Ok(_) => Step::Done(Timezone::try_from_utf8(bytes)),
            Err(_) => Step::GetBytes,
        },
        Answer::Bytes { length, converted, buf, buf_bytes } => {
            if converted != length {
                // Could not convert the name.
                Step::Done(None)
            } else if buf_bytes < 1 || buf_bytes >= MAX_LEN as isize {
                // The name should not be empty, or excessively long.
                Step::Done(None)
            } else {
                Step::Done(
                    Timezone::try_from_utf8(slice_subrange(buf.as_slice(), 0, buf_bytes as usize)),
                )
            }
        },
    }
}

/// The result of a resolution that ended with `name`.
pub fn get_timezone_inner(name: Option<Timezone>) -> (r: Result<Timezone, GetTimezoneError>)
    ensures
        r == result(name),
{
    match name {
        Some(tz) => Ok(tz),
        None => Err(GetTimezoneError::IoError(Error::Other)),
    }
}

} // verus!
