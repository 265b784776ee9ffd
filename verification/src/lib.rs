//! Determine the IANA time zone that the host is configured with.
//!
//! The library holds the rules by which each supported platform's native
//! answer becomes a validated [`Timezone`]; reading that answer from the
//! operating system is left to the caller. The library does no input or
//! output and keeps no state between calls, and none of its functions
//! panics.
//!
//! There is one module for each platform. Where one reading of the system is
//! enough, the module has a function from that reading to the result. Where
//! a resolver reads the system more than once, its module has a `Step` that
//! names what is to be read next, and a function from what was read to the
//! next step; the caller does as the step says until it is `Done`.
//!
//! | platform                     | module                   |
//! |------------------------------|--------------------------|
//! | Linux                        | [`tz_linux`]             |
//! | FreeBSD, DragonFly           | [`tz_freebsd`]           |
//! | NetBSD, OpenBSD              | [`tz_netbsd`]            |
//! | macOS, iOS                   | [`tz_macos`]             |
//! | Windows, by a calendar       | [`windows`]              |
//! | Windows, by the registry key | [`tz_windows`]           |
//! | Android                      | [`tz_android`]           |
//! | Haiku                        | [`tz_haiku`]             |
//! | the browser                  | [`tz_wasm32`]            |
//! | Emscripten                   | [`tz_wasm32_emscripten`] |
//! | WASI                         | [`tz_wasm32_wasi`]       |
//! | VxWorks                      | [`tz_vxworks`]           |
//! | any other                    | [`platform`]             |

use vstd::prelude::*;
use vstd::std_specs::convert::FromSpecImpl;
use vstd::string::StringExecFns;

pub mod ffi_utils;
pub mod platform;
pub mod str_specs;
pub mod timezone;
pub mod tz_android;
pub mod tz_freebsd;
pub mod tz_haiku;
pub mod tz_linux;
pub mod tz_macos;
pub mod tz_netbsd;
pub mod tz_vxworks;
pub mod tz_wasm32;
pub mod tz_wasm32_emscripten;
pub mod tz_wasm32_wasi;
pub mod tz_windows;
pub mod utf16;
pub mod windows;
pub mod zoneinfo;

pub use crate::timezone::{CovertError, Timezone};

verus! {

/// Why the time zone could not be determined.
#[derive(Debug, Clone, Copy, PartialEq, Eq, Structural)]
pub enum GetTimezoneError {
    /// Platform-specific error from the operating system
    IoError(platform::Error),
    /// Failed to parse
    FailedParsingString,
}

/// What a resolver returns for `zone`: the zone, or
/// [`GetTimezoneError::FailedParsingString`] where what was found names none.
pub open spec fn parsed(zone: Option<Timezone>) -> Result<Timezone, GetTimezoneError> {
    match zone {
        Some(tz) => Ok(tz),
        None => Err(GetTimezoneError::FailedParsingString),
    }
}

/// What a resolver returns for `zone`.
#[verifier::when_used_as_spec(parsed)]
pub fn ok_or_failed(zone: Option<Timezone>) -> (r: Result<Timezone, GetTimezoneError>)
    ensures
        r == parsed(zone),
{
    match zone {
        Some(tz) => Ok(tz),
        None => Err(GetTimezoneError::FailedParsingString),
    }
}

/// The text that `format!` makes of `err` with its derived `Debug`. Nothing
/// is claimed of it.
#[verifier::external_body]
fn debug_text(err: &platform::Error) -> (r: String) {
    format!("{:?}", err)
}

impl GetTimezoneError {
    /// The error in words: for a platform error the words
    /// `platform-specific error: ` and then the error as `Debug` writes it,
    /// else `no valid timezone found`.
    pub fn message(&self) -> (r: String)
        ensures
            match self {
                GetTimezoneError::IoError(_) => {
                    let intro = "platform-specific error: "@;
                    r@.len() >= intro.len() && r@.subrange(0, intro.len() as int) == intro
                },
                GetTimezoneError::FailedParsingString => r@ == "no valid timezone found"@,
            },
    {
        match self {
            GetTimezoneError::IoError(err) => {
                let intro = String::from_str("platform-specific error: ");
                let text = debug_text(err);
                let r = intro.concat(text.as_str());
                assert(r@.subrange(0, intro@.len() as int) =~= intro@);
                r
            },
            GetTimezoneError::FailedParsingString => String::from_str("no valid timezone found"),
        }
    }
}

impl From<platform::Error> for GetTimezoneError {
    fn from(value: platform::Error) -> (r: Self) {
        Self::IoError(value)
    }
}

impl FromSpecImpl<platform::Error> for GetTimezoneError {
    open spec fn obeys_from_spec() -> bool {
        true
    }

    open spec fn from_spec(value: platform::Error) -> Self {
        Self::IoError(value)
    }
}

} // verus!
