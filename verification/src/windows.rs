//! Windows: the time zone of a `Windows.Globalization.Calendar` object.
//!
//! The caller makes the calls that [`Step`] names, starting from
//! [`Step::Activate`] with `retried` unset, and hands each answer to
//! [`get_timezone_inner`] until the step is [`Step::Done`]. It releases every
//! object and string it was given, on every path.

use vstd::prelude::*;
use vstd::std_specs::convert::FromSpecImpl;

use crate::platform::Error;
use crate::timezone::Timezone;
use crate::{ok_or_failed, parsed, GetTimezoneError};

pub mod hstring;
pub mod inspectable;
pub mod tz_on_calendar;
pub mod winapi;

use self::hstring::Hstring;
use self::inspectable::Inspectable;
use self::tz_on_calendar::TzOnCalendar;

verus! {

/// The identifier of a COM interface.
#[allow(clippy::upper_case_acronyms)]
#[derive(Debug, Clone, Copy)]
pub struct GUID {
    pub data1: u32,
    pub data2: u16,
    pub data3: u16,
    pub data4: [u8; 8],
}

/// The status that a COM call returns. A negative one is a failure.
#[allow(clippy::upper_case_acronyms)]
#[derive(Debug, Clone, Copy, PartialEq, Eq, Structural)]
#[must_use]
pub struct HRESULT(pub i32);

/// COM has not been initialised on this thread: `0x800401F0`.
pub const CO_E_NOTINITIALIZED: i32 = -2147221008;

/// Unspecified failure: `0x80004005`.
pub const E_FAIL: i32 = -2147467259;

/// The name of the class that is activated.
pub const CLASS_NAME: &'static str = "Windows.Globalization.Calendar";

impl HRESULT {
    /// `Err` with the status where it is a failure.
    pub fn into_result(self) -> (r: Result<(), HRESULT>)
        ensures
            r == if self.0 < 0 {
                Err::<(), _>(self)
            } else {
                Ok(())
            },
    {
        if self.0 < 0 {
            return Err(self);
        }
        Ok(())
    }
}

impl From<HRESULT> for GetTimezoneError {
    fn from(orig: HRESULT) -> (r: Self) {
        GetTimezoneError::IoError(Error::Os(orig.0))
    }
}

impl FromSpecImpl<HRESULT> for GetTimezoneError {
    open spec fn obeys_from_spec() -> bool {
        true
    }

    open spec fn from_spec(orig: HRESULT) -> Self {
        GetTimezoneError::IoError(Error::Os(orig.0))
    }
}

/// What the caller is to do next.
#[derive(Debug, Clone, Copy, PartialEq, Eq)]
pub enum Step {
    /// Call `RoActivateInstance` for [`CLASS_NAME`], and hand the answer
    /// over with this `retried`.
    Activate { retried: bool },
    /// Call `CoIncrementMTAUsage`. The usage is never decremented.
    IncrementMtaUsage,
    /// Query the instance for the interface that [`tz_on_calendar::guid`]
    /// identifies.
    Query,
    /// Call `GetTimeZone` on the interface.
    GetTimeZone,
    /// Call `WindowsGetStringRawBuffer` on the string.
    GetStringRawBuffer,
    /// Return this result.
    Done(Result<Timezone, GetTimezoneError>),
}

/// What the system answered.
pub enum Answer<'a> {
    /// The outcome of the activation, and whether it was the second one.
    Activated { instance: Result<Inspectable, HRESULT>, retried: bool },
    /// The outcome of `CoIncrementMTAUsage`.
    MtaUsage(Result<(), HRESULT>),
    /// The outcome of the query.
    Queried(Result<TzOnCalendar, HRESULT>),
    /// The outcome of `GetTimeZone`.
    TimeZone(Result<Hstring, HRESULT>),
    /// The units of the string, or `Err` where there is no buffer.
    RawBuffer(Result<&'a [u16], ()>),
}

/// The error that a failed call ends the resolution with: its status.
pub open spec fn failed(status: HRESULT) -> Step {
    Step::Done(Err(GetTimezoneError::IoError(Error::Os(status.0))))
}

/// The step after the system gave `answer`.
///
/// A first activation that fails because COM is not initialised leads to
/// `CoIncrementMTAUsage` and, if that succeeds, to one more activation. Any
/// other failed call ends the resolution with its status. The units of the
/// string are the name.
pub open spec fn next_step(answer: Answer) -> Step {
    match answer {
        Answer::Activated { instance: Ok(_), retried } => Step::Query,
        Answer::Activated { instance: Err(status), retried } => if !retried && status.0
            == CO_E_NOTINITIALIZED {
            Step::IncrementMtaUsage
        } else {
            failed(status)
        },
        Answer::MtaUsage(Ok(_)) => Step::Activate { retried: true },
        Answer::MtaUsage(Err(status)) => failed(status),
        Answer::Queried(Ok(_)) => Step::GetTimeZone,
        Answer::Queried(Err(status)) => failed(status),
        Answer::TimeZone(Ok(_)) => Step::GetStringRawBuffer,
        Answer::TimeZone(Err(status)) => failed(status),
        Answer::RawBuffer(Ok(units)) => Step::Done(parsed(Timezone::transcoded(units@))),
        Answer::RawBuffer(Err(_)) => Step::Done(Err(GetTimezoneError::FailedParsingString)),
    }
}

/// The usage of COM is incremented after a first activation only, and only
/// where that failed because COM was not initialised. After it the
/// activation is tried again, and that is the last time.
pub proof fn lemma_one_retry(answer: Answer)
    ensures
        next_step(answer) == Step::IncrementMtaUsage <==> (answer matches Answer::Activated {
            instance: Err(status),
            retried: false,
        } && status.0 == CO_E_NOTINITIALIZED),
        next_step(answer) matches Step::Activate { retried } ==> retried && (answer
            matches Answer::MtaUsage(Ok(_))),
{
}

/// Takes an answer of the system, and says what to do next.
pub fn get_timezone_inner(answer: Answer) -> (next: Step)
    ensures
        next == next_step(answer),
{
    match answer {
        Answer::Activated { instance: Ok(_), retried: _ } => Step::Query,
        Answer::Activated { instance: Err(status), retried } => {
            // Some other library could have initialised COM already, so the
            // usage is incremented only when the activation asks for it.
            if !retried && status.0 == CO_E_NOTINITIALIZED {
                Step::IncrementMtaUsage
            } else {
                Step::Done(Err(GetTimezoneError::from(status)))
            }
        },
        Answer::MtaUsage(Ok(_)) => Step::Activate { retried: true },
        Answer::MtaUsage(Err(status)) => Step::Done(Err(GetTimezoneError::from(status))),
        Answer::Queried(Ok(_)) => Step::GetTimeZone,
        Answer::Queried(Err(status)) => Step::Done(Err(GetTimezoneError::from(status))),
        Answer::TimeZone(Ok(_)) => Step::GetStringRawBuffer,
        Answer::TimeZone(Err(status)) => Step::Done(Err(GetTimezoneError::from(status))),
        Answer::RawBuffer(Ok(units)) => Step::Done(ok_or_failed(Timezone::try_from_utf16(units))),
        Answer::RawBuffer(Err(_)) => Step::Done(Err(GetTimezoneError::FailedParsingString)),
    }
}

} // verus!
