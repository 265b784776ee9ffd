//! FreeBSD and DragonFly: the text of `/var/db/zoneinfo`.
//!
//! The caller opens the file [`PATH`] and hands the outcome to [`opened`].
//! Then it reads into a buffer of [`READ_LIMIT`] bytes from the offset that
//! [`Step::Read`] names, and hands what the read returned to
//! [`get_timezone_inner`], until the step is [`Step::Done`].

use vstd::prelude::*;
use vstd::slice::slice_subrange;

use crate::platform::Error;
use crate::timezone::Timezone;
use crate::zoneinfo::{file_zone, zone_of_file, READ_LIMIT};
use crate::{ok_or_failed, parsed, GetTimezoneError};

verus! {

/// The file whose text names the zone.
pub const PATH: &'static str = "/var/db/zoneinfo";

/// What the caller is to do next.
#[derive(Debug, Clone, Copy, PartialEq, Eq)]
pub enum Step {
    /// Read into the buffer from this offset on.
    Read(usize),
    /// Return this result.
    Done(Result<Timezone, GetTimezoneError>),
}

/// The end of what has been read after a read that started at `pos` and
/// returned `amt`. Nothing counts beyond [`READ_LIMIT`].
pub open spec fn end_of_read(pos: usize, amt: usize) -> int {
    if pos + amt <= READ_LIMIT {
        pos + amt
    } else {
        READ_LIMIT as int
    }
}

/// The zone that the first `len` bytes of `buf` name.
pub open spec fn zone(buf: [u8; READ_LIMIT], len: int) -> Result<Timezone, GetTimezoneError> {
    parsed(file_zone(buf@.subrange(0, len)))
}

/// The step after the file was opened with `outcome`.
pub open spec fn first_step(outcome: Result<(), Error>) -> Step {
    match outcome {
        Ok(_) => Step::Read(0),
        Err(e) => Step::Done(Err(GetTimezoneError::IoError(e))),
    }
}

/// The step after a read into `buf` that started at `pos` gave `amt`.
///
/// The file is read until its end or until the buffer is full, and what was
/// read names the zone. An error of reading fails the resolution.
pub open spec fn next_step(pos: usize, amt: Result<usize, Error>, buf: [u8; READ_LIMIT]) -> Step {
    match amt {
        Ok(amt) => if amt > 0 && pos + amt < READ_LIMIT {
            Step::Read((pos + amt) as usize)
        } else {
            Step::Done(zone(buf, end_of_read(pos, amt)))
        },
        Err(e) => Step::Done(Err(GetTimezoneError::IoError(e))),
    }
}

/// Takes the outcome of opening the file, and says what to do next.
pub fn opened(outcome: Result<(), Error>) -> (first: Step)
    ensures
        first == first_step(outcome),
{
    match outcome {
        Ok(_) => Step::Read(0),
        Err(e) => Step::Done(Err(GetTimezoneError::IoError(e))),
    }
}

/// Takes what a read returned, and says what to do next. The read started
/// at the offset `pos` of `buf`, and `amt` is the number of bytes that it
/// wrote there, or its error.
pub fn get_timezone_inner(pos: usize, amt: Result<usize, Error>, buf: &[u8; READ_LIMIT]) -> (next:
    Step)
    ensures
        next == next_step(pos, amt, *buf),
        next matches Step::Read(following) ==> pos < following < READ_LIMIT,
{
    match amt {
        Ok(amt) => {
            let end = if pos <= READ_LIMIT && amt <= READ_LIMIT - pos {
                pos + amt
            } else {
                READ_LIMIT
            };
            if amt > 0 && end < READ_LIMIT {
                Step::Read(end)
            } else {
                Step::Done(ok_or_failed(zone_of_file(slice_subrange(buf.as_slice(), 0, end))))
            }
        },
        Err(e) => Step::Done(Err(GetTimezoneError::IoError(e))),
    }
}

} // verus!
