//! VxWorks: the first of a list of files that names a zone, else a default.
//!
//! The caller reads the candidate that [`Step::Read`] names and hands the
//! outcome to [`get_timezone_inner`], starting from [`read_timezone`], until
//! the step is [`Step::Done`].

use vstd::prelude::*;
use vstd::utf8::*;

use crate::platform::Error;
use crate::str_specs::trimmed;
use crate::timezone::Timezone;
use crate::zoneinfo::{file_zone, zone_of_file};
use crate::{ok_or_failed, parsed, GetTimezoneError};

verus! {

/// What the caller is to do next.
#[derive(Debug, Clone, Copy, PartialEq, Eq)]
pub enum Step {
    /// Read the candidate file of this index.
    Read(usize),
    /// Return this result.
    Done(Result<Timezone, GetTimezoneError>),
}

/// The outcome of reading a candidate file.
pub enum Reading<'a> {
    /// There is no such file.
    Absent,
    /// Reading failed for another reason.
    Failed(Error),
    /// What the file holds.
    Contents(&'a [u8]),
}

/// Whether a file with `contents` is blank: it holds text, and nothing but
/// white space.
pub open spec fn is_blank(contents: Seq<u8>) -> bool {
    valid_utf8(contents) && trimmed(decode_utf8(contents)).len() == 0
}

/// The step that reads the candidate `index` of `candidates`, or that
/// returns `default` where the candidates have run out.
pub open spec fn read_step(index: int, candidates: usize, default: Timezone) -> Step {
    if 0 <= index < candidates {
        Step::Read(index as usize)
    } else {
        Step::Done(Ok(default))
    }
}

/// The step after reading the candidate `index` of `candidates` gave
/// `reading`.
///
/// A file that is absent or blank leads to the next candidate, and after
/// the last to `default`. A file that holds more names the zone, or fails
/// the resolution where no [`Timezone`] can hold its text. An error of
/// reading fails the resolution.
pub open spec fn next_step(
    index: usize,
    candidates: usize,
    reading: Reading,
    default: Timezone,
) -> Step {
    match reading {
        Reading::Failed(e) => Step::Done(Err(GetTimezoneError::IoError(e))),
        Reading::Contents(bytes) if !is_blank(bytes@) => Step::Done(parsed(file_zone(bytes@))),
        _ => read_step(index + 1, candidates, default),
    }
}

/// The first step: the first of `candidates` files, or `default` where
/// there is none.
pub fn read_timezone(candidates: usize, default: Timezone) -> (first: Step)
    ensures
        first == read_step(0, candidates, default),
{
    if candidates > 0 {
        Step::Read(0)
    } else {
        Step::Done(Ok(default))
    }
}

/// Takes the outcome of reading the candidate `index` of `candidates`, and
/// says what to do next.
pub fn get_timezone_inner(
    index: usize,
    candidates: usize,
    reading: Reading,
    default: Timezone,
) -> (next: Step)
    ensures
        next == next_step(index, candidates, reading, default),
        next matches Step::Read(following) ==> index < following < candidates,
{
    match reading {
        Reading::Failed(e) => Step::Done(Err(GetTimezoneError::IoError(e))),
        Reading::Contents(bytes) => {
            if is_blank_file(bytes) {
                read_timezone_after(index, candidates, default)
            } else {
                Step::Done(ok_or_failed(zone_of_file(bytes)))
            }
        },
        Reading::Absent => read_timezone_after(index, candidates, default),
    }
}

/// The step that reads the candidate after `index`, or `default` where the
/// candidates have run out.
fn read_timezone_after(index: usize, candidates: usize, default: Timezone) -> (next: Step)
    ensures
        next == read_step(index + 1, candidates, default),
{
    if index < candidates && index + 1 < candidates {
        Step::Read(index + 1)
    } else {
        Step::Done(Ok(default))
    }
}

/// Whether a file with `contents` is blank.
fn is_blank_file(contents: &[u8]) -> (r: bool)
    ensures
        r == is_blank(contents@),
{
    match core::str::from_utf8(contents) {
        Ok(text) => {
            proof {
                broadcast use group_utf8_lib;
            }
            text.trim_end().is_empty()
        },
        Err(_) => false,
    }
}

} // verus!
