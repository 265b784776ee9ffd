//! WASI: the environment variable `TZ`.

use vstd::prelude::*;
use vstd::utf8::*;

use crate::timezone::{fits, Timezone};
use crate::GetTimezoneError;

verus! {

/// The environment variable that names the zone.
pub const VARIABLE: &'static str = "TZ";

/// The zone where the variable does not name one.
pub const DEFAULT: &'static str = "Etc/UTC";

/// The zone that the variable [`VARIABLE`] names, or that of [`DEFAULT`],
/// where `tz` is the value of the variable, or `None` where it is not set or
/// is not Unicode. A value that no [`Timezone`] can hold counts as none.
pub open spec fn zone(tz: Option<&str>) -> Timezone {
    match tz {
        Some(value) if fits(value@) => Timezone::of(value@),
        _ => Timezone::of(DEFAULT@),
    }
}

/// [`DEFAULT`] is the name of a zone.
pub proof fn lemma_default_fits()
    ensures
        fits(DEFAULT@),
{
    reveal_strlit("Etc/UTC");
    assert(is_ascii_chars(DEFAULT@));
    is_ascii_chars_encode_utf8(DEFAULT@);
}

/// The zone that the variable [`VARIABLE`] names, or that of [`DEFAULT`].
/// This never fails.
pub fn get_timezone_inner(tz: Option<&str>) -> (r: Result<Timezone, GetTimezoneError>)
    ensures
        r == Ok::<_, GetTimezoneError>(zone(tz)),
{
    let named = match tz {
        Some(value) => Timezone::new(value),
        None => None,
    };
    match named {
        Some(zone) => Ok(zone),
        None => {
            proof {
                lemma_default_fits();
            }
            match Timezone::new(DEFAULT) {
                Some(zone) => Ok(zone),
                None => vstd::pervasive::unreached(),
            }
        },
    }
}

} // verus!
