//! The error that a platform's native facility reports, and the resolver of
//! platforms without one.

use vstd::prelude::*;

use crate::timezone::Timezone;
use crate::GetTimezoneError;

verus! {

/// A failure of the operating system.
#[derive(Debug, Clone, Copy, PartialEq, Eq, Structural)]
pub enum Error {
    /// The error code or status that the operating system gave.
    Os(i32),
    /// A failure for which the operating system gave no code.
    Other,
}

/// The resolver of a platform that has no native facility: it fails with a
/// platform error.
pub fn get_timezone_inner() -> (r: Result<Timezone, GetTimezoneError>)
    ensures
        r == Err::<Timezone, _>(GetTimezoneError::IoError(Error::Other)),
{
    Err(GetTimezoneError::IoError(Error::Other))
}

} // verus!
