//! What the calls into the Windows Runtime returned, checked.

use vstd::prelude::*;

use super::{E_FAIL, HRESULT};

verus! {

/// The address that `RoActivateInstance` stored, where `status`, its return
/// value, is a success. A null address after a success is [`E_FAIL`].
pub fn ro_activate_instance(status: HRESULT, instance: usize) -> (r: Result<usize, HRESULT>)
    ensures
        r == if status.0 < 0 {
            Err::<usize, _>(status)
        } else if instance == 0 {
            Err(HRESULT(E_FAIL))
        } else {
            Ok(instance)
        },
{
    status.into_result()?;
    // Per contract the address cannot be null, but better safe than sorry.
    if instance == 0 {
        return Err(HRESULT(E_FAIL));
    }
    Ok(instance)
}

/// The number of units in the buffer that `WindowsGetStringRawBuffer`
/// returned, where there is a buffer: `is_null` says whether the call returned
/// null, and `length` is the length it stored.
pub fn windows_get_string_raw_buffer(is_null: bool, length: u32) -> (r: Result<usize, ()>)
    ensures
        r == if is_null {
            Err::<usize, _>(())
        } else {
            Ok(length as usize)
        },
{
    // Per contract the buffer cannot be null, but better safe than sorry.
    if is_null {
        return Err(());
    }
    Ok(length as usize)
}

} // verus!
