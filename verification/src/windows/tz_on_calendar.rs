//! The interface of a calendar that knows its time zone.

use vstd::prelude::*;

use super::{E_FAIL, GUID, HRESULT};

verus! {

/// The identifier of `ITimeZoneOnCalendar`:
/// `bb3c25e5-46cf-4317-a3f5-02621ad54478`.
pub open spec fn timezone_on_calendar_guid() -> GUID {
    GUID {
        data1: 0xbb3c25e5,
        data2: 0x46cf,
        data3: 0x4317,
        data4: [0xa3, 0xf5, 0x02, 0x62, 0x1a, 0xd5, 0x44, 0x78],
    }
}

/// The identifier of `ITimeZoneOnCalendar`.
#[verifier::when_used_as_spec(timezone_on_calendar_guid)]
pub fn guid() -> (r: GUID)
    ensures
        r == timezone_on_calendar_guid(),
{
    GUID {
        data1: 0xbb3c25e5,
        data2: 0x46cf,
        data3: 0x4317,
        data4: [0xa3, 0xf5, 0x02, 0x62, 0x1a, 0xd5, 0x44, 0x78],
    }
}

/// The `ITimeZoneOnCalendar` of an instance: its address, which is not null.
#[derive(Debug, Clone, Copy, PartialEq, Eq)]
pub struct TzOnCalendar(usize);

impl TzOnCalendar {
    #[verifier::type_invariant]
    spec fn not_null(&self) -> bool {
        self.0 != 0
    }

    /// The address of the interface.
    pub closed spec fn address(&self) -> usize {
        self.0
    }

    /// The interface that `QueryInterface` gave: `status` is its return value
    /// and `interface` the address it stored. A null address after a success
    /// is [`E_FAIL`].
    pub fn query(status: HRESULT, interface: usize) -> (r: Result<Self, HRESULT>)
        ensures
            match r {
                Ok(this) => status.0 >= 0 && interface != 0 && this.address() == interface,
                Err(e) => if status.0 < 0 {
                    e == status
                } else {
                    interface == 0 && e == HRESULT(E_FAIL)
                },
            },
    {
        status.into_result()?;
        // Per contract the address cannot be null, but better safe than sorry.
        if interface == 0 {
            return Err(HRESULT(E_FAIL));
        }
        Ok(Self(interface))
    }

    /// The address of the interface. It is not to be released through it.
    pub fn as_ptr(&self) -> (r: usize)
        ensures
            r == self.address(),
            r != 0,
    {
        proof {
            use_type_invariant(self);
        }
        self.0
    }
}

} // verus!
