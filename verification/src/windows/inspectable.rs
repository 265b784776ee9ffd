//! An instance of a runtime class.

use vstd::prelude::*;

use super::winapi::ro_activate_instance;
use super::HRESULT;

verus! {

/// An instance of a runtime class: the address of its `IInspectable`, which
/// is not null.
#[derive(Debug, Clone, Copy, PartialEq, Eq)]
pub struct Inspectable(usize);

impl Inspectable {
    #[verifier::type_invariant]
    spec fn not_null(&self) -> bool {
        self.0 != 0
    }

    /// The address of the instance.
    pub closed spec fn address(&self) -> usize {
        self.0
    }

    /// The instance that `RoActivateInstance` gave: `status` is its return
    /// value and `instance` the address it stored.
    pub fn activate(status: HRESULT, instance: usize) -> (r: Result<Self, HRESULT>)
        ensures
            match r {
                Ok(this) => status.0 >= 0 && instance != 0 && this.address() == instance,
                Err(e) => if status.0 < 0 {
                    e == status
                } else {
                    instance == 0 && e == HRESULT(super::E_FAIL)
                },
            },
    {
        Ok(Self(ro_activate_instance(status, instance)?))
    }

    /// The address of the instance. It is not to be released through it.
    pub fn as_ptr(&self) -> (r: usize)
        ensures
            r == self.address(),
            r != 0,
    {
        proof {
            use_type_invariant(self);
        }
        self.0
    }
}

} // verus!
