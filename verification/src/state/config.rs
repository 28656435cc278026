use vstd::prelude::*;
use crate::address::Address;
use crate::error::StateShiftError;

verus! {

/// The one global record: who may register organizations, and how many have
/// been registered.
#[derive(Clone, Copy, Debug, PartialEq, Eq)]
pub struct Config {
    pub super_admin: Address,
    pub org_count: u64,
}

impl Config {
    /// The record as `initialize` writes it.
    pub open spec fn initial(super_admin: Address) -> Config {
        Config { super_admin, org_count: 0 }
    }

    /// The record after one more organization has been registered.
    pub open spec fn advanced(self) -> Config {
        Config { org_count: (self.org_count + 1) as u64, ..self }
    }

    /// Makes the record of a system that has no organization yet.
    pub fn new(super_admin: Address) -> (c: Config)
        ensures
            c == Config::initial(super_admin),
    {
        Config { super_admin, org_count: 0 }
    }

    /// What the record answers to a caller who claims to be the super admin.
    pub open spec fn super_admin_guard(self, caller: Address) -> Result<(), StateShiftError> {
        if self.super_admin != caller {
            Err(StateShiftError::Unauthorized)
        } else {
            Ok(())
        }
    }

    /// Passes where `caller` is the super admin.
    pub fn check_super_admin(&self, caller: &Address) -> (r: Result<(), StateShiftError>)
        ensures
            r == self.super_admin_guard(*caller),
    {
        if self.super_admin != *caller {
            Err(StateShiftError::Unauthorized)
        } else {
            Ok(())
        }
    }

    /// Hands out the id of the next organization, which is the counter's
    /// value before the call, and advances the counter by one.
    pub fn allocate_org_id(&mut self) -> (r: Result<u64, StateShiftError>)
        ensures
            match r {
                Ok(id) => old(self).org_count < u64::MAX && id == old(self).org_count
                    && *final(self) == old(self).advanced(),
                Err(e) => e == StateShiftError::Overflow && old(self).org_count == u64::MAX
                    && *final(self) == *old(self),
            },
    {
        let id = self.org_count;
        match id.checked_add(1) {
            Some(next) => {
                self.org_count = next;
                Ok(id)
            },
            None => Err(StateShiftError::Overflow),
        }
    }
}

} // verus!
