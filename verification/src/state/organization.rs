use vstd::prelude::*;
use crate::address::Address;
use crate::constants::{MAX_ORG_NAME_LEN, MAX_ROLES_PER_ORG};
use crate::error::StateShiftError;
use crate::names::{byte_len, name_len};

verus! {

/// An organization: its admin, its id, and how many roles and members it has.
#[derive(Debug, PartialEq, Eq)]
pub struct Organization {
    pub admin: Address,
    pub org_id: u64,
    pub name: String,
    pub role_count: u8,
    pub member_count: u16,
    pub is_active: bool,
}

impl Clone for Organization {
    fn clone(&self) -> (r: Self)
        ensures
            r == *self,
    {
        Organization {
            admin: self.admin,
            org_id: self.org_id,
            name: self.name.clone(),
            role_count: self.role_count,
            member_count: self.member_count,
            is_active: self.is_active,
        }
    }
}

impl Organization {
    /// The record of a newly registered organization.
    pub open spec fn created(admin: Address, org_id: u64, name: String) -> Organization {
        Organization { admin, org_id, name, role_count: 0, member_count: 0, is_active: true }
    }

    /// What the admin guard answers to `caller`: the caller must be the admin,
    /// and the organization active.
    pub open spec fn admin_guard(self, caller: Address) -> Result<(), StateShiftError> {
        if self.admin != caller {
            Err(StateShiftError::Unauthorized)
        } else if !self.is_active {
            Err(StateShiftError::OrgNotActive)
        } else {
            Ok(())
        }
    }

    /// The record with a role count of `n`.
    pub open spec fn with_role_count(self, n: int) -> Organization {
        Organization { role_count: n as u8, ..self }
    }

    /// The record with a member count of `n`.
    pub open spec fn with_member_count(self, n: int) -> Organization {
        Organization { member_count: n as u16, ..self }
    }

    /// The record in the hands of `admin`.
    pub open spec fn with_admin(self, admin: Address) -> Organization {
        Organization { admin, ..self }
    }

    /// The record of the organization once it is inactive.
    pub open spec fn deactivated(self) -> Organization {
        Organization { is_active: false, ..self }
    }

    /// Makes the record of a new organization. A name of more than 32 bytes
    /// is refused.
    pub fn new(admin: Address, org_id: u64, name: String) -> (r: Result<
        Organization,
        StateShiftError,
    >)
        ensures
            r == if name_len(name@) <= MAX_ORG_NAME_LEN {
                Ok(Organization::created(admin, org_id, name))
            } else {
                Err(StateShiftError::NameTooLong)
            },
    {
        if byte_len(&name) > MAX_ORG_NAME_LEN {
            return Err(StateShiftError::NameTooLong);
        }
        Ok(Organization { admin, org_id, name, role_count: 0, member_count: 0, is_active: true })
    }

    /// The guard in front of every operation reserved for the organization's
    /// admin.
    pub fn check_admin(&self, caller: &Address) -> (r: Result<(), StateShiftError>)
        ensures
            r == self.admin_guard(*caller),
    {
        if self.admin != *caller {
            Err(StateShiftError::Unauthorized)
        } else if !self.is_active {
            Err(StateShiftError::OrgNotActive)
        } else {
            Ok(())
        }
    }

    /// Hands the organization to `new_admin`, and gives the admin it had.
    pub fn transfer_admin(&mut self, new_admin: Address) -> (old_admin: Address)
        ensures
            old_admin == old(self).admin,
            *final(self) == old(self).with_admin(new_admin),
    {
        let old_admin = self.admin;
        self.admin = new_admin;
        old_admin
    }

    /// Deactivates the organization. One that is inactive already is
    /// reported.
    pub fn deactivate(&mut self) -> (r: Result<(), StateShiftError>)
        ensures
            match r {
                Ok(()) => old(self).is_active && *final(self) == old(self).deactivated(),
                Err(e) => e == StateShiftError::OrgNotActive && !old(self).is_active && *final(self)
                    == *old(self),
            },
    {
        if !self.is_active {
            return Err(StateShiftError::OrgNotActive);
        }
        self.is_active = false;
        Ok(())
    }

    /// Counts one more role. An organization holds at most 20.
    pub fn add_role(&mut self) -> (r: Result<(), StateShiftError>)
        ensures
            match r {
                Ok(()) => old(self).role_count < MAX_ROLES_PER_ORG && *final(self) == old(self).with_role_count(old(self).role_count + 1),
                Err(e) => e == StateShiftError::MaxRolesReached && old(self).role_count
                    >= MAX_ROLES_PER_ORG && *final(self) == *old(self),
            },
    {
        if self.role_count >= MAX_ROLES_PER_ORG {
            return Err(StateShiftError::MaxRolesReached);
        }
        self.role_count = self.role_count + 1;
        Ok(())
    }

    /// Counts one role less.
    pub fn remove_role(&mut self) -> (r: Result<(), StateShiftError>)
        ensures
            match r {
                Ok(()) => old(self).role_count > 0 && *final(self) == old(self).with_role_count(
                    old(self).role_count - 1,
                ),
                Err(e) => e == StateShiftError::Overflow && old(self).role_count == 0 && *final(self) == *old(self),
            },
    {
        match self.role_count.checked_sub(1) {
            Some(n) => {
                self.role_count = n;
                Ok(())
            },
            None => Err(StateShiftError::Overflow),
        }
    }

    /// Counts one more member.
    pub fn add_member(&mut self) -> (r: Result<(), StateShiftError>)
        ensures
            match r {
                Ok(()) => old(self).member_count < u16::MAX && *final(self) == old(self).with_member_count(old(self).member_count + 1),
                Err(e) => e == StateShiftError::Overflow && old(self).member_count == u16::MAX
                    && *final(self) == *old(self),
            },
    {
        match self.member_count.checked_add(1) {
            Some(n) => {
                self.member_count = n;
                Ok(())
            },
            None => Err(StateShiftError::Overflow),
        }
    }

    /// Counts one member less.
    pub fn remove_member(&mut self) -> (r: Result<(), StateShiftError>)
        ensures
            match r {
                Ok(()) => old(self).member_count > 0 && *final(self) == old(self).with_member_count(old(self).member_count - 1),
                Err(e) => e == StateShiftError::Overflow && old(self).member_count == 0
                    && *final(self) == *old(self),
            },
    {
        match self.member_count.checked_sub(1) {
            Some(n) => {
                self.member_count = n;
                Ok(())
            },
            None => Err(StateShiftError::Overflow),
        }
    }
}

} // verus!
