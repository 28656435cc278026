use vstd::prelude::*;
use crate::address::Address;
use crate::constants::MAX_ROLE_NAME_LEN;
use crate::error::StateShiftError;
use crate::names::{byte_len, name_len};

verus! {

/// Whether the mask `permissions` holds every bit of `required`.
pub open spec fn permits(permissions: u16, required: u16) -> bool {
    permissions & required == required
}

/// Whether the mask `permissions` holds every bit of `required`. Bits beyond
/// the required ones do not matter.
pub fn has_permission(permissions: u16, required: u16) -> (r: bool)
    ensures
        r == permits(permissions, required),
{
    permissions & required == required
}

/// A named role of one organization, with its permission mask and the number
/// of members that hold it.
#[derive(Debug, PartialEq, Eq)]
pub struct Role {
    pub org: Address,
    pub name: String,
    pub permissions: u16,
    pub member_count: u16,
}

impl Clone for Role {
    fn clone(&self) -> (r: Self)
        ensures
            r == *self,
    {
        Role {
            org: self.org,
            name: self.name.clone(),
            permissions: self.permissions,
            member_count: self.member_count,
        }
    }
}

impl Role {
    /// The record of a newly created role.
    pub open spec fn created(org: Address, name: String, permissions: u16) -> Role {
        Role { org, name, permissions, member_count: 0 }
    }

    /// The record with the mask `permissions`.
    pub open spec fn with_permissions(self, permissions: u16) -> Role {
        Role { permissions, ..self }
    }

    /// The record with a member count of `n`.
    pub open spec fn with_member_count(self, n: int) -> Role {
        Role { member_count: n as u16, ..self }
    }

    /// Makes the record of a new role. A name of more than 32 bytes and a
    /// mask of zero are refused, the name first.
    pub fn new(org: Address, name: String, permissions: u16) -> (r: Result<Role, StateShiftError>)
        ensures
            r == if name_len(name@) > MAX_ROLE_NAME_LEN {
                Err(StateShiftError::RoleNameTooLong)
            } else if permissions == 0 {
                Err(StateShiftError::InvalidPermissions)
            } else {
                Ok(Role::created(org, name, permissions))
            },
    {
        if byte_len(&name) > MAX_ROLE_NAME_LEN {
            return Err(StateShiftError::RoleNameTooLong);
        }
        if permissions == 0 {
            return Err(StateShiftError::InvalidPermissions);
        }
        Ok(Role { org, name, permissions, member_count: 0 })
    }

    /// What the role answers where it is used with the organization at
    /// `org`: it must be a role of that organization.
    pub open spec fn org_guard(self, org: Address) -> Result<(), StateShiftError> {
        if self.org != org {
            Err(StateShiftError::InvalidRole)
        } else {
            Ok(())
        }
    }

    /// Passes where the role belongs to the organization at `org`.
    pub fn check_org(&self, org: &Address) -> (r: Result<(), StateShiftError>)
        ensures
            r == self.org_guard(*org),
    {
        if self.org != *org {
            Err(StateShiftError::InvalidRole)
        } else {
            Ok(())
        }
    }

    /// Whether the role holds every bit of `required`.
    pub fn grants(&self, required: u16) -> (r: bool)
        ensures
            r == permits(self.permissions, required),
    {
        has_permission(self.permissions, required)
    }

    /// Overwrites the mask and hands back the one it replaces. A mask of zero
    /// is refused.
    pub fn set_permissions(&mut self, permissions: u16) -> (r: Result<u16, StateShiftError>)
        ensures
            match r {
                Ok(before) => permissions != 0 && before == old(self).permissions && *final(self)
                    == old(self).with_permissions(permissions),
                Err(e) => e == StateShiftError::InvalidPermissions && permissions == 0 && *final(self) == *old(self),
            },
    {
        if permissions == 0 {
            return Err(StateShiftError::InvalidPermissions);
        }
        let before = self.permissions;
        self.permissions = permissions;
        Ok(before)
    }

    /// Counts one more member.
    pub fn add_member(&mut self) -> (r: Result<(), StateShiftError>)
        ensures
            match r {
                Ok(()) => old(self).member_count < u16::MAX && *final(self) == old(self).with_member_count(old(self).member_count + 1),
                Err(e) => e == StateShiftError::Overflow && old(self).member_count == u16::MAX
                    && *final(self) == *old(self),
            },
    {
        match self.member_count.checked_add(1) {
            Some(n) => {
                self.member_count = n;
                Ok(())
            },
            None => Err(StateShiftError::Overflow),
        }
    }

    /// Counts one member less.
    pub fn remove_member(&mut self) -> (r: Result<(), StateShiftError>)
        ensures
            match r {
                Ok(()) => old(self).member_count > 0 && *final(self) == old(self).with_member_count(old(self).member_count - 1),
                Err(e) => e == StateShiftError::Overflow && old(self).member_count == 0
                    && *final(self) == *old(self),
            },
    {
        match self.member_count.checked_sub(1) {
            Some(n) => {
                self.member_count = n;
                Ok(())
            },
            None => Err(StateShiftError::Overflow),
        }
    }
}

} // verus!
