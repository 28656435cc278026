use vstd::prelude::*;
use crate::address::Address;
use crate::error::StateShiftError;

verus! {

/// The binding of one user to one role of one organization.
#[derive(Clone, Copy, Debug, PartialEq, Eq)]
pub struct MemberRole {
    pub user: Address,
    pub org: Address,
    pub role: Address,
    pub is_active: bool,
    pub assigned_at: i64,
    pub assigned_by: Address,
}

impl MemberRole {
    /// The record of a new binding, which is active.
    pub open spec fn created(
        user: Address,
        org: Address,
        role: Address,
        assigned_at: i64,
        assigned_by: Address,
    ) -> MemberRole {
        MemberRole { user, org, role, is_active: true, assigned_at, assigned_by }
    }

    /// What the binding answers where it is used with the organization at
    /// `org` and the role at `role`: it must refer to both.
    pub open spec fn binding_guard(self, org: Address, role: Address) -> Result<(), StateShiftError> {
        if self.org != org || self.role != role {
            Err(StateShiftError::InvalidRole)
        } else {
            Ok(())
        }
    }

    /// Passes where the binding is one to the role at `role` in the
    /// organization at `org`.
    pub fn check_binding(&self, org: &Address, role: &Address) -> (r: Result<(), StateShiftError>)
        ensures
            r == self.binding_guard(*org, *role),
    {
        if self.org != *org || self.role != *role {
            Err(StateShiftError::InvalidRole)
        } else {
            Ok(())
        }
    }

    /// Makes the record of a new binding.
    pub fn new(user: Address, org: Address, role: Address, assigned_at: i64, assigned_by: Address) -> (m:
        MemberRole)
        ensures
            m == MemberRole::created(user, org, role, assigned_at, assigned_by),
    {
        MemberRole { user, org, role, is_active: true, assigned_at, assigned_by }
    }
}

} // verus!
