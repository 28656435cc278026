use vstd::prelude::*;
use crate::address::{member_address, spec_member_address, Address};
use crate::error::StateShiftError;
use crate::event::Event;
use crate::registry::{Registry, RegistryView};
use crate::state::member_role::MemberRole;
use crate::state::organization::Organization;
use crate::state::role::{permits, Role};

verus! {

/// The accounts of `protected_action`: the caller, the organization, and the
/// role that the caller claims to hold.
#[derive(Clone, Copy, Debug, PartialEq, Eq)]
pub struct ProtectedAction {
    pub caller: Address,
    pub organization: Address,
    pub role: Address,
}

/// The record of a check that passed.
pub open spec fn granted(accounts: ProtectedAction, permissions: u16, required_permission: u16) -> Event {
    Event::ActionAuthorized {
        caller: accounts.caller,
        organization: accounts.organization,
        role: accounts.role,
        permissions,
        required: required_permission,
    }
}

/// What the three records answer to the caller, in the order of the checks:
/// the binding is the caller's own in this organization, it is active, the
/// organization is active, the binding is to this role of this organization,
/// and the role's mask holds every required bit.
pub open spec fn authorization(
    accounts: ProtectedAction,
    member: MemberRole,
    org: Organization,
    role: Role,
    required_permission: u16,
) -> Result<Event, StateShiftError> {
    if member.org != accounts.organization || member.user != accounts.caller {
        Err(StateShiftError::Unauthorized)
    } else if !member.is_active {
        Err(StateShiftError::MemberNotActive)
    } else if !org.is_active {
        Err(StateShiftError::OrgNotActive)
    } else if member.role != accounts.role || role.org != accounts.organization {
        Err(StateShiftError::InvalidRole)
    } else if !permits(role.permissions, required_permission) {
        Err(StateShiftError::Unauthorized)
    } else {
        Ok(granted(accounts, role.permissions, required_permission))
    }
}

/// What `protected_action` is to answer: the three records are resolved, the
/// caller's binding by its derived address, and then asked.
pub open spec fn decision(s: RegistryView, accounts: ProtectedAction, required_permission: u16) -> Result<
    Event,
    StateShiftError,
> {
    match spec_member_address(accounts.organization, accounts.caller) {
        None => Err(StateShiftError::InvalidSeeds),
        Some(member) => if !s.members.contains_key(member) {
            Err(StateShiftError::NotFound)
        } else if !s.organizations.contains_key(accounts.organization) {
            Err(StateShiftError::NotFound)
        } else if !s.roles.contains_key(accounts.role) {
            Err(StateShiftError::NotFound)
        } else {
            authorization(
                accounts,
                s.members[member],
                s.organizations[accounts.organization],
                s.roles[accounts.role],
                required_permission,
            )
        },
    }
}

/// Decides on the three records whether the caller may act.
pub fn authorize(
    accounts: &ProtectedAction,
    member: &MemberRole,
    org: &Organization,
    role: &Role,
    required_permission: u16,
) -> (r: Result<Event, StateShiftError>)
    ensures
        r == authorization(*accounts, *member, *org, *role, required_permission),
{
    if member.org != accounts.organization || member.user != accounts.caller {
        return Err(StateShiftError::Unauthorized);
    }
    if !member.is_active {
        return Err(StateShiftError::MemberNotActive);
    }
    if !org.is_active {
        return Err(StateShiftError::OrgNotActive);
    }
    if member.role != accounts.role || role.org != accounts.organization {
        return Err(StateShiftError::InvalidRole);
    }
    if !role.grants(required_permission) {
        return Err(StateShiftError::Unauthorized);
    }
    Ok(
        Event::ActionAuthorized {
            caller: accounts.caller,
            organization: accounts.organization,
            role: accounts.role,
            permissions: role.permissions,
            required: required_permission,
        },
    )
}

/// Checks whether the caller's role in the organization holds every bit of
/// `required_permission`. Nothing is changed.
pub fn handler(state: &Registry, accounts: &ProtectedAction, required_permission: u16) -> (r: Result<
    Event,
    StateShiftError,
>)
    ensures
        r == decision(state@, *accounts, required_permission),
{
    let at = match member_address(&accounts.organization, &accounts.caller) {
        None => {
            return Err(StateShiftError::InvalidSeeds);
        },
        Some(at) => at,
    };
    let member = match state.member(&at) {
        None => {
            return Err(StateShiftError::NotFound);
        },
        Some(member) => member,
    };
    let org = match state.organization(&accounts.organization) {
        None => {
            return Err(StateShiftError::NotFound);
        },
        Some(org) => org,
    };
    let role = match state.role(&accounts.role) {
        None => {
            return Err(StateShiftError::NotFound);
        },
        Some(role) => role,
    };
    authorize(accounts, member, org, role, required_permission)
}

} // verus!
