//! Role-based access control: organizations, roles with a permission bitmask,
//! and one role binding per member, all located by derived addresses.
//!
//! A super admin registers organizations. The admin of an organization
//! defines roles, assigns them to users and takes them away. An operation
//! that is refused changes nothing.

use vstd::prelude::*;

pub mod address;
pub mod clock;
pub mod constants;
pub mod error;
pub mod event;
pub mod instructions;
pub mod names;
pub mod registry;
pub mod state;
pub mod store;
pub mod theorems;

use crate::address::Address;
use crate::error::StateShiftError;
use crate::event::{realizes, Event};
use crate::instructions::assign_role::AssignRole;
use crate::instructions::close_role::CloseRole;
use crate::instructions::create_organization::CreateOrganization;
use crate::instructions::create_role::CreateRole;
use crate::instructions::deactivate_organization::DeactivateOrganization;
use crate::instructions::initialize::Initialize;
use crate::instructions::protected_action::ProtectedAction;
use crate::instructions::revoke_role::RevokeRole;
use crate::instructions::transfer_org_admin::TransferOrgAdmin;
use crate::instructions::update_role_permissions::UpdateRolePermissions;
use crate::registry::Registry;

verus! {

/// Creates the configuration record with the caller as super admin.
pub fn initialize(state: &mut Registry, accounts: &Initialize) -> (r: Result<Event, StateShiftError>)
    ensures
        realizes(
            old(state)@,
            final(state)@,
            r,
            instructions::initialize::outcome(old(state)@, *accounts),
        ),
{
    instructions::initialize::handler(state, accounts)
}

/// Registers an organization under the next id.
pub fn create_organization(
    state: &mut Registry,
    accounts: &CreateOrganization,
    name: String,
    admin: Address,
) -> (r: Result<Event, StateShiftError>)
    ensures
        realizes(
            old(state)@,
            final(state)@,
            r,
            instructions::create_organization::outcome(old(state)@, *accounts, name, admin),
        ),
{
    instructions::create_organization::handler(state, accounts, name, admin)
}

/// Creates a role in an organization.
pub fn create_role(
    state: &mut Registry,
    accounts: &CreateRole,
    role_name: String,
    permissions: u16,
) -> (r: Result<Event, StateShiftError>)
    ensures
        realizes(
            old(state)@,
            final(state)@,
            r,
            instructions::create_role::outcome(old(state)@, *accounts, role_name, permissions),
        ),
{
    instructions::create_role::handler(state, accounts, role_name, permissions)
}

/// Assigns a role to a user at the time the clock gives.
pub fn assign_role(state: &mut Registry, accounts: &AssignRole) -> (r: Result<Event, StateShiftError>)
    ensures
        match instructions::assign_role::checks(old(state)@, *accounts) {
            Err(e) => r == Err::<Event, StateShiftError>(e) && final(state)@ == old(state)@,
            Ok(_) => (r == Err::<Event, StateShiftError>(StateShiftError::ClockUnavailable)
                && final(state)@ == old(state)@) || exists|now: i64|
                realizes(
                    old(state)@,
                    final(state)@,
                    r,
                    #[trigger] instructions::assign_role::outcome(old(state)@, *accounts, now),
                ),
        },
{
    instructions::assign_role::handler(state, accounts)
}

/// Takes a role away from a user.
pub fn revoke_role(state: &mut Registry, accounts: &RevokeRole) -> (r: Result<Event, StateShiftError>)
    ensures
        realizes(
            old(state)@,
            final(state)@,
            r,
            instructions::revoke_role::outcome(old(state)@, *accounts),
        ),
{
    instructions::revoke_role::handler(state, accounts)
}

/// Overwrites the permission mask of a role.
pub fn update_role_permissions(
    state: &mut Registry,
    accounts: &UpdateRolePermissions,
    new_permissions: u16,
) -> (r: Result<Event, StateShiftError>)
    ensures
        realizes(
            old(state)@,
            final(state)@,
            r,
            instructions::update_role_permissions::outcome(old(state)@, *accounts, new_permissions),
        ),
{
    instructions::update_role_permissions::handler(state, accounts, new_permissions)
}

/// Checks whether the caller's role holds every required permission.
pub fn protected_action(state: &Registry, accounts: &ProtectedAction, required_permission: u16) -> (r:
    Result<Event, StateShiftError>)
    ensures
        r == instructions::protected_action::decision(state@, *accounts, required_permission),
{
    instructions::protected_action::handler(state, accounts, required_permission)
}

/// Hands an organization to a new admin.
pub fn transfer_org_admin(state: &mut Registry, accounts: &TransferOrgAdmin, new_admin: Address) -> (r:
    Result<Event, StateShiftError>)
    ensures
        realizes(
            old(state)@,
            final(state)@,
            r,
            instructions::transfer_org_admin::outcome(old(state)@, *accounts, new_admin),
        ),
{
    instructions::transfer_org_admin::handler(state, accounts, new_admin)
}

/// Deactivates an organization.
pub fn deactivate_organization(state: &mut Registry, accounts: &DeactivateOrganization) -> (r: Result<
    Event,
    StateShiftError,
>)
    ensures
        realizes(
            old(state)@,
            final(state)@,
            r,
            instructions::deactivate_organization::outcome(old(state)@, *accounts),
        ),
{
    instructions::deactivate_organization::handler(state, accounts)
}

/// Removes a role that has no members.
pub fn close_role(state: &mut Registry, accounts: &CloseRole) -> (r: Result<Event, StateShiftError>)
    ensures
        realizes(
            old(state)@,
            final(state)@,
            r,
            instructions::close_role::outcome(old(state)@, *accounts),
        ),
{
    instructions::close_role::handler(state, accounts)
}

} // verus!
