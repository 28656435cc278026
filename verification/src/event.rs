use vstd::prelude::*;
use crate::address::Address;
use crate::error::StateShiftError;
use crate::registry::RegistryView;

verus! {

/// The record that an operation leaves for the audit trail: who acted, on
/// which records, and the values before and after where they matter.
#[derive(Clone, Copy, Debug, PartialEq, Eq)]
pub enum Event {
    /// The configuration record was written at `config`.
    Initialized { super_admin: Address, config: Address },
    /// An organization was registered at `organization` under `org_id`.
    OrganizationCreated { super_admin: Address, organization: Address, org_id: u64, admin: Address },
    /// A role was created at `role`.
    RoleCreated { admin: Address, organization: Address, role: Address, permissions: u16 },
    /// A user was bound to a role; the binding sits at `member`.
    RoleAssigned {
        admin: Address,
        organization: Address,
        role: Address,
        user: Address,
        member: Address,
        assigned_at: i64,
    },
    /// The binding at `member` was removed.
    RoleRevoked { admin: Address, organization: Address, role: Address, user: Address, member: Address },
    /// The mask of a role was overwritten.
    PermissionsUpdated {
        admin: Address,
        organization: Address,
        role: Address,
        old_permissions: u16,
        new_permissions: u16,
    },
    /// A caller was found to hold every required permission.
    ActionAuthorized {
        caller: Address,
        organization: Address,
        role: Address,
        permissions: u16,
        required: u16,
    },
    /// An organization went from one admin to another.
    AdminTransferred { organization: Address, old_admin: Address, new_admin: Address },
    /// An organization was deactivated.
    OrganizationDeactivated { super_admin: Address, organization: Address, org_id: u64 },
    /// A role without members was removed.
    RoleClosed { admin: Address, organization: Address, role: Address },
}

/// What an operation is to do on a given state: the next state with the
/// event to emit, or the error to report.
pub type Outcome = Result<(RegistryView, Event), StateShiftError>;

/// Whether an operation that went from `pre` to `post` and answered `r` did
/// what `outcome` says: on success the next state and the event are the given
/// ones, on failure the error is the given one and nothing has changed.
pub open spec fn realizes(
    pre: RegistryView,
    post: RegistryView,
    r: Result<Event, StateShiftError>,
    outcome: Outcome,
) -> bool {
    match outcome {
        Ok((next, event)) => r == Ok::<Event, StateShiftError>(event) && post == next,
        Err(e) => r == Err::<Event, StateShiftError>(e) && post == pre,
    }
}

} // verus!
