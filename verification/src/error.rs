use vstd::prelude::*;

verus! {

/// Why an operation was refused. A refused operation changes nothing.
#[derive(Clone, Copy, Debug, PartialEq, Eq, Structural)]
pub enum StateShiftError {
    /// An organization name is longer than 32 bytes.
    NameTooLong,
    /// A role name is longer than 32 bytes.
    RoleNameTooLong,
    /// The organization already has 20 roles.
    MaxRolesReached,
    /// The caller is not the identity the operation is reserved for, or the
    /// caller's role lacks a required permission.
    Unauthorized,
    /// The organization has been deactivated.
    OrgNotActive,
    /// The member binding is not active.
    MemberNotActive,
    /// The role still has members.
    RoleHasMembers,
    /// A permission mask of zero.
    InvalidPermissions,
    /// A counter would leave its range.
    Overflow,
    /// The configuration record exists already.
    AlreadyInitialized,
    /// A record exists already at the derived address.
    AlreadyExists,
    /// The user already holds a role in the organization.
    AlreadyAssigned,
    /// No record exists at the address.
    NotFound,
    /// A record does not refer to the organization or role it was used with.
    InvalidRole,
    /// No address can be derived from the seeds.
    InvalidSeeds,
    /// The current time cannot be read.
    ClockUnavailable,
}

} // verus!
