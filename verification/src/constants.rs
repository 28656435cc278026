use vstd::prelude::*;

verus! {

/// Namespace tag of the global configuration record.
pub const CONFIG_SEED: [u8; 6] = [99, 111, 110, 102, 105, 103];

/// Namespace tag of organization records.
pub const ORG_SEED: [u8; 3] = [111, 114, 103];

/// Namespace tag of role records.
pub const ROLE_SEED: [u8; 4] = [114, 111, 108, 101];

/// Namespace tag of member bindings.
pub const MEMBER_SEED: [u8; 6] = [109, 101, 109, 98, 101, 114];

/// Permission to read.
pub const PERM_READ: u16 = 1 << 0;

/// Permission to write.
pub const PERM_WRITE: u16 = 1 << 1;

/// Permission to delete.
pub const PERM_DELETE: u16 = 1 << 2;

/// Permission to manage roles.
pub const PERM_MANAGE_ROLES: u16 = 1 << 3;

/// Permission to manage members.
pub const PERM_MANAGE_MEMBERS: u16 = 1 << 4;

/// Permission to transfer.
pub const PERM_TRANSFER: u16 = 1 << 5;

/// Every permission: the full mask.
pub const PERM_ADMIN: u16 = 0xFFFF;

/// The most bytes that the name of an organization may have.
pub const MAX_ORG_NAME_LEN: usize = 32;

/// The most bytes that the name of a role may have.
pub const MAX_ROLE_NAME_LEN: usize = 32;

/// The most roles that an organization may have.
pub const MAX_ROLES_PER_ORG: u8 = 20;

/// The identity under which every address of this deployment is derived.
pub const PROGRAM_ID: [u8; 32] = [
    47, 244, 94, 108, 176, 154, 191, 52, 146, 79, 174, 225, 142, 185, 135, 99,
    38, 165, 251, 140, 81, 236, 10, 7, 215, 182, 33, 45, 80, 36, 33, 72,
];

} // verus!
