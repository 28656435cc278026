//! The operations, one module each: the accounts an operation names, what it
//! is to do, and the handler that does it.

pub mod assign_role;
pub mod close_role;
pub mod create_organization;
pub mod create_role;
pub mod deactivate_organization;
pub mod initialize;
pub mod protected_action;
pub mod revoke_role;
pub mod transfer_org_admin;
pub mod update_role_permissions;
