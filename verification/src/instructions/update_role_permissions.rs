use vstd::prelude::*;
use crate::address::Address;
use crate::error::StateShiftError;
use crate::event::{realizes, Event, Outcome};
use crate::registry::{lemma_keys_where_update, role_in, Registry, RegistryView};

verus! {

/// The accounts of `update_role_permissions`: the caller, the organization,
/// and the role whose mask changes.
#[derive(Clone, Copy, Debug, PartialEq, Eq)]
pub struct UpdateRolePermissions {
    pub admin: Address,
    pub organization: Address,
    pub role: Address,
}

/// The checks of `update_role_permissions`, in their order.
pub open spec fn checks(s: RegistryView, accounts: UpdateRolePermissions, new_permissions: u16) -> Result<
    (),
    StateShiftError,
> {
    if let Err(e) = s.admin_guard(accounts.organization, accounts.admin) {
        Err(e)
    } else if let Err(e) = s.role_guard(accounts.organization, accounts.role) {
        Err(e)
    } else if new_permissions == 0 {
        Err(StateShiftError::InvalidPermissions)
    } else {
        Ok(())
    }
}

/// The state after the mask of the role has been overwritten. No counter
/// changes.
pub open spec fn updated(s: RegistryView, accounts: UpdateRolePermissions, new_permissions: u16) -> RegistryView {
    RegistryView {
        roles: s.roles.insert(accounts.role, s.roles[accounts.role].with_permissions(new_permissions)),
        ..s
    }
}

/// What `update_role_permissions` is to do.
pub open spec fn outcome(s: RegistryView, accounts: UpdateRolePermissions, new_permissions: u16) -> Outcome {
    match checks(s, accounts, new_permissions) {
        Err(e) => Err(e),
        Ok(()) => Ok(
            (
                updated(s, accounts, new_permissions),
                Event::PermissionsUpdated {
                    admin: accounts.admin,
                    organization: accounts.organization,
                    role: accounts.role,
                    old_permissions: s.roles[accounts.role].permissions,
                    new_permissions,
                },
            ),
        ),
    }
}

/// An update that passes its checks keeps the invariant.
pub proof fn lemma_updated_inv(s: RegistryView, accounts: UpdateRolePermissions, new_permissions: u16)
    requires
        s.inv(),
        checks(s, accounts, new_permissions) is Ok,
    ensures
        updated(s, accounts, new_permissions).inv(),
{
    let t = updated(s, accounts, new_permissions);
    let r = accounts.role;
    assert(s.roles.contains_key(r));
    assert forall|x: Address| #[trigger] t.organizations.contains_key(x) implies t.org_ok(x) by {
        assert(s.org_ok(x));
        lemma_keys_where_update(s.roles, r, t.roles[r], role_in(x));
    }
    assert forall|x: Address| #[trigger] t.roles.contains_key(x) implies t.role_ok(x) by {
        assert(s.roles.contains_key(x));
        assert(s.role_ok(x));
    }
    assert forall|x: Address| #[trigger] t.members.contains_key(x) implies t.member_ok(x) by {
        assert(s.member_ok(x));
    }
}

/// Overwrites the permission mask of the role. A mask of zero is refused.
pub fn handler(state: &mut Registry, accounts: &UpdateRolePermissions, new_permissions: u16) -> (r: Result<
    Event,
    StateShiftError,
>)
    ensures
        realizes(old(state)@, final(state)@, r, outcome(old(state)@, *accounts, new_permissions)),
{
    state.invariant_holds();
    if let Err(e) = state.check_admin(&accounts.organization, &accounts.admin) {
        return Err(e);
    }
    if let Err(e) = state.check_role(&accounts.organization, &accounts.role) {
        return Err(e);
    }
    if new_permissions == 0 {
        return Err(StateShiftError::InvalidPermissions);
    }
    proof {
        lemma_updated_inv(state@, *accounts, new_permissions);
    }
    let (configs, organizations, mut roles, members) = state.take();
    let role = roles.get_mut(&accounts.role);
    let old_permissions = role.permissions;
    let _ = role.set_permissions(new_permissions);
    state.put(configs, organizations, roles, members);
    proof {
        assert(state@ == updated(old(state)@, *accounts, new_permissions));
    }
    Ok(
        Event::PermissionsUpdated {
            admin: accounts.admin,
            organization: accounts.organization,
            role: accounts.role,
            old_permissions,
            new_permissions,
        },
    )
}

} // verus!
