use vstd::prelude::*;
use crate::address::{role_address, spec_role_address, Address};
use crate::constants::{MAX_ROLES_PER_ORG, MAX_ROLE_NAME_LEN};
use crate::error::StateShiftError;
use crate::event::{realizes, Event, Outcome};
use crate::registry::{lemma_keys_where_create, role_in, Registry, RegistryView};
use crate::names::name_len;
use crate::state::role::Role;

verus! {

/// The accounts of `create_role`: the caller and the organization that gets
/// the role.
#[derive(Clone, Copy, Debug, PartialEq, Eq)]
pub struct CreateRole {
    pub admin: Address,
    pub organization: Address,
}

/// The checks of `create_role`, in their order, and the address of the new
/// role where all of them pass.
pub open spec fn checks(s: RegistryView, accounts: CreateRole, role_name: String, permissions: u16) -> Result<
    Address,
    StateShiftError,
> {
    if let Err(e) = s.admin_guard(accounts.organization, accounts.admin) {
        Err(e)
    } else if name_len(role_name@) > MAX_ROLE_NAME_LEN {
        Err(StateShiftError::RoleNameTooLong)
    } else if permissions == 0 {
        Err(StateShiftError::InvalidPermissions)
    } else if s.organizations[accounts.organization].role_count >= MAX_ROLES_PER_ORG {
        Err(StateShiftError::MaxRolesReached)
    } else {
        match spec_role_address(accounts.organization, role_name@) {
            None => Err(StateShiftError::InvalidSeeds),
            Some(role) => if s.roles.contains_key(role) {
                Err(StateShiftError::AlreadyExists)
            } else {
                Ok(role)
            },
        }
    }
}

/// The state after the role has been created at `role`: it has no members
/// yet, and the organization counts one role more.
pub open spec fn opened(
    s: RegistryView,
    accounts: CreateRole,
    role_name: String,
    permissions: u16,
    role: Address,
) -> RegistryView {
    let org = s.organizations[accounts.organization];
    RegistryView {
        organizations: s.organizations.insert(
            accounts.organization,
            org.with_role_count(org.role_count + 1),
        ),
        roles: s.roles.insert(role, Role::created(accounts.organization, role_name, permissions)),
        ..s
    }
}

/// What `create_role` is to do.
pub open spec fn outcome(s: RegistryView, accounts: CreateRole, role_name: String, permissions: u16) -> Outcome {
    match checks(s, accounts, role_name, permissions) {
        Err(e) => Err(e),
        Ok(role) => Ok(
            (
                opened(s, accounts, role_name, permissions, role),
                Event::RoleCreated {
                    admin: accounts.admin,
                    organization: accounts.organization,
                    role,
                    permissions,
                },
            ),
        ),
    }
}

/// A role creation that passes its checks keeps the invariant.
pub proof fn lemma_opened_inv(
    s: RegistryView,
    accounts: CreateRole,
    role_name: String,
    permissions: u16,
    role: Address,
)
    requires
        s.inv(),
        checks(s, accounts, role_name, permissions) == Ok::<Address, StateShiftError>(role),
    ensures
        opened(s, accounts, role_name, permissions, role).inv(),
{
    let t = opened(s, accounts, role_name, permissions, role);
    let o = accounts.organization;
    let record = Role::created(o, role_name, permissions);
    assert(s.organizations.contains_key(o));
    assert(s.org_ok(o));
    assert forall|x: Address| #[trigger] t.organizations.contains_key(x) implies t.org_ok(x) by {
        assert(s.organizations.contains_key(x));
        assert(s.org_ok(x));
        lemma_keys_where_create(s.roles, role, record, role_in(x));
    }
    assert forall|x: Address| #[trigger] t.members.contains_key(x) implies t.member_ok(x) by {
        assert(s.member_ok(x));
    }
    assert forall|x: Address| #[trigger] t.roles.contains_key(x) implies t.role_ok(x) by {
        if x == role {
            assert forall|m: Address| !t.holders_of(x).contains(m) by {
                if s.members.contains_key(m) {
                    assert(s.member_ok(m));
                }
            }
            assert(t.holders_of(x) =~= Set::<Address>::empty());
        } else {
            assert(s.role_ok(x));
        }
    }
}

/// Creates a role in the organization and counts it. A second role of the
/// same name in the same organization would sit at the same address, and is
/// refused.
pub fn handler(state: &mut Registry, accounts: &CreateRole, role_name: String, permissions: u16) -> (r:
    Result<Event, StateShiftError>)
    ensures
        realizes(old(state)@, final(state)@, r, outcome(old(state)@, *accounts, role_name, permissions)),
{
    state.invariant_holds();
    if let Err(e) = state.check_admin(&accounts.organization, &accounts.admin) {
        return Err(e);
    }
    let record = match Role::new(accounts.organization, role_name, permissions) {
        Err(e) => {
            return Err(e);
        },
        Ok(record) => record,
    };
    let full = match state.organization(&accounts.organization) {
        Some(org) => org.role_count >= MAX_ROLES_PER_ORG,
        None => true,
    };
    if full {
        return Err(StateShiftError::MaxRolesReached);
    }
    let role = match role_address(&accounts.organization, record.name.as_str()) {
        None => {
            return Err(StateShiftError::InvalidSeeds);
        },
        Some(role) => role,
    };
    if state.role(&role).is_some() {
        return Err(StateShiftError::AlreadyExists);
    }
    proof {
        lemma_opened_inv(state@, *accounts, role_name, permissions, role);
    }
    let (configs, mut organizations, mut roles, members) = state.take();
    let _ = roles.create(role, record);
    let org = organizations.get_mut(&accounts.organization);
    let _ = org.add_role();
    state.put(configs, organizations, roles, members);
    proof {
        assert(state@ == opened(old(state)@, *accounts, role_name, permissions, role));
    }
    Ok(
        Event::RoleCreated {
            admin: accounts.admin,
            organization: accounts.organization,
            role,
            permissions,
        },
    )
}

} // verus!
