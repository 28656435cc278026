use vstd::prelude::*;
use crate::address::{member_address, spec_member_address, Address};
use crate::error::StateShiftError;
use crate::event::{realizes, Event, Outcome};
use crate::registry::{
    lemma_keys_where_delete, lemma_keys_where_update, member_in, member_with, role_in, Registry,
    RegistryView,
};

verus! {

/// The accounts of `revoke_role`: the caller, the organization, the role to
/// take away, and the user who holds it.
#[derive(Clone, Copy, Debug, PartialEq, Eq)]
pub struct RevokeRole {
    pub admin: Address,
    pub organization: Address,
    pub role: Address,
    pub user: Address,
}

/// The checks of `revoke_role`, in their order, and the address of the
/// binding to remove where all of them pass.
pub open spec fn checks(s: RegistryView, accounts: RevokeRole) -> Result<Address, StateShiftError> {
    if let Err(e) = s.admin_guard(accounts.organization, accounts.admin) {
        Err(e)
    } else if let Err(e) = s.role_guard(accounts.organization, accounts.role) {
        Err(e)
    } else {
        match spec_member_address(accounts.organization, accounts.user) {
            None => Err(StateShiftError::InvalidSeeds),
            Some(member) => if !s.members.contains_key(member) {
                Err(StateShiftError::NotFound)
            } else if let Err(e) = s.members[member].binding_guard(
                accounts.organization,
                accounts.role,
            ) {
                Err(e)
            } else if s.roles[accounts.role].member_count == 0
                || s.organizations[accounts.organization].member_count == 0 {
                Err(StateShiftError::Overflow)
            } else {
                Ok(member)
            },
        }
    }
}

/// The state after the binding at `member` has been removed: the role and
/// the organization each count one member less.
pub open spec fn revoked(s: RegistryView, accounts: RevokeRole, member: Address) -> RegistryView {
    let org = s.organizations[accounts.organization];
    let role = s.roles[accounts.role];
    RegistryView {
        organizations: s.organizations.insert(
            accounts.organization,
            org.with_member_count(org.member_count - 1),
        ),
        roles: s.roles.insert(accounts.role, role.with_member_count(role.member_count - 1)),
        members: s.members.remove(member),
        ..s
    }
}

/// What `revoke_role` is to do.
pub open spec fn outcome(s: RegistryView, accounts: RevokeRole) -> Outcome {
    match checks(s, accounts) {
        Err(e) => Err(e),
        Ok(member) => Ok(
            (
                revoked(s, accounts, member),
                Event::RoleRevoked {
                    admin: accounts.admin,
                    organization: accounts.organization,
                    role: accounts.role,
                    user: accounts.user,
                    member,
                },
            ),
        ),
    }
}

/// A revocation that passes its checks keeps the invariant.
pub proof fn lemma_revoked_inv(s: RegistryView, accounts: RevokeRole, member: Address)
    requires
        s.inv(),
        checks(s, accounts) == Ok::<Address, StateShiftError>(member),
    ensures
        revoked(s, accounts, member).inv(),
{
    let t = revoked(s, accounts, member);
    let o = accounts.organization;
    let r = accounts.role;
    assert(s.organizations.contains_key(o));
    assert(s.roles.contains_key(r));
    assert(s.members.contains_key(member));
    assert(s.member_ok(member));
    assert forall|x: Address| #[trigger] t.organizations.contains_key(x) implies t.org_ok(x) by {
        assert(s.organizations.contains_key(x));
        assert(s.org_ok(x));
        lemma_keys_where_update(s.roles, r, t.roles[r], role_in(x));
        lemma_keys_where_delete(s.members, member, member_in(x));
    }
    assert forall|x: Address| #[trigger] t.roles.contains_key(x) implies t.role_ok(x) by {
        assert(s.roles.contains_key(x));
        assert(s.role_ok(x));
        lemma_keys_where_delete(s.members, member, member_with(x));
    }
    assert forall|x: Address| #[trigger] t.members.contains_key(x) implies t.member_ok(x) by {
        assert(s.members.contains_key(x));
        assert(s.member_ok(x));
    }
}

/// Removes the binding of the user and counts one member less on the role
/// and on the organization. Where a check fails nothing changes.
pub fn handler(state: &mut Registry, accounts: &RevokeRole) -> (r: Result<Event, StateShiftError>)
    ensures
        realizes(old(state)@, final(state)@, r, outcome(old(state)@, *accounts)),
{
    state.invariant_holds();
    if let Err(e) = state.check_admin(&accounts.organization, &accounts.admin) {
        return Err(e);
    }
    if let Err(e) = state.check_role(&accounts.organization, &accounts.role) {
        return Err(e);
    }
    let member = match member_address(&accounts.organization, &accounts.user) {
        None => {
            return Err(StateShiftError::InvalidSeeds);
        },
        Some(member) => member,
    };
    let binding = match state.member(&member) {
        None => {
            return Err(StateShiftError::NotFound);
        },
        Some(binding) => binding,
    };
    if let Err(e) = binding.check_binding(&accounts.organization, &accounts.role) {
        return Err(e);
    }
    let role_empty = match state.role(&accounts.role) {
        Some(role) => role.member_count == 0,
        None => true,
    };
    let org_empty = match state.organization(&accounts.organization) {
        Some(org) => org.member_count == 0,
        None => true,
    };
    if role_empty || org_empty {
        return Err(StateShiftError::Overflow);
    }
    proof {
        lemma_revoked_inv(state@, *accounts, member);
    }
    let (configs, mut organizations, mut roles, mut members) = state.take();
    let _ = members.delete(&member);
    let role = roles.get_mut(&accounts.role);
    let _ = role.remove_member();
    let org = organizations.get_mut(&accounts.organization);
    let _ = org.remove_member();
    state.put(configs, organizations, roles, members);
    proof {
        assert(state@ == revoked(old(state)@, *accounts, member));
    }
    Ok(
        Event::RoleRevoked {
            admin: accounts.admin,
            organization: accounts.organization,
            role: accounts.role,
            user: accounts.user,
            member,
        },
    )
}

} // verus!
