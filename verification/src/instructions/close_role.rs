use vstd::prelude::*;
use crate::address::Address;
use crate::error::StateShiftError;
use crate::event::{realizes, Event, Outcome};
use crate::registry::{lemma_keys_where_delete, lemma_keys_where_finite, member_with, role_in, Registry, RegistryView};

verus! {

/// The accounts of `close_role`: the caller, the organization, and the role
/// to close.
#[derive(Clone, Copy, Debug, PartialEq, Eq)]
pub struct CloseRole {
    pub admin: Address,
    pub organization: Address,
    pub role: Address,
}

/// The checks of `close_role`, in their order. The organization need not be
/// active.
pub open spec fn checks(s: RegistryView, accounts: CloseRole) -> Result<(), StateShiftError> {
    if !s.organizations.contains_key(accounts.organization) {
        Err(StateShiftError::NotFound)
    } else if s.organizations[accounts.organization].admin != accounts.admin {
        Err(StateShiftError::Unauthorized)
    } else if let Err(e) = s.role_guard(accounts.organization, accounts.role) {
        Err(e)
    } else if s.roles[accounts.role].member_count > 0 {
        Err(StateShiftError::RoleHasMembers)
    } else if s.organizations[accounts.organization].role_count == 0 {
        Err(StateShiftError::Overflow)
    } else {
        Ok(())
    }
}

/// The state after the role has been removed: the organization counts one
/// role less.
pub open spec fn closed(s: RegistryView, accounts: CloseRole) -> RegistryView {
    let org = s.organizations[accounts.organization];
    RegistryView {
        organizations: s.organizations.insert(
            accounts.organization,
            org.with_role_count(org.role_count - 1),
        ),
        roles: s.roles.remove(accounts.role),
        ..s
    }
}

/// What `close_role` is to do.
pub open spec fn outcome(s: RegistryView, accounts: CloseRole) -> Outcome {
    match checks(s, accounts) {
        Err(e) => Err(e),
        Ok(()) => Ok(
            (
                closed(s, accounts),
                Event::RoleClosed {
                    admin: accounts.admin,
                    organization: accounts.organization,
                    role: accounts.role,
                },
            ),
        ),
    }
}

/// Closing a role that passes the checks keeps the invariant: no binding
/// refers to a role without members.
pub proof fn lemma_closed_inv(s: RegistryView, accounts: CloseRole)
    requires
        s.inv(),
        checks(s, accounts) is Ok,
    ensures
        closed(s, accounts).inv(),
{
    let t = closed(s, accounts);
    let r = accounts.role;
    assert(s.roles.contains_key(r));
    assert(s.role_ok(r));
    lemma_keys_where_finite(s.members, member_with(r));
    assert(s.holders_of(r).len() == 0);
    assert(s.holders_of(r) =~= Set::<Address>::empty());
    assert forall|x: Address| #[trigger] t.organizations.contains_key(x) implies t.org_ok(x) by {
        assert(s.organizations.contains_key(x));
        assert(s.org_ok(x));
        lemma_keys_where_delete(s.roles, r, role_in(x));
    }
    assert forall|x: Address| #[trigger] t.roles.contains_key(x) implies t.role_ok(x) by {
        assert(s.roles.contains_key(x));
        assert(s.role_ok(x));
    }
    assert forall|x: Address| #[trigger] t.members.contains_key(x) implies t.member_ok(x) by {
        assert(s.member_ok(x));
        if s.members[x].role == r {
            assert(s.holders_of(r).contains(x));
        }
    }
}

/// Removes a role that has no members and counts one role less on the
/// organization.
pub fn handler(state: &mut Registry, accounts: &CloseRole) -> (r: Result<Event, StateShiftError>)
    ensures
        realizes(old(state)@, final(state)@, r, outcome(old(state)@, *accounts)),
{
    state.invariant_holds();
    let (is_admin, no_roles) = match state.organization(&accounts.organization) {
        None => {
            return Err(StateShiftError::NotFound);
        },
        Some(org) => (org.admin == accounts.admin, org.role_count == 0),
    };
    if !is_admin {
        return Err(StateShiftError::Unauthorized);
    }
    if let Err(e) = state.check_role(&accounts.organization, &accounts.role) {
        return Err(e);
    }
    let has_members = match state.role(&accounts.role) {
        Some(role) => role.member_count > 0,
        None => true,
    };
    if has_members {
        return Err(StateShiftError::RoleHasMembers);
    }
    if no_roles {
        return Err(StateShiftError::Overflow);
    }
    proof {
        lemma_closed_inv(state@, *accounts);
    }
    let (configs, mut organizations, mut roles, members) = state.take();
    let _ = roles.delete(&accounts.role);
    let org = organizations.get_mut(&accounts.organization);
    let _ = org.remove_role();
    state.put(configs, organizations, roles, members);
    proof {
        assert(state@ == closed(old(state)@, *accounts));
    }
    Ok(
        Event::RoleClosed {
            admin: accounts.admin,
            organization: accounts.organization,
            role: accounts.role,
        },
    )
}

} // verus!
