use vstd::prelude::*;
use crate::address::{member_address, spec_member_address, Address};
use crate::clock::unix_timestamp;
use crate::error::StateShiftError;
use crate::event::{realizes, Event, Outcome};
use crate::registry::{
    lemma_keys_where_create, lemma_keys_where_update, member_in, member_with, role_in, Registry,
    RegistryView,
};
use crate::state::member_role::MemberRole;

verus! {

/// The accounts of `assign_role`: the caller, the organization, the role to
/// assign, and the user who receives it.
#[derive(Clone, Copy, Debug, PartialEq, Eq)]
pub struct AssignRole {
    pub admin: Address,
    pub organization: Address,
    pub role: Address,
    pub user: Address,
}

/// The checks of `assign_role`, in their order, and the address of the new
/// binding where all of them pass.
pub open spec fn checks(s: RegistryView, accounts: AssignRole) -> Result<Address, StateShiftError> {
    if let Err(e) = s.admin_guard(accounts.organization, accounts.admin) {
        Err(e)
    } else if let Err(e) = s.role_guard(accounts.organization, accounts.role) {
        Err(e)
    } else {
        match spec_member_address(accounts.organization, accounts.user) {
            None => Err(StateShiftError::InvalidSeeds),
            Some(member) => if s.members.contains_key(member) {
                Err(StateShiftError::AlreadyAssigned)
            } else if s.roles[accounts.role].member_count == u16::MAX
                || s.organizations[accounts.organization].member_count == u16::MAX {
                Err(StateShiftError::Overflow)
            } else {
                Ok(member)
            },
        }
    }
}

/// The state after the binding at `member` has been created at time `now`:
/// the binding exists, and the role and the organization each count one
/// member more.
pub open spec fn assigned(s: RegistryView, accounts: AssignRole, member: Address, now: i64) -> RegistryView {
    let org = s.organizations[accounts.organization];
    let role = s.roles[accounts.role];
    RegistryView {
        organizations: s.organizations.insert(
            accounts.organization,
            org.with_member_count(org.member_count + 1),
        ),
        roles: s.roles.insert(accounts.role, role.with_member_count(role.member_count + 1)),
        members: s.members.insert(
            member,
            MemberRole::created(accounts.user, accounts.organization, accounts.role, now, accounts.admin),
        ),
        ..s
    }
}

/// What `assign_role` is to do at time `now`.
pub open spec fn outcome(s: RegistryView, accounts: AssignRole, now: i64) -> Outcome {
    match checks(s, accounts) {
        Err(e) => Err(e),
        Ok(member) => Ok(
            (
                assigned(s, accounts, member, now),
                Event::RoleAssigned {
                    admin: accounts.admin,
                    organization: accounts.organization,
                    role: accounts.role,
                    user: accounts.user,
                    member,
                    assigned_at: now,
                },
            ),
        ),
    }
}

/// An assignment that passes its checks keeps the invariant.
pub proof fn lemma_assigned_inv(s: RegistryView, accounts: AssignRole, member: Address, now: i64)
    requires
        s.inv(),
        checks(s, accounts) == Ok::<Address, StateShiftError>(member),
    ensures
        assigned(s, accounts, member, now).inv(),
{
    let t = assigned(s, accounts, member, now);
    let o = accounts.organization;
    let r = accounts.role;
    let binding = MemberRole::created(accounts.user, o, r, now, accounts.admin);
    assert(s.organizations.contains_key(o));
    assert(s.roles.contains_key(r));
    assert(s.org_ok(o));
    assert(s.role_ok(r));
    assert forall|x: Address| #[trigger] t.organizations.contains_key(x) implies t.org_ok(x) by {
        assert(s.organizations.contains_key(x));
        assert(s.org_ok(x));
        lemma_keys_where_update(s.roles, r, t.roles[r], role_in(x));
        lemma_keys_where_create(s.members, member, binding, member_in(x));
    }
    assert forall|x: Address| #[trigger] t.roles.contains_key(x) implies t.role_ok(x) by {
        assert(s.roles.contains_key(x));
        assert(s.role_ok(x));
        lemma_keys_where_create(s.members, member, binding, member_with(x));
    }
    assert forall|x: Address| #[trigger] t.members.contains_key(x) implies t.member_ok(x) by {
        if x != member {
            assert(s.members.contains_key(x));
            assert(s.member_ok(x));
        }
    }
}

/// Runs the checks of `assign_role` and derives the address of the new
/// binding.
pub fn check(state: &Registry, accounts: &AssignRole) -> (r: Result<Address, StateShiftError>)
    ensures
        r == checks(state@, *accounts),
{
    if let Err(e) = state.check_admin(&accounts.organization, &accounts.admin) {
        return Err(e);
    }
    if let Err(e) = state.check_role(&accounts.organization, &accounts.role) {
        return Err(e);
    }
    let member = match member_address(&accounts.organization, &accounts.user) {
        None => {
            return Err(StateShiftError::InvalidSeeds);
        },
        Some(member) => member,
    };
    if state.member(&member).is_some() {
        return Err(StateShiftError::AlreadyAssigned);
    }
    let role_full = match state.role(&accounts.role) {
        Some(role) => role.member_count == u16::MAX,
        None => true,
    };
    let org_full = match state.organization(&accounts.organization) {
        Some(org) => org.member_count == u16::MAX,
        None => true,
    };
    if role_full || org_full {
        return Err(StateShiftError::Overflow);
    }
    Ok(member)
}

fn commit(state: &mut Registry, accounts: &AssignRole, member: Address, now: i64) -> (event: Event)
    requires
        checks(old(state)@, *accounts) == Ok::<Address, StateShiftError>(member),
    ensures
        realizes(old(state)@, final(state)@, Ok(event), outcome(old(state)@, *accounts, now)),
{
    state.invariant_holds();
    proof {
        lemma_assigned_inv(state@, *accounts, member, now);
    }
    let binding = MemberRole::new(accounts.user, accounts.organization, accounts.role, now, accounts.admin);
    let (configs, mut organizations, mut roles, mut members) = state.take();
    let _ = members.create(member, binding);
    let role = roles.get_mut(&accounts.role);
    let _ = role.add_member();
    let org = organizations.get_mut(&accounts.organization);
    let _ = org.add_member();
    state.put(configs, organizations, roles, members);
    proof {
        assert(state@ == assigned(old(state)@, *accounts, member, now));
    }
    Event::RoleAssigned {
        admin: accounts.admin,
        organization: accounts.organization,
        role: accounts.role,
        user: accounts.user,
        member,
        assigned_at: now,
    }
}

/// Assigns the role at time `now`: creates the binding of the user, and
/// counts one member more on the role and on the organization. Where a check
/// fails nothing changes.
pub fn assign(state: &mut Registry, accounts: &AssignRole, now: i64) -> (r: Result<
    Event,
    StateShiftError,
>)
    ensures
        realizes(old(state)@, final(state)@, r, outcome(old(state)@, *accounts, now)),
{
    match check(state, accounts) {
        Err(e) => Err(e),
        Ok(member) => Ok(commit(state, accounts, member, now)),
    }
}

/// Assigns the role at the time the clock gives. The checks come first, so
/// that a refused assignment reports its own error whatever the clock does.
/// Where they pass, either the clock cannot be read and nothing changes, or
/// the assignment is made at some time `now`.
pub fn handler(state: &mut Registry, accounts: &AssignRole) -> (r: Result<Event, StateShiftError>)
    ensures
        match checks(old(state)@, *accounts) {
            Err(e) => r == Err::<Event, StateShiftError>(e) && final(state)@ == old(state)@,
            Ok(_) => (r == Err::<Event, StateShiftError>(StateShiftError::ClockUnavailable)
                && final(state)@ == old(state)@) || exists|now: i64|
                realizes(old(state)@, final(state)@, r, #[trigger] outcome(old(state)@, *accounts, now)),
        },
{
    match check(state, accounts) {
        Err(e) => Err(e),
        Ok(member) => match unix_timestamp() {
            None => Err(StateShiftError::ClockUnavailable),
            Some(now) => Ok(commit(state, accounts, member, now)),
        },
    }
}

} // verus!
