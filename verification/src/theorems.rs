//! What holds of the operations taken together.

use vstd::prelude::*;
use crate::address::{spec_member_address, Address};
use crate::error::StateShiftError;
use crate::event::{Event, Outcome};
use crate::instructions::assign_role;
use crate::instructions::assign_role::AssignRole;
use crate::instructions::close_role;
use crate::instructions::close_role::CloseRole;
use crate::instructions::create_organization;
use crate::instructions::create_organization::CreateOrganization;
use crate::instructions::create_role;
use crate::instructions::create_role::CreateRole;
use crate::instructions::deactivate_organization;
use crate::instructions::deactivate_organization::DeactivateOrganization;
use crate::instructions::initialize;
use crate::instructions::initialize::Initialize;
use crate::instructions::protected_action;
use crate::instructions::protected_action::ProtectedAction;
use crate::instructions::revoke_role;
use crate::instructions::revoke_role::RevokeRole;
use crate::instructions::transfer_org_admin;
use crate::instructions::transfer_org_admin::TransferOrgAdmin;
use crate::instructions::update_role_permissions;
use crate::instructions::update_role_permissions::UpdateRolePermissions;
use crate::registry::{
    lemma_keys_where_create, lemma_keys_where_delete, member_in, member_with, role_in,
    RegistryView,
};
use crate::state::role::permits;

verus! {

/// One call of one of the operations that change the state, with its
/// arguments.
pub enum Operation {
    Initialize(Initialize),
    CreateOrganization(CreateOrganization, String, Address),
    CreateRole(CreateRole, String, u16),
    AssignRole(AssignRole, i64),
    RevokeRole(RevokeRole),
    UpdateRolePermissions(UpdateRolePermissions, u16),
    TransferOrgAdmin(TransferOrgAdmin, Address),
    DeactivateOrganization(DeactivateOrganization),
    CloseRole(CloseRole),
}

/// What the operation is to do on the state `s`.
pub open spec fn step(s: RegistryView, op: Operation) -> Outcome {
    match op {
        Operation::Initialize(accounts) => initialize::outcome(s, accounts),
        Operation::CreateOrganization(accounts, name, admin) => create_organization::outcome(
            s,
            accounts,
            name,
            admin,
        ),
        Operation::CreateRole(accounts, role_name, permissions) => create_role::outcome(
            s,
            accounts,
            role_name,
            permissions,
        ),
        Operation::AssignRole(accounts, now) => assign_role::outcome(s, accounts, now),
        Operation::RevokeRole(accounts) => revoke_role::outcome(s, accounts),
        Operation::UpdateRolePermissions(accounts, new_permissions) => update_role_permissions::outcome(
            s,
            accounts,
            new_permissions,
        ),
        Operation::TransferOrgAdmin(accounts, new_admin) => transfer_org_admin::outcome(
            s,
            accounts,
            new_admin,
        ),
        Operation::DeactivateOrganization(accounts) => deactivate_organization::outcome(s, accounts),
        Operation::CloseRole(accounts) => close_role::outcome(s, accounts),
    }
}

/// The state without any record keeps the invariant.
pub proof fn empty_keeps_invariant()
    ensures
        RegistryView::empty().inv(),
{
}

/// Every operation that succeeds on a state that keeps the invariant leads
/// to a state that keeps it.
pub proof fn step_keeps_invariant(s: RegistryView, op: Operation)
    requires
        s.inv(),
        step(s, op) is Ok,
    ensures
        step(s, op)->Ok_0.0.inv(),
{
    match op {
        Operation::Initialize(accounts) => {
            let config = crate::address::spec_config_address()->Some_0;
            initialize::lemma_initialized_inv(s, accounts, config);
        },
        Operation::CreateOrganization(accounts, name, admin) => {
            let (config, organization) = create_organization::checks(s, accounts, name)->Ok_0;
            create_organization::lemma_registered_inv(s, accounts, name, admin, config, organization);
        },
        Operation::CreateRole(accounts, role_name, permissions) => {
            let role = create_role::checks(s, accounts, role_name, permissions)->Ok_0;
            create_role::lemma_opened_inv(s, accounts, role_name, permissions, role);
        },
        Operation::AssignRole(accounts, now) => {
            let member = assign_role::checks(s, accounts)->Ok_0;
            assign_role::lemma_assigned_inv(s, accounts, member, now);
        },
        Operation::RevokeRole(accounts) => {
            let member = revoke_role::checks(s, accounts)->Ok_0;
            revoke_role::lemma_revoked_inv(s, accounts, member);
        },
        Operation::UpdateRolePermissions(accounts, new_permissions) => {
            update_role_permissions::lemma_updated_inv(s, accounts, new_permissions);
        },
        Operation::TransferOrgAdmin(accounts, new_admin) => {
            transfer_org_admin::lemma_transferred_inv(s, accounts, new_admin);
        },
        Operation::DeactivateOrganization(accounts) => {
            deactivate_organization::lemma_deactivated_inv(s, accounts);
        },
        Operation::CloseRole(accounts) => {
            close_role::lemma_closed_inv(s, accounts);
        },
    }
}

/// The organization counter never decreases, and the configuration record,
/// once written, stays with the same super admin.
pub proof fn step_keeps_config(s: RegistryView, op: Operation, c: Address)
    requires
        s.inv(),
        step(s, op) is Ok,
        s.config.contains_key(c),
    ensures
        step(s, op)->Ok_0.0.config.contains_key(c),
        step(s, op)->Ok_0.0.config[c].super_admin == s.config[c].super_admin,
        step(s, op)->Ok_0.0.config[c].org_count >= s.config[c].org_count,
        step(s, op)->Ok_0.0.org_count() >= s.org_count(),
{
}

/// An organization is never removed, and its id and name never change.
pub proof fn step_keeps_organizations(s: RegistryView, op: Operation, o: Address)
    requires
        s.inv(),
        step(s, op) is Ok,
        s.organizations.contains_key(o),
    ensures
        step(s, op)->Ok_0.0.organizations.contains_key(o),
        step(s, op)->Ok_0.0.organizations[o].org_id == s.organizations[o].org_id,
        step(s, op)->Ok_0.0.organizations[o].name == s.organizations[o].name,
{
}

/// An organization that has been deactivated stays so: no operation
/// activates one.
pub proof fn deactivation_is_final(s: RegistryView, op: Operation, o: Address)
    requires
        s.inv(),
        step(s, op) is Ok,
        s.organizations.contains_key(o),
        !s.organizations[o].is_active,
    ensures
        !step(s, op)->Ok_0.0.organizations[o].is_active,
{
}

/// No two organizations carry the same id.
pub proof fn org_ids_are_unique(s: RegistryView, a: Address, b: Address)
    requires
        s.inv(),
        s.organizations.contains_key(a),
        s.organizations.contains_key(b),
        s.organizations[a].org_id == s.organizations[b].org_id,
    ensures
        a == b,
{
    assert(s.org_ok(a));
    assert(s.org_ok(b));
}

/// No two roles of one organization carry the same name.
pub proof fn role_names_are_unique(s: RegistryView, a: Address, b: Address)
    requires
        s.inv(),
        s.roles.contains_key(a),
        s.roles.contains_key(b),
        s.roles[a].org == s.roles[b].org,
        s.roles[a].name@ == s.roles[b].name@,
    ensures
        a == b,
{
    assert(s.role_ok(a));
    assert(s.role_ok(b));
}

/// A user has at most one binding in an organization.
pub proof fn bindings_are_unique(s: RegistryView, a: Address, b: Address)
    requires
        s.inv(),
        s.members.contains_key(a),
        s.members.contains_key(b),
        s.members[a].org == s.members[b].org,
        s.members[a].user == s.members[b].user,
    ensures
        a == b,
{
    assert(s.member_ok(a));
    assert(s.member_ok(b));
}

/// The role of a binding belongs to the organization of the binding.
pub proof fn binding_refers_to_role_of_its_organization(s: RegistryView, m: Address)
    requires
        s.inv(),
        s.members.contains_key(m),
    ensures
        s.roles.contains_key(s.members[m].role),
        s.roles[s.members[m].role].org == s.members[m].org,
        s.organizations.contains_key(s.members[m].org),
{
    assert(s.member_ok(m));
    assert(s.role_ok(s.members[m].role));
}

/// A successful `create_organization` advances the counter by exactly one,
/// and the new organization carries the value that the counter had before.
pub proof fn create_organization_advances_counter(
    s: RegistryView,
    accounts: CreateOrganization,
    name: String,
    admin: Address,
)
    requires
        s.inv(),
        create_organization::outcome(s, accounts, name, admin) is Ok,
    ensures
        ({
            let (t, event) = create_organization::outcome(s, accounts, name, admin)->Ok_0;
            &&& t.org_count() == s.org_count() + 1
            &&& event matches Event::OrganizationCreated { organization, org_id, .. }
            &&& org_id == s.org_count()
            &&& !s.organizations.contains_key(organization)
            &&& t.organizations.contains_key(organization)
            &&& t.organizations[organization].org_id == s.org_count()
        }),
{
}

/// The role counter of an organization is the number of its open roles.
pub proof fn role_count_counts_open_roles(s: RegistryView, org: Address)
    requires
        s.inv(),
        s.organizations.contains_key(org),
    ensures
        s.organizations[org].role_count == s.roles_of(org).len(),
{
    assert(s.org_ok(org));
}

/// A successful `create_role` adds the new role to the open roles of its
/// organization, and the counter grows by one.
pub proof fn create_role_adds_one(s: RegistryView, accounts: CreateRole, role_name: String, permissions: u16)
    requires
        s.inv(),
        create_role::outcome(s, accounts, role_name, permissions) is Ok,
    ensures
        ({
            let t = create_role::outcome(s, accounts, role_name, permissions)->Ok_0.0;
            let role = create_role::checks(s, accounts, role_name, permissions)->Ok_0;
            let o = accounts.organization;
            &&& !s.roles_of(o).contains(role)
            &&& t.roles_of(o) == s.roles_of(o).insert(role)
            &&& t.organizations[o].role_count == s.organizations[o].role_count + 1
        }),
{
    let role = create_role::checks(s, accounts, role_name, permissions)->Ok_0;
    let t = create_role::outcome(s, accounts, role_name, permissions)->Ok_0.0;
    lemma_keys_where_create(s.roles, role, t.roles[role], role_in(accounts.organization));
}

/// A successful `close_role` takes the role out of the open roles of its
/// organization, and the counter falls by one. It never falls below zero:
/// the role that is closed was counted.
pub proof fn close_role_removes_one(s: RegistryView, accounts: CloseRole)
    requires
        s.inv(),
        close_role::outcome(s, accounts) is Ok,
    ensures
        ({
            let t = close_role::outcome(s, accounts)->Ok_0.0;
            let o = accounts.organization;
            &&& s.roles_of(o).contains(accounts.role)
            &&& t.roles_of(o) == s.roles_of(o).remove(accounts.role)
            &&& t.organizations[o].role_count == s.organizations[o].role_count - 1
        }),
{
    lemma_keys_where_delete(s.roles, accounts.role, role_in(accounts.organization));
}

/// An organization never has more than 20 roles.
pub proof fn role_count_is_bounded(s: RegistryView, org: Address)
    requires
        s.inv(),
        s.organizations.contains_key(org),
    ensures
        s.roles_of(org).len() <= crate::constants::MAX_ROLES_PER_ORG,
{
    assert(s.org_ok(org));
}

/// Creating a role and closing it again leads back to the state before.
pub proof fn create_then_close_restores(
    s: RegistryView,
    accounts: CreateRole,
    role_name: String,
    permissions: u16,
)
    requires
        s.inv(),
        create_role::outcome(s, accounts, role_name, permissions) is Ok,
    ensures
        ({
            let t = create_role::outcome(s, accounts, role_name, permissions)->Ok_0.0;
            let role = create_role::checks(s, accounts, role_name, permissions)->Ok_0;
            let back = CloseRole {
                admin: accounts.admin,
                organization: accounts.organization,
                role,
            };
            &&& close_role::outcome(t, back) is Ok
            &&& close_role::outcome(t, back)->Ok_0.0 == s
        }),
{
    let t = create_role::outcome(s, accounts, role_name, permissions)->Ok_0.0;
    let role = create_role::checks(s, accounts, role_name, permissions)->Ok_0;
    let back = CloseRole { admin: accounts.admin, organization: accounts.organization, role };
    assert(close_role::checks(t, back) is Ok);
    let u = close_role::closed(t, back);
    assert(u.roles =~= s.roles);
    assert(u.organizations =~= s.organizations);
}

/// `close_role` never fails for want of a role to count down: where the
/// invariant holds and the role exists in the organization, the counter is
/// not zero.
pub proof fn close_role_never_underflows(s: RegistryView, accounts: CloseRole)
    requires
        s.inv(),
    ensures
        close_role::outcome(s, accounts) != Err::<(RegistryView, Event), StateShiftError>(
            StateShiftError::Overflow,
        ),
{
    if s.organizations.contains_key(accounts.organization) && s.roles.contains_key(accounts.role)
        && s.roles[accounts.role].org == accounts.organization {
        assert(s.org_ok(accounts.organization));
        assert(s.roles_of(accounts.organization).contains(accounts.role));
        crate::registry::lemma_keys_where_finite(s.roles, role_in(accounts.organization));
    }
}

/// The member counter of a role is the number of active bindings to it, and
/// the member counter of an organization the number of active bindings in
/// it.
pub proof fn member_count_counts_active_bindings(s: RegistryView, org: Address, role: Address)
    requires
        s.inv(),
    ensures
        s.roles.contains_key(role) ==> s.roles[role].member_count == s.holders_of(role).len(),
        s.organizations.contains_key(org) ==> s.organizations[org].member_count == s.members_of(
            org,
        ).len(),
{
    if s.roles.contains_key(role) {
        assert(s.role_ok(role));
    }
    if s.organizations.contains_key(org) {
        assert(s.org_ok(org));
    }
}

/// A successful `assign_role` adds the new binding to those of the role and
/// of the organization, and both counters grow by one.
pub proof fn assign_role_adds_one(s: RegistryView, accounts: AssignRole, now: i64)
    requires
        s.inv(),
        assign_role::outcome(s, accounts, now) is Ok,
    ensures
        ({
            let t = assign_role::outcome(s, accounts, now)->Ok_0.0;
            let member = assign_role::checks(s, accounts)->Ok_0;
            &&& t.holders_of(accounts.role) == s.holders_of(accounts.role).insert(member)
            &&& t.members_of(accounts.organization) == s.members_of(accounts.organization).insert(
                member,
            )
            &&& t.roles[accounts.role].member_count == s.roles[accounts.role].member_count + 1
            &&& t.organizations[accounts.organization].member_count
                == s.organizations[accounts.organization].member_count + 1
        }),
{
    let member = assign_role::checks(s, accounts)->Ok_0;
    let t = assign_role::outcome(s, accounts, now)->Ok_0.0;
    lemma_keys_where_create(s.members, member, t.members[member], member_with(accounts.role));
    lemma_keys_where_create(s.members, member, t.members[member], member_in(accounts.organization));
}

/// A successful `revoke_role` takes the binding away from those of the role
/// and of the organization, and both counters fall by one.
pub proof fn revoke_role_removes_one(s: RegistryView, accounts: RevokeRole)
    requires
        s.inv(),
        revoke_role::outcome(s, accounts) is Ok,
    ensures
        ({
            let t = revoke_role::outcome(s, accounts)->Ok_0.0;
            let member = revoke_role::checks(s, accounts)->Ok_0;
            &&& t.holders_of(accounts.role) == s.holders_of(accounts.role).remove(member)
            &&& t.members_of(accounts.organization) == s.members_of(accounts.organization).remove(
                member,
            )
            &&& t.roles[accounts.role].member_count == s.roles[accounts.role].member_count - 1
            &&& t.organizations[accounts.organization].member_count
                == s.organizations[accounts.organization].member_count - 1
        }),
{
    let member = revoke_role::checks(s, accounts)->Ok_0;
    lemma_keys_where_delete(s.members, member, member_with(accounts.role));
    lemma_keys_where_delete(s.members, member, member_in(accounts.organization));
}

/// `revoke_role` never fails for want of a member to count down: where the
/// invariant holds, a binding that can be revoked was counted on its role
/// and on its organization.
pub proof fn revoke_role_never_underflows(s: RegistryView, accounts: RevokeRole)
    requires
        s.inv(),
    ensures
        revoke_role::outcome(s, accounts) != Err::<(RegistryView, Event), StateShiftError>(
            StateShiftError::Overflow,
        ),
{
    if let Some(member) = spec_member_address(accounts.organization, accounts.user) {
        if s.members.contains_key(member) && s.organizations.contains_key(accounts.organization)
            && s.roles.contains_key(accounts.role) && s.members[member].org
            == accounts.organization && s.members[member].role == accounts.role {
            assert(s.member_ok(member));
            assert(s.org_ok(accounts.organization));
            assert(s.role_ok(accounts.role));
            assert(s.holders_of(accounts.role).contains(member));
            assert(s.members_of(accounts.organization).contains(member));
            crate::registry::lemma_keys_where_finite(s.members, member_with(accounts.role));
            crate::registry::lemma_keys_where_finite(s.members, member_in(accounts.organization));
        }
    }
}

/// `protected_action` succeeds only where the role's mask holds every
/// required bit.
pub proof fn protected_action_needs_permission(s: RegistryView, accounts: ProtectedAction, required: u16)
    requires
        protected_action::decision(s, accounts, required) is Ok,
    ensures
        s.roles.contains_key(accounts.role),
        permits(s.roles[accounts.role].permissions, required),
{
}

/// For a caller who holds the role in an active organization,
/// `protected_action` succeeds if the role's mask holds every required bit,
/// and reports `Unauthorized` if it does not.
pub proof fn protected_action_decides_by_mask(
    s: RegistryView,
    accounts: ProtectedAction,
    required: u16,
    member: Address,
)
    requires
        s.inv(),
        spec_member_address(accounts.organization, accounts.caller) == Some(member),
        s.members.contains_key(member),
        s.members[member].org == accounts.organization,
        s.members[member].user == accounts.caller,
        s.members[member].role == accounts.role,
        s.organizations.contains_key(accounts.organization),
        s.organizations[accounts.organization].is_active,
    ensures
        s.roles.contains_key(accounts.role),
        protected_action::decision(s, accounts, required) is Ok <==> permits(
            s.roles[accounts.role].permissions,
            required,
        ),
        !permits(s.roles[accounts.role].permissions, required) ==> protected_action::decision(
            s,
            accounts,
            required,
        ) == Err::<Event, StateShiftError>(StateShiftError::Unauthorized),
{
    assert(s.member_ok(member));
}

/// `protected_action` never meets a binding that is not active: where the
/// invariant holds every binding is.
pub proof fn protected_action_meets_active_bindings(
    s: RegistryView,
    accounts: ProtectedAction,
    required: u16,
)
    requires
        s.inv(),
    ensures
        protected_action::decision(s, accounts, required) != Err::<Event, StateShiftError>(
            StateShiftError::MemberNotActive,
        ),
{
    if let Some(member) = spec_member_address(accounts.organization, accounts.caller) {
        if s.members.contains_key(member) {
            assert(s.member_ok(member));
        }
    }
}

/// Assigning a role and revoking it again for the same organization, role
/// and user leads back to the state before: the counters of the role and of
/// the organization have their old values, and the binding is gone.
pub proof fn assign_then_revoke_restores(s: RegistryView, accounts: AssignRole, now: i64)
    requires
        s.inv(),
        assign_role::outcome(s, accounts, now) is Ok,
    ensures
        ({
            let t = assign_role::outcome(s, accounts, now)->Ok_0.0;
            let member = assign_role::checks(s, accounts)->Ok_0;
            let back = RevokeRole {
                admin: accounts.admin,
                organization: accounts.organization,
                role: accounts.role,
                user: accounts.user,
            };
            &&& revoke_role::outcome(t, back) is Ok
            &&& revoke_role::outcome(t, back)->Ok_0.0 == s
            &&& !s.members.contains_key(member)
            &&& t.members.contains_key(member)
        }),
{
    let t = assign_role::outcome(s, accounts, now)->Ok_0.0;
    let member = assign_role::checks(s, accounts)->Ok_0;
    let back = RevokeRole {
        admin: accounts.admin,
        organization: accounts.organization,
        role: accounts.role,
        user: accounts.user,
    };
    assert(revoke_role::checks(t, back) == Ok::<Address, StateShiftError>(member));
    let u = revoke_role::revoked(t, back, member);
    assert(u.members =~= s.members);
    assert(u.roles =~= s.roles);
    assert(u.organizations =~= s.organizations);
}

/// `close_role` on a role that has members is refused with
/// `RoleHasMembers`, whoever else would be allowed to close it.
pub proof fn close_role_refuses_role_with_members(s: RegistryView, accounts: CloseRole)
    requires
        s.organizations.contains_key(accounts.organization),
        s.organizations[accounts.organization].admin == accounts.admin,
        s.roles.contains_key(accounts.role),
        s.roles[accounts.role].org == accounts.organization,
        s.roles[accounts.role].member_count > 0,
    ensures
        close_role::outcome(s, accounts) == Err::<(RegistryView, Event), StateShiftError>(
            StateShiftError::RoleHasMembers,
        ),
{
}

/// A role with a binding to it cannot be closed.
pub proof fn role_with_binding_cannot_be_closed(s: RegistryView, accounts: CloseRole, m: Address)
    requires
        s.inv(),
        s.members.contains_key(m),
        s.members[m].role == accounts.role,
    ensures
        close_role::outcome(s, accounts) is Err,
{
    assert(s.member_ok(m));
    assert(s.role_ok(accounts.role));
    assert(s.holders_of(accounts.role).contains(m));
    crate::registry::lemma_keys_where_finite(s.members, member_with(accounts.role));
}

} // verus!
