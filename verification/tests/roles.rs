use stateshift::address::{role_address, Address};
use stateshift::constants::{PERM_ADMIN, PERM_READ, PERM_WRITE};
use stateshift::error::StateShiftError;
use stateshift::event::Event;
use stateshift::instructions::assign_role::AssignRole;
use stateshift::instructions::close_role::CloseRole;
use stateshift::instructions::create_organization::CreateOrganization;
use stateshift::instructions::create_role::CreateRole;
use stateshift::instructions::initialize::Initialize;
use stateshift::instructions::revoke_role::RevokeRole;
use stateshift::instructions::update_role_permissions::UpdateRolePermissions;
use stateshift::registry::Registry;
use stateshift::state::organization::Organization;
use stateshift::state::role::Role;

const SUPER: u8 = 1;
const ADMIN: u8 = 2;
const OTHER: u8 = 3;
const USER: u8 = 4;

fn addr(n: u8) -> Address {
    Address { bytes: [n; 32] }
}

fn with_org() -> (Registry, Address) {
    let mut state = Registry::new();
    assert!(stateshift::initialize(&mut state, &Initialize { super_admin: addr(SUPER) }).is_ok());
    let org = new_org(&mut state, "acme");
    (state, org)
}

fn new_org(state: &mut Registry, name: &str) -> Address {
    let accounts = CreateOrganization { super_admin: addr(SUPER) };
    match stateshift::create_organization(state, &accounts, String::from(name), addr(ADMIN)) {
        Ok(Event::OrganizationCreated { organization, .. }) => organization,
        other => panic!("no organization: {:?}", other),
    }
}

fn new_role(state: &mut Registry, org: Address, name: &str, permissions: u16) -> Address {
    let accounts = CreateRole { admin: addr(ADMIN), organization: org };
    match stateshift::create_role(state, &accounts, String::from(name), permissions) {
        Ok(Event::RoleCreated { role, .. }) => role,
        other => panic!("no role: {:?}", other),
    }
}

fn org_record(state: &Registry, org: &Address) -> Organization {
    state.organization(org).expect("organization exists").clone()
}

#[test]
fn create_role_fills_the_record() {
    let (mut state, org) = with_org();
    let accounts = CreateRole { admin: addr(ADMIN), organization: org };
    let r = stateshift::create_role(&mut state, &accounts, String::from("editor"), 3);
    let at = role_address(&org, "editor").expect("derivable");
    assert_eq!(
        r,
        Ok(Event::RoleCreated { admin: addr(ADMIN), organization: org, role: at, permissions: 3 })
    );
    assert_eq!(
        state.role(&at),
        Some(&Role { org, name: String::from("editor"), permissions: 3, member_count: 0 })
    );
    assert_eq!(state.organization(&org).expect("exists").role_count, 1);
}

#[test]
fn create_role_is_for_the_admin() {
    let (mut state, org) = with_org();
    let before = org_record(&state, &org);
    let by_other = CreateRole { admin: addr(OTHER), organization: org };
    assert_eq!(
        stateshift::create_role(&mut state, &by_other, String::from("editor"), 3),
        Err(StateShiftError::Unauthorized)
    );
    let by_super = CreateRole { admin: addr(SUPER), organization: org };
    assert_eq!(
        stateshift::create_role(&mut state, &by_super, String::from("editor"), 3),
        Err(StateShiftError::Unauthorized)
    );
    assert_eq!(org_record(&state, &org), before);
    assert_eq!(state.role(&role_address(&org, "editor").expect("derivable")), None);
}

#[test]
fn create_role_in_unknown_organization_is_not_found() {
    let (mut state, _) = with_org();
    let accounts = CreateRole { admin: addr(ADMIN), organization: addr(9) };
    assert_eq!(
        stateshift::create_role(&mut state, &accounts, String::from("editor"), 3),
        Err(StateShiftError::NotFound)
    );
}

#[test]
fn create_role_name_of_32_bytes_is_accepted() {
    let (mut state, org) = with_org();
    let accounts = CreateRole { admin: addr(ADMIN), organization: org };
    assert!(stateshift::create_role(&mut state, &accounts, "r".repeat(32), 1).is_ok());
    assert_eq!(state.organization(&org).expect("exists").role_count, 1);
}

#[test]
fn create_role_name_of_33_bytes_is_refused() {
    let (mut state, org) = with_org();
    let accounts = CreateRole { admin: addr(ADMIN), organization: org };
    assert_eq!(
        stateshift::create_role(&mut state, &accounts, "r".repeat(33), 1),
        Err(StateShiftError::RoleNameTooLong)
    );
    assert_eq!(state.organization(&org).expect("exists").role_count, 0);
}

#[test]
fn create_role_without_permissions_is_refused() {
    let (mut state, org) = with_org();
    let accounts = CreateRole { admin: addr(ADMIN), organization: org };
    assert_eq!(
        stateshift::create_role(&mut state, &accounts, String::from("none"), 0),
        Err(StateShiftError::InvalidPermissions)
    );
    assert_eq!(state.organization(&org).expect("exists").role_count, 0);
    assert_eq!(state.role(&role_address(&org, "none").expect("derivable")), None);
}

#[test]
fn create_role_checks_come_in_order() {
    let (mut state, org) = with_org();
    let by_other = CreateRole { admin: addr(OTHER), organization: org };
    assert_eq!(
        stateshift::create_role(&mut state, &by_other, "r".repeat(33), 0),
        Err(StateShiftError::Unauthorized)
    );
    let accounts = CreateRole { admin: addr(ADMIN), organization: org };
    assert_eq!(
        stateshift::create_role(&mut state, &accounts, "r".repeat(33), 0),
        Err(StateShiftError::RoleNameTooLong)
    );
}

#[test]
fn create_role_twice_under_one_name_is_refused() {
    let (mut state, org) = with_org();
    let role = new_role(&mut state, org, "editor", 3);
    let accounts = CreateRole { admin: addr(ADMIN), organization: org };
    assert_eq!(
        stateshift::create_role(&mut state, &accounts, String::from("editor"), 7),
        Err(StateShiftError::AlreadyExists)
    );
    assert_eq!(state.role(&role).expect("exists").permissions, 3);
    assert_eq!(state.organization(&org).expect("exists").role_count, 1);
}

#[test]
fn role_names_are_scoped_to_the_organization() {
    let (mut state, first) = with_org();
    let second = new_org(&mut state, "other");
    let a = new_role(&mut state, first, "editor", 1);
    let b = new_role(&mut state, second, "editor", 2);
    assert_ne!(a, b);
    assert_eq!(state.role(&a).expect("exists").org, first);
    assert_eq!(state.role(&b).expect("exists").org, second);
    assert_eq!(state.organization(&first).expect("exists").role_count, 1);
    assert_eq!(state.organization(&second).expect("exists").role_count, 1);
}

#[test]
fn twenty_first_role_is_refused() {
    let (mut state, org) = with_org();
    let mut n: u8 = 0;
    while n < 20 {
        let _ = new_role(&mut state, org, &format!("role-{}", n), 1);
        n += 1;
        assert_eq!(state.organization(&org).expect("exists").role_count, n);
    }
    let accounts = CreateRole { admin: addr(ADMIN), organization: org };
    assert_eq!(
        stateshift::create_role(&mut state, &accounts, String::from("role-20"), 1),
        Err(StateShiftError::MaxRolesReached)
    );
    assert_eq!(state.organization(&org).expect("exists").role_count, 20);
    assert_eq!(state.role(&role_address(&org, "role-20").expect("derivable")), None);
}

#[test]
fn closing_a_role_makes_room_for_another() {
    let (mut state, org) = with_org();
    let mut n: u8 = 0;
    let mut last = addr(0);
    while n < 20 {
        last = new_role(&mut state, org, &format!("role-{}", n), 1);
        n += 1;
    }
    let close = CloseRole { admin: addr(ADMIN), organization: org, role: last };
    assert!(stateshift::close_role(&mut state, &close).is_ok());
    assert_eq!(state.organization(&org).expect("exists").role_count, 19);
    let _ = new_role(&mut state, org, "late", 1);
    assert_eq!(state.organization(&org).expect("exists").role_count, 20);
}

#[test]
fn role_count_follows_open_roles() {
    let (mut state, org) = with_org();
    let a = new_role(&mut state, org, "a", 1);
    let b = new_role(&mut state, org, "b", 1);
    let c = new_role(&mut state, org, "c", 1);
    assert_eq!(state.organization(&org).expect("exists").role_count, 3);
    let close = CloseRole { admin: addr(ADMIN), organization: org, role: b };
    assert_eq!(
        stateshift::close_role(&mut state, &close),
        Ok(Event::RoleClosed { admin: addr(ADMIN), organization: org, role: b })
    );
    assert_eq!(state.organization(&org).expect("exists").role_count, 2);
    assert_eq!(state.role(&b), None);
    assert!(state.role(&a).is_some());
    assert!(state.role(&c).is_some());
    assert_eq!(stateshift::close_role(&mut state, &close), Err(StateShiftError::NotFound));
    assert_eq!(state.organization(&org).expect("exists").role_count, 2);
    let _ = new_role(&mut state, org, "b", 5);
    assert_eq!(state.organization(&org).expect("exists").role_count, 3);
    assert_eq!(state.role(&b).expect("reopened").permissions, 5);
}

#[test]
fn close_role_is_for_the_admin() {
    let (mut state, org) = with_org();
    let role = new_role(&mut state, org, "editor", 1);
    let close = CloseRole { admin: addr(OTHER), organization: org, role };
    assert_eq!(stateshift::close_role(&mut state, &close), Err(StateShiftError::Unauthorized));
    assert!(state.role(&role).is_some());
    assert_eq!(state.organization(&org).expect("exists").role_count, 1);
}

#[test]
fn close_role_of_unknown_organization_is_not_found() {
    let (mut state, org) = with_org();
    let role = new_role(&mut state, org, "editor", 1);
    let close = CloseRole { admin: addr(ADMIN), organization: addr(9), role };
    assert_eq!(stateshift::close_role(&mut state, &close), Err(StateShiftError::NotFound));
}

#[test]
fn close_role_of_another_organization_is_invalid() {
    let (mut state, first) = with_org();
    let second = new_org(&mut state, "other");
    let role = new_role(&mut state, first, "editor", 1);
    let _ = new_role(&mut state, second, "mine", 1);
    let close = CloseRole { admin: addr(ADMIN), organization: second, role };
    assert_eq!(stateshift::close_role(&mut state, &close), Err(StateShiftError::InvalidRole));
    assert!(state.role(&role).is_some());
    assert_eq!(state.organization(&first).expect("exists").role_count, 1);
    assert_eq!(state.organization(&second).expect("exists").role_count, 1);
}

#[test]
fn close_role_with_members_is_refused() {
    let (mut state, org) = with_org();
    let role = new_role(&mut state, org, "editor", 3);
    let assign = AssignRole { admin: addr(ADMIN), organization: org, role, user: addr(USER) };
    assert!(stateshift::instructions::assign_role::assign(&mut state, &assign, 100).is_ok());
    let org_before = org_record(&state, &org);
    let role_before = state.role(&role).expect("exists").clone();
    let close = CloseRole { admin: addr(ADMIN), organization: org, role };
    assert_eq!(
        stateshift::instructions::close_role::handler(&mut state, &close),
        Err(StateShiftError::RoleHasMembers)
    );
    assert_eq!(org_record(&state, &org), org_before);
    assert_eq!(state.role(&role), Some(&role_before));
    assert_eq!(role_before.member_count, 1);
    assert_eq!(org_before.role_count, 1);
}

#[test]
fn close_role_after_revoking_all_members() {
    let (mut state, org) = with_org();
    let role = new_role(&mut state, org, "editor", 3);
    let assign = AssignRole { admin: addr(ADMIN), organization: org, role, user: addr(USER) };
    assert!(stateshift::instructions::assign_role::assign(&mut state, &assign, 100).is_ok());
    let revoke = RevokeRole { admin: addr(ADMIN), organization: org, role, user: addr(USER) };
    assert!(stateshift::revoke_role(&mut state, &revoke).is_ok());
    let close = CloseRole { admin: addr(ADMIN), organization: org, role };
    assert!(stateshift::close_role(&mut state, &close).is_ok());
    assert_eq!(state.role(&role), None);
    assert_eq!(state.organization(&org).expect("exists").role_count, 0);
}

#[test]
fn update_overwrites_the_mask() {
    let (mut state, org) = with_org();
    let role = new_role(&mut state, org, "editor", PERM_READ);
    let accounts = UpdateRolePermissions { admin: addr(ADMIN), organization: org, role };
    let r = stateshift::update_role_permissions(&mut state, &accounts, PERM_READ | PERM_WRITE);
    assert_eq!(
        r,
        Ok(Event::PermissionsUpdated {
            admin: addr(ADMIN),
            organization: org,
            role,
            old_permissions: 1,
            new_permissions: 3,
        })
    );
    assert_eq!(
        state.role(&role),
        Some(&Role { org, name: String::from("editor"), permissions: 3, member_count: 0 })
    );
    assert!(stateshift::instructions::update_role_permissions::handler(&mut state, &accounts, PERM_ADMIN)
        .is_ok());
    assert_eq!(state.role(&role).expect("exists").permissions, 0xFFFF);
}

#[test]
fn update_changes_no_counter() {
    let (mut state, org) = with_org();
    let role = new_role(&mut state, org, "editor", PERM_READ);
    let assign = AssignRole { admin: addr(ADMIN), organization: org, role, user: addr(USER) };
    assert!(stateshift::instructions::assign_role::assign(&mut state, &assign, 100).is_ok());
    let before = org_record(&state, &org);
    let accounts = UpdateRolePermissions { admin: addr(ADMIN), organization: org, role };
    assert!(stateshift::update_role_permissions(&mut state, &accounts, PERM_WRITE).is_ok());
    assert_eq!(org_record(&state, &org), before);
    assert_eq!(state.role(&role).expect("exists").member_count, 1);
}

#[test]
fn update_to_zero_is_refused() {
    let (mut state, org) = with_org();
    let role = new_role(&mut state, org, "editor", PERM_READ);
    let accounts = UpdateRolePermissions { admin: addr(ADMIN), organization: org, role };
    assert_eq!(
        stateshift::update_role_permissions(&mut state, &accounts, 0),
        Err(StateShiftError::InvalidPermissions)
    );
    assert_eq!(state.role(&role).expect("exists").permissions, PERM_READ);
}

#[test]
fn update_is_for_the_admin() {
    let (mut state, org) = with_org();
    let role = new_role(&mut state, org, "editor", PERM_READ);
    let accounts = UpdateRolePermissions { admin: addr(OTHER), organization: org, role };
    assert_eq!(
        stateshift::update_role_permissions(&mut state, &accounts, PERM_ADMIN),
        Err(StateShiftError::Unauthorized)
    );
    assert_eq!(state.role(&role).expect("exists").permissions, PERM_READ);
}

#[test]
fn update_of_unknown_role_is_not_found() {
    let (mut state, org) = with_org();
    let accounts = UpdateRolePermissions { admin: addr(ADMIN), organization: org, role: addr(9) };
    assert_eq!(
        stateshift::update_role_permissions(&mut state, &accounts, PERM_ADMIN),
        Err(StateShiftError::NotFound)
    );
}

#[test]
fn update_of_role_of_another_organization_is_invalid() {
    let (mut state, first) = with_org();
    let second = new_org(&mut state, "other");
    let role = new_role(&mut state, first, "editor", PERM_READ);
    let accounts = UpdateRolePermissions { admin: addr(ADMIN), organization: second, role };
    assert_eq!(
        stateshift::update_role_permissions(&mut state, &accounts, PERM_ADMIN),
        Err(StateShiftError::InvalidRole)
    );
    assert_eq!(state.role(&role).expect("exists").permissions, PERM_READ);
}
