use stateshift::address::{config_address, org_address, Address};
use stateshift::error::StateShiftError;
use stateshift::event::Event;
use stateshift::instructions::close_role::CloseRole;
use stateshift::instructions::create_organization::CreateOrganization;
use stateshift::instructions::create_role::CreateRole;
use stateshift::instructions::deactivate_organization::DeactivateOrganization;
use stateshift::instructions::initialize::Initialize;
use stateshift::instructions::transfer_org_admin::TransferOrgAdmin;
use stateshift::registry::Registry;
use stateshift::state::config::Config;
use stateshift::state::organization::Organization;

const SUPER: u8 = 1;
const ADMIN: u8 = 2;
const OTHER: u8 = 3;

fn addr(n: u8) -> Address {
    Address { bytes: [n; 32] }
}

fn initialized() -> Registry {
    let mut state = Registry::new();
    let r = stateshift::initialize(&mut state, &Initialize { super_admin: addr(SUPER) });
    assert!(r.is_ok());
    state
}

fn new_org(state: &mut Registry, name: &str, admin: Address) -> Address {
    let accounts = CreateOrganization { super_admin: addr(SUPER) };
    match stateshift::create_organization(state, &accounts, String::from(name), admin) {
        Ok(Event::OrganizationCreated { organization, .. }) => organization,
        other => panic!("no organization: {:?}", other),
    }
}

#[test]
fn registry_starts_without_records() {
    let state = Registry::new();
    assert_eq!(state.config(), None);
    assert_eq!(state.organization(&addr(1)), None);
    assert_eq!(state.role(&addr(1)), None);
    assert_eq!(state.member(&addr(1)), None);
}

#[test]
fn initialize_writes_config() {
    let mut state = Registry::new();
    let r = stateshift::initialize(&mut state, &Initialize { super_admin: addr(SUPER) });
    let at = config_address().expect("derivable");
    assert_eq!(r, Ok(Event::Initialized { super_admin: addr(SUPER), config: at }));
    assert_eq!(state.config(), Some(&Config { super_admin: addr(SUPER), org_count: 0 }));
}

#[test]
fn initialize_twice_is_refused() {
    let mut state = initialized();
    let again = stateshift::initialize(&mut state, &Initialize { super_admin: addr(OTHER) });
    assert_eq!(again, Err(StateShiftError::AlreadyInitialized));
    assert_eq!(state.config(), Some(&Config { super_admin: addr(SUPER), org_count: 0 }));
    let same = stateshift::initialize(&mut state, &Initialize { super_admin: addr(SUPER) });
    assert_eq!(same, Err(StateShiftError::AlreadyInitialized));
}

#[test]
fn initialize_handler_is_the_operation() {
    let mut state = Registry::new();
    let accounts = Initialize { super_admin: addr(SUPER) };
    assert!(stateshift::instructions::initialize::handler(&mut state, &accounts).is_ok());
    assert_eq!(
        stateshift::instructions::initialize::handler(&mut state, &accounts),
        Err(StateShiftError::AlreadyInitialized)
    );
}

#[test]
fn create_organization_before_initialize_finds_no_config() {
    let mut state = Registry::new();
    let accounts = CreateOrganization { super_admin: addr(SUPER) };
    let r = stateshift::create_organization(&mut state, &accounts, String::from("acme"), addr(ADMIN));
    assert_eq!(r, Err(StateShiftError::NotFound));
    assert_eq!(state.config(), None);
}

#[test]
fn create_organization_fills_the_record() {
    let mut state = initialized();
    let accounts = CreateOrganization { super_admin: addr(SUPER) };
    let r = stateshift::create_organization(&mut state, &accounts, String::from("acme"), addr(ADMIN));
    let at = org_address(0).expect("derivable");
    assert_eq!(
        r,
        Ok(Event::OrganizationCreated {
            super_admin: addr(SUPER),
            organization: at,
            org_id: 0,
            admin: addr(ADMIN),
        })
    );
    assert_eq!(
        state.organization(&at),
        Some(&Organization {
            admin: addr(ADMIN),
            org_id: 0,
            name: String::from("acme"),
            role_count: 0,
            member_count: 0,
            is_active: true,
        })
    );
}

#[test]
fn create_organization_advances_counter_by_one() {
    let mut state = initialized();
    let mut expected: u64 = 0;
    while expected < 5 {
        let before = state.config().expect("initialized").org_count;
        assert_eq!(before, expected);
        let at = new_org(&mut state, "acme", addr(ADMIN));
        assert_eq!(Some(at), org_address(before));
        assert_eq!(state.organization(&at).expect("created").org_id, before);
        assert_eq!(state.config().expect("initialized").org_count, before + 1);
        expected += 1;
    }
}

#[test]
fn organizations_may_share_a_name() {
    let mut state = initialized();
    let first = new_org(&mut state, "acme", addr(ADMIN));
    let second = new_org(&mut state, "acme", addr(ADMIN));
    assert_ne!(first, second);
    assert_eq!(state.organization(&first).expect("first").org_id, 0);
    assert_eq!(state.organization(&second).expect("second").org_id, 1);
}

#[test]
fn create_organization_is_for_the_super_admin() {
    let mut state = initialized();
    let accounts = CreateOrganization { super_admin: addr(OTHER) };
    let r = stateshift::create_organization(&mut state, &accounts, String::from("acme"), addr(ADMIN));
    assert_eq!(r, Err(StateShiftError::Unauthorized));
    assert_eq!(state.config().expect("initialized").org_count, 0);
    assert_eq!(state.organization(&org_address(0).expect("derivable")), None);
}

#[test]
fn create_organization_name_of_32_bytes_is_accepted() {
    let mut state = initialized();
    let accounts = CreateOrganization { super_admin: addr(SUPER) };
    let r = stateshift::create_organization(&mut state, &accounts, "n".repeat(32), addr(ADMIN));
    assert!(r.is_ok());
    assert_eq!(state.config().expect("initialized").org_count, 1);
}

#[test]
fn create_organization_name_of_33_bytes_is_refused() {
    let mut state = initialized();
    let accounts = CreateOrganization { super_admin: addr(SUPER) };
    let r = stateshift::create_organization(&mut state, &accounts, "n".repeat(33), addr(ADMIN));
    assert_eq!(r, Err(StateShiftError::NameTooLong));
    assert_eq!(state.config().expect("initialized").org_count, 0);
    assert_eq!(state.organization(&org_address(0).expect("derivable")), None);
}

#[test]
fn create_organization_judges_the_caller_before_the_name() {
    let mut state = initialized();
    let accounts = CreateOrganization { super_admin: addr(OTHER) };
    let r = stateshift::create_organization(&mut state, &accounts, "n".repeat(33), addr(ADMIN));
    assert_eq!(r, Err(StateShiftError::Unauthorized));
}

#[test]
fn create_organization_handler_is_the_operation() {
    let mut state = initialized();
    let accounts = CreateOrganization { super_admin: addr(SUPER) };
    let r = stateshift::instructions::create_organization::handler(
        &mut state,
        &accounts,
        String::from("acme"),
        addr(ADMIN),
    );
    assert!(matches!(r, Ok(Event::OrganizationCreated { org_id: 0, .. })));
}

#[test]
fn transfer_hands_over_the_admin_guard() {
    let mut state = initialized();
    let org = new_org(&mut state, "acme", addr(ADMIN));
    let accounts = TransferOrgAdmin { admin: addr(ADMIN), organization: org };
    let r = stateshift::transfer_org_admin(&mut state, &accounts, addr(OTHER));
    assert_eq!(
        r,
        Ok(Event::AdminTransferred { organization: org, old_admin: addr(ADMIN), new_admin: addr(OTHER) })
    );
    assert_eq!(state.organization(&org).expect("exists").admin, addr(OTHER));
    let old = CreateRole { admin: addr(ADMIN), organization: org };
    assert_eq!(
        stateshift::create_role(&mut state, &old, String::from("r"), 1),
        Err(StateShiftError::Unauthorized)
    );
    let new = CreateRole { admin: addr(OTHER), organization: org };
    assert!(stateshift::create_role(&mut state, &new, String::from("r"), 1).is_ok());
    assert_eq!(
        stateshift::transfer_org_admin(&mut state, &accounts, addr(ADMIN)),
        Err(StateShiftError::Unauthorized)
    );
}

#[test]
fn transfer_keeps_the_rest_of_the_record() {
    let mut state = initialized();
    let org = new_org(&mut state, "acme", addr(ADMIN));
    let creator = CreateRole { admin: addr(ADMIN), organization: org };
    assert!(stateshift::create_role(&mut state, &creator, String::from("r"), 1).is_ok());
    let accounts = TransferOrgAdmin { admin: addr(ADMIN), organization: org };
    assert!(stateshift::instructions::transfer_org_admin::handler(&mut state, &accounts, addr(OTHER)).is_ok());
    assert_eq!(
        state.organization(&org),
        Some(&Organization {
            admin: addr(OTHER),
            org_id: 0,
            name: String::from("acme"),
            role_count: 1,
            member_count: 0,
            is_active: true,
        })
    );
}

#[test]
fn transfer_of_unknown_organization_is_not_found() {
    let mut state = initialized();
    let accounts = TransferOrgAdmin { admin: addr(ADMIN), organization: addr(9) };
    assert_eq!(
        stateshift::transfer_org_admin(&mut state, &accounts, addr(OTHER)),
        Err(StateShiftError::NotFound)
    );
}

#[test]
fn transfer_is_refused_on_inactive_organization() {
    let mut state = initialized();
    let org = new_org(&mut state, "acme", addr(ADMIN));
    let off = DeactivateOrganization { super_admin: addr(SUPER), organization: org };
    assert!(stateshift::deactivate_organization(&mut state, &off).is_ok());
    let accounts = TransferOrgAdmin { admin: addr(ADMIN), organization: org };
    assert_eq!(
        stateshift::transfer_org_admin(&mut state, &accounts, addr(OTHER)),
        Err(StateShiftError::OrgNotActive)
    );
    assert_eq!(state.organization(&org).expect("exists").admin, addr(ADMIN));
}

#[test]
fn deactivate_keeps_the_record() {
    let mut state = initialized();
    let org = new_org(&mut state, "acme", addr(ADMIN));
    let off = DeactivateOrganization { super_admin: addr(SUPER), organization: org };
    let r = stateshift::deactivate_organization(&mut state, &off);
    assert_eq!(
        r,
        Ok(Event::OrganizationDeactivated { super_admin: addr(SUPER), organization: org, org_id: 0 })
    );
    assert_eq!(
        state.organization(&org),
        Some(&Organization {
            admin: addr(ADMIN),
            org_id: 0,
            name: String::from("acme"),
            role_count: 0,
            member_count: 0,
            is_active: false,
        })
    );
}

#[test]
fn deactivate_twice_is_reported() {
    let mut state = initialized();
    let org = new_org(&mut state, "acme", addr(ADMIN));
    let off = DeactivateOrganization { super_admin: addr(SUPER), organization: org };
    assert!(stateshift::instructions::deactivate_organization::handler(&mut state, &off).is_ok());
    assert_eq!(
        stateshift::deactivate_organization(&mut state, &off),
        Err(StateShiftError::OrgNotActive)
    );
    assert!(!state.organization(&org).expect("exists").is_active);
}

#[test]
fn deactivate_is_for_the_super_admin_alone() {
    let mut state = initialized();
    let org = new_org(&mut state, "acme", addr(ADMIN));
    let by_admin = DeactivateOrganization { super_admin: addr(ADMIN), organization: org };
    assert_eq!(
        stateshift::deactivate_organization(&mut state, &by_admin),
        Err(StateShiftError::Unauthorized)
    );
    assert!(state.organization(&org).expect("exists").is_active);
}

#[test]
fn deactivate_unknown_organization_is_not_found() {
    let mut state = initialized();
    let off = DeactivateOrganization { super_admin: addr(SUPER), organization: addr(9) };
    assert_eq!(stateshift::deactivate_organization(&mut state, &off), Err(StateShiftError::NotFound));
}

#[test]
fn deactivate_before_initialize_finds_no_config() {
    let mut state = Registry::new();
    let off = DeactivateOrganization { super_admin: addr(SUPER), organization: addr(9) };
    assert_eq!(stateshift::deactivate_organization(&mut state, &off), Err(StateShiftError::NotFound));
}

#[test]
fn inactive_organization_takes_no_new_roles() {
    let mut state = initialized();
    let org = new_org(&mut state, "acme", addr(ADMIN));
    let off = DeactivateOrganization { super_admin: addr(SUPER), organization: org };
    assert!(stateshift::deactivate_organization(&mut state, &off).is_ok());
    let creator = CreateRole { admin: addr(ADMIN), organization: org };
    assert_eq!(
        stateshift::create_role(&mut state, &creator, String::from("r"), 1),
        Err(StateShiftError::OrgNotActive)
    );
    assert_eq!(state.organization(&org).expect("exists").role_count, 0);
}

#[test]
fn inactive_organization_still_closes_roles() {
    let mut state = initialized();
    let org = new_org(&mut state, "acme", addr(ADMIN));
    let creator = CreateRole { admin: addr(ADMIN), organization: org };
    let role = match stateshift::create_role(&mut state, &creator, String::from("r"), 1) {
        Ok(Event::RoleCreated { role, .. }) => role,
        other => panic!("no role: {:?}", other),
    };
    let off = DeactivateOrganization { super_admin: addr(SUPER), organization: org };
    assert!(stateshift::deactivate_organization(&mut state, &off).is_ok());
    let close = CloseRole { admin: addr(ADMIN), organization: org, role };
    assert!(stateshift::close_role(&mut state, &close).is_ok());
    assert_eq!(state.role(&role), None);
    assert_eq!(state.organization(&org).expect("exists").role_count, 0);
}

#[test]
fn deactivating_one_organization_leaves_the_others() {
    let mut state = initialized();
    let first = new_org(&mut state, "one", addr(ADMIN));
    let second = new_org(&mut state, "two", addr(ADMIN));
    let off = DeactivateOrganization { super_admin: addr(SUPER), organization: first };
    assert!(stateshift::deactivate_organization(&mut state, &off).is_ok());
    assert!(state.organization(&second).expect("exists").is_active);
    let creator = CreateRole { admin: addr(ADMIN), organization: second };
    assert!(stateshift::create_role(&mut state, &creator, String::from("r"), 1).is_ok());
}
