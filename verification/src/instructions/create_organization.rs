use vstd::prelude::*;
use crate::address::{org_address, spec_org_address, Address};
use crate::constants::MAX_ORG_NAME_LEN;
use crate::error::StateShiftError;
use crate::event::{realizes, Event, Outcome};
use crate::registry::{Registry, RegistryView};
use crate::names::name_len;
use crate::state::organization::Organization;

verus! {

/// The accounts of `create_organization`: the caller.
#[derive(Clone, Copy, Debug, PartialEq, Eq)]
pub struct CreateOrganization {
    pub super_admin: Address,
}

/// The checks of `create_organization`, in their order. Where all of them
/// pass they give the addresses of the configuration record and of the new
/// organization.
pub open spec fn checks(s: RegistryView, accounts: CreateOrganization, name: String) -> Result<
    (Address, Address),
    StateShiftError,
> {
    match s.super_admin_guard(accounts.super_admin) {
        Err(e) => Err(e),
        Ok(config) => if name_len(name@) > MAX_ORG_NAME_LEN {
            Err(StateShiftError::NameTooLong)
        } else {
            match spec_org_address(s.config[config].org_count) {
                None => Err(StateShiftError::InvalidSeeds),
                Some(organization) => if s.organizations.contains_key(organization) {
                    Err(StateShiftError::AlreadyExists)
                } else if s.config[config].org_count == u64::MAX {
                    Err(StateShiftError::Overflow)
                } else {
                    Ok((config, organization))
                },
            }
        },
    }
}

/// The state after the organization has been registered at `organization`:
/// it carries the counter's value as its id, and the counter has advanced.
pub open spec fn registered(
    s: RegistryView,
    name: String,
    admin: Address,
    config: Address,
    organization: Address,
) -> RegistryView {
    RegistryView {
        config: s.config.insert(config, s.config[config].advanced()),
        organizations: s.organizations.insert(
            organization,
            Organization::created(admin, s.config[config].org_count, name),
        ),
        ..s
    }
}

/// What `create_organization` is to do.
pub open spec fn outcome(s: RegistryView, accounts: CreateOrganization, name: String, admin: Address) -> Outcome {
    match checks(s, accounts, name) {
        Err(e) => Err(e),
        Ok((config, organization)) => Ok(
            (
                registered(s, name, admin, config, organization),
                Event::OrganizationCreated {
                    super_admin: accounts.super_admin,
                    organization,
                    org_id: s.config[config].org_count,
                    admin,
                },
            ),
        ),
    }
}

/// A registration that passes its checks keeps the invariant.
pub proof fn lemma_registered_inv(
    s: RegistryView,
    accounts: CreateOrganization,
    name: String,
    admin: Address,
    config: Address,
    organization: Address,
)
    requires
        s.inv(),
        checks(s, accounts, name) == Ok::<(Address, Address), StateShiftError>((config, organization)),
    ensures
        registered(s, name, admin, config, organization).inv(),
{
    let t = registered(s, name, admin, config, organization);
    assert(t.org_count() == s.org_count() + 1);
    assert forall|x: Address| #[trigger] t.roles.contains_key(x) implies t.role_ok(x) by {
        assert(s.role_ok(x));
    }
    assert forall|x: Address| #[trigger] t.members.contains_key(x) implies t.member_ok(x) by {
        assert(s.member_ok(x));
    }
    assert forall|x: Address| #[trigger] t.organizations.contains_key(x) implies t.org_ok(x) by {
        if x == organization {
            assert forall|r: Address| !t.roles_of(x).contains(r) by {
                if s.roles.contains_key(r) {
                    assert(s.role_ok(r));
                }
            }
            assert(t.roles_of(x) =~= Set::<Address>::empty());
            assert forall|m: Address| !t.members_of(x).contains(m) by {
                if s.members.contains_key(m) {
                    assert(s.member_ok(m));
                    assert(s.role_ok(s.members[m].role));
                }
            }
            assert(t.members_of(x) =~= Set::<Address>::empty());
        } else {
            assert(s.org_ok(x));
        }
    }
}

/// Registers an organization under the next id and advances the counter.
/// Both happen, or neither.
pub fn handler(state: &mut Registry, accounts: &CreateOrganization, name: String, admin: Address) -> (r:
    Result<Event, StateShiftError>)
    ensures
        realizes(old(state)@, final(state)@, r, outcome(old(state)@, *accounts, name, admin)),
{
    state.invariant_holds();
    let config = match state.check_super_admin(&accounts.super_admin) {
        Err(e) => {
            return Err(e);
        },
        Ok(config) => config,
    };
    let org_id = match state.config() {
        Some(counter) => counter.org_count,
        None => {
            return Err(StateShiftError::NotFound);
        },
    };
    let record = match Organization::new(admin, org_id, name) {
        Err(e) => {
            return Err(e);
        },
        Ok(record) => record,
    };
    let organization = match org_address(org_id) {
        None => {
            return Err(StateShiftError::InvalidSeeds);
        },
        Some(organization) => organization,
    };
    if state.organization(&organization).is_some() {
        return Err(StateShiftError::AlreadyExists);
    }
    if org_id == u64::MAX {
        return Err(StateShiftError::Overflow);
    }
    proof {
        lemma_registered_inv(state@, *accounts, name, admin, config, organization);
    }
    let (mut configs, mut organizations, roles, members) = state.take();
    let _ = organizations.create(organization, record);
    let counter = configs.get_mut(&config);
    let _ = counter.allocate_org_id();
    state.put(configs, organizations, roles, members);
    proof {
        assert(state@ == registered(old(state)@, name, admin, config, organization));
    }
    Ok(
        Event::OrganizationCreated {
            super_admin: accounts.super_admin,
            organization,
            org_id,
            admin,
        },
    )
}

} // verus!
