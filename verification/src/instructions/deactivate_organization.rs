use vstd::prelude::*;
use crate::address::Address;
use crate::error::StateShiftError;
use crate::event::{realizes, Event, Outcome};
use crate::registry::{Registry, RegistryView};

verus! {

/// The accounts of `deactivate_organization`: the caller and the
/// organization.
#[derive(Clone, Copy, Debug, PartialEq, Eq)]
pub struct DeactivateOrganization {
    pub super_admin: Address,
    pub organization: Address,
}

/// The checks of `deactivate_organization`, in their order. The guard is the
/// super admin's, not the one of the organization's admin.
pub open spec fn checks(s: RegistryView, accounts: DeactivateOrganization) -> Result<(), StateShiftError> {
    if let Err(e) = s.super_admin_guard(accounts.super_admin) {
        Err(e)
    } else if !s.organizations.contains_key(accounts.organization) {
        Err(StateShiftError::NotFound)
    } else if !s.organizations[accounts.organization].is_active {
        Err(StateShiftError::OrgNotActive)
    } else {
        Ok(())
    }
}

/// The state after the organization has been deactivated. The record stays.
pub open spec fn deactivated(s: RegistryView, accounts: DeactivateOrganization) -> RegistryView {
    RegistryView {
        organizations: s.organizations.insert(
            accounts.organization,
            s.organizations[accounts.organization].deactivated(),
        ),
        ..s
    }
}

/// What `deactivate_organization` is to do.
pub open spec fn outcome(s: RegistryView, accounts: DeactivateOrganization) -> Outcome {
    match checks(s, accounts) {
        Err(e) => Err(e),
        Ok(()) => Ok(
            (
                deactivated(s, accounts),
                Event::OrganizationDeactivated {
                    super_admin: accounts.super_admin,
                    organization: accounts.organization,
                    org_id: s.organizations[accounts.organization].org_id,
                },
            ),
        ),
    }
}

/// A deactivation keeps the invariant.
pub proof fn lemma_deactivated_inv(s: RegistryView, accounts: DeactivateOrganization)
    requires
        s.inv(),
        s.organizations.contains_key(accounts.organization),
    ensures
        deactivated(s, accounts).inv(),
{
    let t = deactivated(s, accounts);
    assert forall|x: Address| #[trigger] t.organizations.contains_key(x) implies t.org_ok(x) by {
        assert(s.organizations.contains_key(x));
        assert(s.org_ok(x));
    }
    assert forall|x: Address| #[trigger] t.roles.contains_key(x) implies t.role_ok(x) by {
        assert(s.role_ok(x));
    }
    assert forall|x: Address| #[trigger] t.members.contains_key(x) implies t.member_ok(x) by {
        assert(s.member_ok(x));
    }
}

/// Deactivates the organization. An organization that is inactive already
/// is reported, not passed over.
pub fn handler(state: &mut Registry, accounts: &DeactivateOrganization) -> (r: Result<
    Event,
    StateShiftError,
>)
    ensures
        realizes(old(state)@, final(state)@, r, outcome(old(state)@, *accounts)),
{
    state.invariant_holds();
    if let Err(e) = state.check_super_admin(&accounts.super_admin) {
        return Err(e);
    }
    let active = match state.organization(&accounts.organization) {
        None => {
            return Err(StateShiftError::NotFound);
        },
        Some(org) => org.is_active,
    };
    if !active {
        return Err(StateShiftError::OrgNotActive);
    }
    proof {
        lemma_deactivated_inv(state@, *accounts);
    }
    let (configs, mut organizations, roles, members) = state.take();
    let org = organizations.get_mut(&accounts.organization);
    let org_id = org.org_id;
    let _ = org.deactivate();
    state.put(configs, organizations, roles, members);
    proof {
        assert(state@ == deactivated(old(state)@, *accounts));
    }
    Ok(
        Event::OrganizationDeactivated {
            super_admin: accounts.super_admin,
            organization: accounts.organization,
            org_id,
        },
    )
}

} // verus!
