use vstd::prelude::*;
use crate::address::Address;
use crate::error::StateShiftError;
use crate::event::{realizes, Event, Outcome};
use crate::registry::{Registry, RegistryView};

verus! {

/// The accounts of `transfer_org_admin`: the caller, who is the admin so far,
/// and the organization.
#[derive(Clone, Copy, Debug, PartialEq, Eq)]
pub struct TransferOrgAdmin {
    pub admin: Address,
    pub organization: Address,
}

/// The state after the organization has been handed to `new_admin`. Roles
/// and bindings refer to the organization, not to its admin, and stay as they
/// are.
pub open spec fn transferred(s: RegistryView, accounts: TransferOrgAdmin, new_admin: Address) -> RegistryView {
    RegistryView {
        organizations: s.organizations.insert(
            accounts.organization,
            s.organizations[accounts.organization].with_admin(new_admin),
        ),
        ..s
    }
}

/// What `transfer_org_admin` is to do: behind the admin guard, overwrite the
/// admin.
pub open spec fn outcome(s: RegistryView, accounts: TransferOrgAdmin, new_admin: Address) -> Outcome {
    match s.admin_guard(accounts.organization, accounts.admin) {
        Err(e) => Err(e),
        Ok(()) => Ok(
            (
                transferred(s, accounts, new_admin),
                Event::AdminTransferred {
                    organization: accounts.organization,
                    old_admin: accounts.admin,
                    new_admin,
                },
            ),
        ),
    }
}

/// A transfer keeps the invariant.
pub proof fn lemma_transferred_inv(s: RegistryView, accounts: TransferOrgAdmin, new_admin: Address)
    requires
        s.inv(),
        s.organizations.contains_key(accounts.organization),
    ensures
        transferred(s, accounts, new_admin).inv(),
{
    let t = transferred(s, accounts, new_admin);
    assert forall|x: Address| #[trigger] t.organizations.contains_key(x) implies t.org_ok(x) by {
        assert(s.organizations.contains_key(x));
        assert(s.org_ok(x));
    }
    assert forall|x: Address| #[trigger] t.roles.contains_key(x) implies t.role_ok(x) by {
        assert(s.role_ok(x));
    }
    assert forall|x: Address| #[trigger] t.members.contains_key(x) implies t.member_ok(x) by {
        assert(s.member_ok(x));
    }
}

/// Hands the organization to a new admin.
pub fn handler(state: &mut Registry, accounts: &TransferOrgAdmin, new_admin: Address) -> (r: Result<
    Event,
    StateShiftError,
>)
    ensures
        realizes(old(state)@, final(state)@, r, outcome(old(state)@, *accounts, new_admin)),
{
    state.invariant_holds();
    if let Err(e) = state.check_admin(&accounts.organization, &accounts.admin) {
        return Err(e);
    }
    proof {
        lemma_transferred_inv(state@, *accounts, new_admin);
    }
    let (configs, mut organizations, roles, members) = state.take();
    let org = organizations.get_mut(&accounts.organization);
    let old_admin = org.transfer_admin(new_admin);
    state.put(configs, organizations, roles, members);
    proof {
        assert(state@ == transferred(old(state)@, *accounts, new_admin));
    }
    Ok(Event::AdminTransferred { organization: accounts.organization, old_admin, new_admin })
}

} // verus!
