use vstd::prelude::*;
use crate::address::{config_address, spec_config_address, Address};
use crate::error::StateShiftError;
use crate::event::{realizes, Event, Outcome};
use crate::registry::{Registry, RegistryView};
use crate::state::config::Config;

verus! {

/// The accounts of `initialize`: the caller, who becomes the super admin.
#[derive(Clone, Copy, Debug, PartialEq, Eq)]
pub struct Initialize {
    pub super_admin: Address,
}

/// The state after the configuration record has been written at `config`.
pub open spec fn initialized(s: RegistryView, accounts: Initialize, config: Address) -> RegistryView {
    RegistryView { config: s.config.insert(config, Config::initial(accounts.super_admin)), ..s }
}

/// What `initialize` is to do: write the configuration record with the
/// caller as super admin and a counter of zero, unless it exists.
pub open spec fn outcome(s: RegistryView, accounts: Initialize) -> Outcome {
    match spec_config_address() {
        None => Err(StateShiftError::InvalidSeeds),
        Some(config) => if s.config.contains_key(config) {
            Err(StateShiftError::AlreadyInitialized)
        } else {
            Ok(
                (
                    initialized(s, accounts, config),
                    Event::Initialized { super_admin: accounts.super_admin, config },
                ),
            )
        },
    }
}

/// Initializing keeps the invariant.
pub proof fn lemma_initialized_inv(s: RegistryView, accounts: Initialize, config: Address)
    requires
        s.inv(),
        spec_config_address() == Some(config),
        !s.config.contains_key(config),
    ensures
        initialized(s, accounts, config).inv(),
{
    let t = initialized(s, accounts, config);
    assert forall|x: Address| #[trigger] t.organizations.contains_key(x) implies t.org_ok(x) by {
        assert(s.org_ok(x));
    }
    assert forall|x: Address| #[trigger] t.roles.contains_key(x) implies t.role_ok(x) by {
        assert(s.role_ok(x));
    }
    assert forall|x: Address| #[trigger] t.members.contains_key(x) implies t.member_ok(x) by {
        assert(s.member_ok(x));
    }
}

/// Creates the configuration record. It can be created once.
pub fn handler(state: &mut Registry, accounts: &Initialize) -> (r: Result<Event, StateShiftError>)
    ensures
        realizes(old(state)@, final(state)@, r, outcome(old(state)@, *accounts)),
{
    state.invariant_holds();
    let config = match config_address() {
        None => {
            return Err(StateShiftError::InvalidSeeds);
        },
        Some(config) => config,
    };
    if state.config().is_some() {
        return Err(StateShiftError::AlreadyInitialized);
    }
    proof {
        lemma_initialized_inv(state@, *accounts, config);
    }
    let (mut configs, organizations, roles, members) = state.take();
    let _ = configs.create(config, Config::new(accounts.super_admin));
    state.put(configs, organizations, roles, members);
    proof {
        assert(state@ == initialized(old(state)@, *accounts, config));
    }
    Ok(Event::Initialized { super_admin: accounts.super_admin, config })
}

} // verus!
