use vstd::prelude::*;
use crate::address::{
    config_address, spec_config_address, spec_member_address, spec_org_address,
    spec_role_address, Address,
};
use crate::constants::{MAX_ORG_NAME_LEN, MAX_ROLES_PER_ORG, MAX_ROLE_NAME_LEN};
use crate::error::StateShiftError;
use crate::state::config::Config;
use crate::state::member_role::MemberRole;
use crate::names::name_len;
use crate::state::organization::Organization;
use crate::state::role::Role;
use crate::store::EntityStore;

verus! {

/// The keys of `m` whose record satisfies `p`.
pub open spec fn keys_where<V>(m: Map<Address, V>, p: spec_fn(V) -> bool) -> Set<Address> {
    Set::new(|k: Address| m.contains_key(k) && p(m[k]))
}

/// A role of the organization at `org`.
pub open spec fn role_in(org: Address) -> spec_fn(Role) -> bool {
    |r: Role| r.org == org
}

/// An active binding in the organization at `org`.
pub open spec fn member_in(org: Address) -> spec_fn(MemberRole) -> bool {
    |m: MemberRole| m.org == org && m.is_active
}

/// An active binding to the role at `role`.
pub open spec fn member_with(role: Address) -> spec_fn(MemberRole) -> bool {
    |m: MemberRole| m.role == role && m.is_active
}

/// The selected keys of a finite map are finitely many.
pub proof fn lemma_keys_where_finite<V>(m: Map<Address, V>, p: spec_fn(V) -> bool)
    requires
        m.dom().finite(),
    ensures
        keys_where(m, p).finite(),
        keys_where(m, p).len() <= m.dom().len(),
{
    assert(keys_where(m, p).subset_of(m.dom()));
    vstd::set_lib::lemma_len_subset(keys_where(m, p), m.dom());
}

/// A record stored at a fresh key is selected, or not, by itself: the other
/// selected keys stay.
pub proof fn lemma_keys_where_create<V>(m: Map<Address, V>, k: Address, v: V, p: spec_fn(V) -> bool)
    requires
        m.dom().finite(),
        !m.contains_key(k),
    ensures
        keys_where(m.insert(k, v), p) == if p(v) {
            keys_where(m, p).insert(k)
        } else {
            keys_where(m, p)
        },
        keys_where(m.insert(k, v), p).len() == keys_where(m, p).len() + if p(v) {
            1int
        } else {
            0int
        },
{
    lemma_keys_where_finite(m, p);
    if p(v) {
        assert(keys_where(m.insert(k, v), p) =~= keys_where(m, p).insert(k));
    } else {
        assert(keys_where(m.insert(k, v), p) =~= keys_where(m, p));
    }
}

/// Removing a record removes its key from the selection, and no other.
pub proof fn lemma_keys_where_delete<V>(m: Map<Address, V>, k: Address, p: spec_fn(V) -> bool)
    requires
        m.dom().finite(),
        m.contains_key(k),
    ensures
        keys_where(m.remove(k), p) == keys_where(m, p).remove(k),
        keys_where(m.remove(k), p).len() == keys_where(m, p).len() - if p(m[k]) {
            1int
        } else {
            0int
        },
{
    lemma_keys_where_finite(m, p);
    assert(keys_where(m.remove(k), p) =~= keys_where(m, p).remove(k));
}

/// Overwriting a record with one that `p` judges alike leaves the selection
/// as it was.
pub proof fn lemma_keys_where_update<V>(m: Map<Address, V>, k: Address, v: V, p: spec_fn(V) -> bool)
    requires
        m.contains_key(k),
        p(v) == p(m[k]),
    ensures
        keys_where(m.insert(k, v), p) == keys_where(m, p),
{
    assert(keys_where(m.insert(k, v), p) =~= keys_where(m, p));
}

/// The records of the whole system, by address.
pub struct RegistryView {
    pub config: Map<Address, Config>,
    pub organizations: Map<Address, Organization>,
    pub roles: Map<Address, Role>,
    pub members: Map<Address, MemberRole>,
}

impl RegistryView {
    /// The state before `initialize`.
    pub open spec fn empty() -> RegistryView {
        RegistryView {
            config: Map::empty(),
            organizations: Map::empty(),
            roles: Map::empty(),
            members: Map::empty(),
        }
    }

    /// The addresses of the open roles of the organization at `org`.
    pub open spec fn roles_of(self, org: Address) -> Set<Address> {
        keys_where(self.roles, role_in(org))
    }

    /// The addresses of the active bindings in the organization at `org`.
    pub open spec fn members_of(self, org: Address) -> Set<Address> {
        keys_where(self.members, member_in(org))
    }

    /// The addresses of the active bindings to the role at `role`.
    pub open spec fn holders_of(self, role: Address) -> Set<Address> {
        keys_where(self.members, member_with(role))
    }

    /// The number of organizations registered so far: the counter of the
    /// configuration record, and zero before there is one.
    pub open spec fn org_count(self) -> int {
        match spec_config_address() {
            Some(c) => if self.config.contains_key(c) {
                self.config[c].org_count as int
            } else {
                0
            },
            None => 0,
        }
    }

    /// The guard of the operations reserved for the super admin: the
    /// configuration record exists and names the caller. Where it passes it
    /// gives the address of the configuration record.
    pub open spec fn super_admin_guard(self, caller: Address) -> Result<Address, StateShiftError> {
        match spec_config_address() {
            None => Err(StateShiftError::InvalidSeeds),
            Some(c) => if !self.config.contains_key(c) {
                Err(StateShiftError::NotFound)
            } else if let Err(e) = self.config[c].super_admin_guard(caller) {
                Err(e)
            } else {
                Ok(c)
            },
        }
    }

    /// The guard of the operations reserved for an organization's admin: the
    /// organization exists, the caller is its admin, and it is active.
    pub open spec fn admin_guard(self, org: Address, caller: Address) -> Result<(), StateShiftError> {
        if !self.organizations.contains_key(org) {
            Err(StateShiftError::NotFound)
        } else {
            self.organizations[org].admin_guard(caller)
        }
    }

    /// The role exists and belongs to the organization at `org`.
    pub open spec fn role_guard(self, org: Address, role: Address) -> Result<(), StateShiftError> {
        if !self.roles.contains_key(role) {
            Err(StateShiftError::NotFound)
        } else {
            self.roles[role].org_guard(org)
        }
    }

    /// What holds of the organization at `o`: it sits at the address derived
    /// from its id, the id was handed out by the counter, the name and the
    /// role count are within their limits, and the two counters count the
    /// open roles and the active members.
    pub open spec fn org_ok(self, o: Address) -> bool {
        let org = self.organizations[o];
        &&& spec_org_address(org.org_id) == Some(o)
        &&& org.org_id < self.org_count()
        &&& name_len(org.name@) <= MAX_ORG_NAME_LEN
        &&& org.role_count <= MAX_ROLES_PER_ORG
        &&& org.role_count == self.roles_of(o).len()
        &&& org.member_count == self.members_of(o).len()
    }

    /// What holds of the role at `r`: it sits at the address derived from its
    /// organization and name, the organization exists, the mask is not zero,
    /// and the counter counts the active members that hold the role.
    pub open spec fn role_ok(self, r: Address) -> bool {
        let role = self.roles[r];
        &&& spec_role_address(role.org, role.name@) == Some(r)
        &&& self.organizations.contains_key(role.org)
        &&& name_len(role.name@) <= MAX_ROLE_NAME_LEN
        &&& role.permissions != 0
        &&& role.member_count == self.holders_of(r).len()
    }

    /// What holds of the binding at `m`: it sits at the address derived from
    /// its organization and user, it is active, and its role exists and
    /// belongs to the same organization.
    pub open spec fn member_ok(self, m: Address) -> bool {
        let member = self.members[m];
        &&& spec_member_address(member.org, member.user) == Some(m)
        &&& member.is_active
        &&& self.roles.contains_key(member.role)
        &&& self.roles[member.role].org == member.org
    }

    /// The invariant of the system. It holds before `initialize`, and every
    /// operation keeps it.
    pub open spec fn inv(self) -> bool {
        &&& self.config.dom().finite()
        &&& self.organizations.dom().finite()
        &&& self.roles.dom().finite()
        &&& self.members.dom().finite()
        &&& forall|c: Address| #[trigger]
            self.config.contains_key(c) ==> spec_config_address() == Some(c)
        &&& forall|o: Address| #[trigger] self.organizations.contains_key(o) ==> self.org_ok(o)
        &&& forall|r: Address| #[trigger] self.roles.contains_key(r) ==> self.role_ok(r)
        &&& forall|m: Address| #[trigger] self.members.contains_key(m) ==> self.member_ok(m)
    }
}

/// The records of the whole system, each kind in a store of its own.
pub struct Registry {
    config: EntityStore<Config>,
    organizations: EntityStore<Organization>,
    roles: EntityStore<Role>,
    members: EntityStore<MemberRole>,
}

impl View for Registry {
    type V = RegistryView;

    closed spec fn view(&self) -> RegistryView {
        RegistryView {
            config: self.config@,
            organizations: self.organizations@,
            roles: self.roles@,
            members: self.members@,
        }
    }
}

impl Registry {
    /// The stores are well formed and the records keep the invariant. This
    /// holds of every registry: the fields cannot be reached from outside,
    /// and every operation is proved to keep it.
    #[verifier::type_invariant]
    spec fn wf(&self) -> bool {
        &&& self.config.wf()
        &&& self.organizations.wf()
        &&& self.roles.wf()
        &&& self.members.wf()
        &&& self@.inv()
    }

    /// Every registry keeps the invariant. The call costs nothing at run
    /// time: it is there for what it states.
    pub fn invariant_holds(&self)
        ensures
            self@.inv(),
    {
        proof {
            use_type_invariant(self);
        }
    }

    /// Takes the four stores out and leaves a registry without records.
    pub(crate) fn take(&mut self) -> (parts: (
        EntityStore<Config>,
        EntityStore<Organization>,
        EntityStore<Role>,
        EntityStore<MemberRole>,
    ))
        ensures
            parts.0.wf() && parts.1.wf() && parts.2.wf() && parts.3.wf(),
            old(self)@ == (RegistryView {
                config: parts.0@,
                organizations: parts.1@,
                roles: parts.2@,
                members: parts.3@,
            }),
            final(self)@ == RegistryView::empty(),
    {
        proof {
            use_type_invariant(&*self);
        }
        let mut taken = Registry::new();
        std::mem::swap(self, &mut taken);
        let Registry { config, organizations, roles, members } = taken;
        (config, organizations, roles, members)
    }

    /// Puts four stores in the place of the ones held. Their records must
    /// keep the invariant.
    pub(crate) fn put(
        &mut self,
        config: EntityStore<Config>,
        organizations: EntityStore<Organization>,
        roles: EntityStore<Role>,
        members: EntityStore<MemberRole>,
    )
        requires
            config.wf() && organizations.wf() && roles.wf() && members.wf(),
            (RegistryView {
                config: config@,
                organizations: organizations@,
                roles: roles@,
                members: members@,
            }).inv(),
        ensures
            final(self)@ == (RegistryView {
                config: config@,
                organizations: organizations@,
                roles: roles@,
                members: members@,
            }),
    {
        *self = Registry { config, organizations, roles, members };
    }

    /// A registry without any record.
    pub fn new() -> (s: Registry)
        ensures
            s@ == RegistryView::empty(),
    {
        Registry {
            config: EntityStore::new(),
            organizations: EntityStore::new(),
            roles: EntityStore::new(),
            members: EntityStore::new(),
        }
    }

    /// The configuration record, once the system is initialized.
    pub fn config(&self) -> (r: Option<&Config>)
        ensures
            match r {
                Some(c) => spec_config_address() matches Some(a) && self@.config.contains_key(a)
                    && *c == self@.config[a],
                None => forall|a: Address| !self@.config.contains_key(a),
            },
    {
        proof {
            use_type_invariant(self);
        }
        match config_address() {
            Some(a) => self.config.get(&a),
            None => None,
        }
    }

    /// The organization at `at`, if there is one.
    pub fn organization(&self, at: &Address) -> (r: Option<&Organization>)
        ensures
            match r {
                Some(o) => self@.organizations.contains_key(*at) && *o == self@.organizations[*at],
                None => !self@.organizations.contains_key(*at),
            },
    {
        proof {
            use_type_invariant(self);
        }
        self.organizations.get(at)
    }

    /// The role at `at`, if there is one.
    pub fn role(&self, at: &Address) -> (r: Option<&Role>)
        ensures
            match r {
                Some(o) => self@.roles.contains_key(*at) && *o == self@.roles[*at],
                None => !self@.roles.contains_key(*at),
            },
    {
        proof {
            use_type_invariant(self);
        }
        self.roles.get(at)
    }

    /// Passes where the system is initialized and `caller` is its super
    /// admin, and gives the address of the configuration record.
    pub fn check_super_admin(&self, caller: &Address) -> (r: Result<Address, StateShiftError>)
        ensures
            r == self@.super_admin_guard(*caller),
    {
        proof {
            use_type_invariant(self);
        }
        let at = match config_address() {
            None => {
                return Err(StateShiftError::InvalidSeeds);
            },
            Some(at) => at,
        };
        match self.config.get(&at) {
            None => Err(StateShiftError::NotFound),
            Some(config) => match config.check_super_admin(caller) {
                Err(e) => Err(e),
                Ok(()) => Ok(at),
            },
        }
    }

    /// Passes where the organization at `org` exists, `caller` is its admin,
    /// and it is active.
    pub fn check_admin(&self, org: &Address, caller: &Address) -> (r: Result<(), StateShiftError>)
        ensures
            r == self@.admin_guard(*org, *caller),
    {
        proof {
            use_type_invariant(self);
        }
        match self.organizations.get(org) {
            None => Err(StateShiftError::NotFound),
            Some(o) => o.check_admin(caller),
        }
    }

    /// Passes where the role at `role` exists and belongs to the organization
    /// at `org`.
    pub fn check_role(&self, org: &Address, role: &Address) -> (r: Result<(), StateShiftError>)
        ensures
            r == self@.role_guard(*org, *role),
    {
        proof {
            use_type_invariant(self);
        }
        match self.roles.get(role) {
            None => Err(StateShiftError::NotFound),
            Some(found) => found.check_org(org),
        }
    }

    /// The member binding at `at`, if there is one.
    pub fn member(&self, at: &Address) -> (r: Option<&MemberRole>)
        ensures
            match r {
                Some(o) => self@.members.contains_key(*at) && *o == self@.members[*at],
                None => !self@.members.contains_key(*at),
            },
    {
        proof {
            use_type_invariant(self);
        }
        self.members.get(at)
    }
}

} // verus!
