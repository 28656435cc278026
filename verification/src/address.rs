use vstd::prelude::*;
use vstd::bytes::{spec_u64_to_le_bytes, u64_to_le_bytes};
use vstd::utf8::encode_utf8;
use anchor_lang::prelude::Pubkey;
use crate::constants::{CONFIG_SEED, MEMBER_SEED, ORG_SEED, PROGRAM_ID, ROLE_SEED};

verus! {

/// A 32-byte identity or storage key.
#[derive(Clone, Copy, Debug)]
pub struct Address {
    pub bytes: [u8; 32],
}

impl PartialEq for Address {
    /// Two addresses are equal where all their bytes are.
    fn eq(&self, other: &Self) -> (r: bool) {
        let mut i: usize = 0;
        while i < 32
            invariant
                i <= 32,
                forall|j: int| 0 <= j < i ==> self.bytes[j] == other.bytes[j],
            decreases 32 - i,
        {
            if self.bytes[i] != other.bytes[i] {
                return false;
            }
            i += 1;
        }
        assert(self.bytes =~= other.bytes);
        true
    }
}

impl Eq for Address {

}

impl vstd::std_specs::cmp::PartialEqSpecImpl for Address {
    open spec fn obeys_eq_spec() -> bool {
        true
    }

    open spec fn eq_spec(&self, other: &Self) -> bool {
        *self == *other
    }
}

/// What `Pubkey::try_find_program_address` returns for the given seeds and
/// program id: the bytes of the derived address with its bump seed, or
/// nothing where no address can be derived.
pub uninterp spec fn program_address(seeds: Seq<Seq<u8>>, program_id: Seq<u8>) -> Option<(Seq<u8>, u8)>;

/// The seeds as byte sequences.
pub open spec fn seeds_view(seeds: Seq<&[u8]>) -> Seq<Seq<u8>> {
    seeds.map_values(|s: &[u8]| s@)
}

/// Calls `Pubkey::try_find_program_address`, which hashes the seeds, a bump
/// seed and the program id, and looks for the first bump seed that gives an
/// address off the curve. The contract claims only that the result is a
/// function of the seed bytes and the program id.
#[verifier::external_body]
fn try_find_program_address(seeds: &[&[u8]], program_id: &Address) -> (r: Option<(Address, u8)>)
    ensures
        match r {
            Some((a, bump)) => program_address(seeds_view(seeds@), program_id.bytes@) == Some(
                (a.bytes@, bump),
            ),
            None => program_address(seeds_view(seeds@), program_id.bytes@).is_none(),
        },
{
    match Pubkey::try_find_program_address(seeds, &Pubkey::new_from_array(program_id.bytes)) {
        Some((key, bump)) => Some((Address { bytes: key.to_bytes() }, bump)),
        None => None,
    }
}

/// The address made of the given 32 bytes.
pub open spec fn address_of(bytes: Seq<u8>) -> Address {
    choose|a: Address| a.bytes@ == bytes
}

/// Two addresses with the same bytes are the same address.
pub proof fn lemma_address_of(a: Address)
    ensures
        address_of(a.bytes@) == a,
{
    let b = address_of(a.bytes@);
    assert(b.bytes@ == a.bytes@);
    assert(b.bytes =~= a.bytes);
}

/// The address derived from `seeds` under this deployment's program id, where
/// one exists.
pub open spec fn derived(seeds: Seq<Seq<u8>>) -> Option<Address> {
    match program_address(seeds, PROGRAM_ID@) {
        Some((bytes, _)) => Some(address_of(bytes)),
        None => None,
    }
}

/// Seeds of the configuration record: the namespace tag alone.
pub open spec fn config_seeds() -> Seq<Seq<u8>> {
    seq![CONFIG_SEED@]
}

/// Seeds of an organization: the tag, then the counter value in little-endian
/// bytes.
pub open spec fn org_seeds(org_id: u64) -> Seq<Seq<u8>> {
    seq![ORG_SEED@, spec_u64_to_le_bytes(org_id)]
}

/// Seeds of a role: the tag, the organization's address, the name's bytes.
pub open spec fn role_seeds(org: Address, name: Seq<char>) -> Seq<Seq<u8>> {
    seq![ROLE_SEED@, org.bytes@, encode_utf8(name)]
}

/// Seeds of a member binding: the tag, the organization's address, the
/// user's identity.
pub open spec fn member_seeds(org: Address, user: Address) -> Seq<Seq<u8>> {
    seq![MEMBER_SEED@, org.bytes@, user.bytes@]
}

/// The address of the configuration record, where one can be derived.
pub open spec fn spec_config_address() -> Option<Address> {
    derived(config_seeds())
}

/// The address of the organization with the id `org_id`.
pub open spec fn spec_org_address(org_id: u64) -> Option<Address> {
    derived(org_seeds(org_id))
}

/// The address of the role called `name` in the organization at `org`.
pub open spec fn spec_role_address(org: Address, name: Seq<char>) -> Option<Address> {
    derived(role_seeds(org, name))
}

/// The address of the binding of `user` in the organization at `org`.
pub open spec fn spec_member_address(org: Address, user: Address) -> Option<Address> {
    derived(member_seeds(org, user))
}

/// Derives the address that belongs to `seeds`, the first of which is the
/// namespace tag. Equal seeds give equal addresses.
pub fn derive(seeds: &[&[u8]]) -> (r: Option<Address>)
    ensures
        r == derived(seeds_view(seeds@)),
{
    let program_id = Address { bytes: PROGRAM_ID };
    match try_find_program_address(seeds, &program_id) {
        Some((a, _)) => {
            proof {
                lemma_address_of(a);
            }
            Some(a)
        },
        None => None,
    }
}

/// The address of the configuration record.
pub fn config_address() -> (r: Option<Address>)
    ensures
        r == spec_config_address(),
{
    let tag = CONFIG_SEED;
    let mut seeds: Vec<&[u8]> = Vec::new();
    seeds.push(tag.as_slice());
    assert(seeds_view(seeds@) =~= config_seeds());
    derive(seeds.as_slice())
}

/// The address of the organization created when the counter stood at
/// `org_id`.
pub fn org_address(org_id: u64) -> (r: Option<Address>)
    ensures
        r == spec_org_address(org_id),
{
    let tag = ORG_SEED;
    let id = u64_to_le_bytes(org_id);
    let mut seeds: Vec<&[u8]> = Vec::new();
    seeds.push(tag.as_slice());
    seeds.push(id.as_slice());
    assert(seeds_view(seeds@) =~= org_seeds(org_id));
    derive(seeds.as_slice())
}

/// The address of the role called `name` in the organization at `org`.
pub fn role_address(org: &Address, name: &str) -> (r: Option<Address>)
    ensures
        r == spec_role_address(*org, name@),
{
    let tag = ROLE_SEED;
    let mut seeds: Vec<&[u8]> = Vec::new();
    seeds.push(tag.as_slice());
    seeds.push(org.bytes.as_slice());
    seeds.push(name.as_bytes());
    assert(seeds_view(seeds@) =~= role_seeds(*org, name@));
    derive(seeds.as_slice())
}

/// The address of the binding of `user` in the organization at `org`.
pub fn member_address(org: &Address, user: &Address) -> (r: Option<Address>)
    ensures
        r == spec_member_address(*org, *user),
{
    let tag = MEMBER_SEED;
    let mut seeds: Vec<&[u8]> = Vec::new();
    seeds.push(tag.as_slice());
    seeds.push(org.bytes.as_slice());
    seeds.push(user.bytes.as_slice());
    assert(seeds_view(seeds@) =~= member_seeds(*org, *user));
    derive(seeds.as_slice())
}

} // verus!
