use crate::variables::MANAGER_PUBKEY_BYTES;
use vstd::prelude::*;
use vstd::std_specs::cmp::PartialEqSpecImpl;

verus! {

/// The address of an account: 32 bytes.
#[derive(Clone, Copy, Debug, Eq)]
pub struct Pubkey {
    pub bytes: [u8; 32],
}

impl View for Pubkey {
    type V = Seq<u8>;

    open spec fn view(&self) -> Seq<u8> {
        self.bytes@
    }
}

impl PartialEq for Pubkey {
    /// Two addresses are equal when all of their bytes are.
    fn eq(&self, other: &Pubkey) -> (r: bool) {
        let mut i: usize = 0;
        while i < 32
            invariant
                i <= 32,
                forall|j: int| 0 <= j < i ==> self.bytes[j] == other.bytes[j],
            decreases 32 - i,
        {
            if self.bytes[i] != other.bytes[i] {
                return false;
            }
            i = i + 1;
        }
        assert(self.bytes =~= other.bytes);
        true
    }
}

impl PartialEqSpecImpl for Pubkey {
    open spec fn obeys_eq_spec() -> bool {
        true
    }

    open spec fn eq_spec(&self, other: &Pubkey) -> bool {
        *self == *other
    }
}

impl Pubkey {
    /// The address made of the given bytes.
    pub fn new_from_array(bytes: [u8; 32]) -> (r: Pubkey)
        ensures
            r.bytes == bytes,
    {
        Pubkey { bytes }
    }

    /// The bytes of the address.
    pub fn to_bytes(&self) -> (r: [u8; 32])
        ensures
            r == self.bytes,
    {
        self.bytes
    }
}

/// Two addresses with the same bytes are the same address.
pub proof fn lemma_pubkey_view_injective(a: Pubkey, b: Pubkey)
    ensures
        (a@ == b@) <==> (a == b),
{
    if a@ == b@ {
        assert(a.bytes =~= b.bytes);
    }
}

/// The manager's address.
pub open spec fn spec_manager_pubkey() -> Pubkey {
    Pubkey { bytes: MANAGER_PUBKEY_BYTES }
}

/// The manager's address.
#[verifier::when_used_as_spec(spec_manager_pubkey)]
pub fn manager_pubkey() -> (r: Pubkey)
    ensures
        r == spec_manager_pubkey(),
{
    Pubkey { bytes: MANAGER_PUBKEY_BYTES }
}

/// The program address and bump seed that belong to a list of seeds under a
/// program, or `None` where the seeds have none.
pub uninterp spec fn program_address(seeds: Seq<Seq<u8>>, program_id: Seq<u8>) -> Option<
    (Seq<u8>, u8),
>;

/// The seeds as sequences of bytes.
pub open spec fn seeds_view(seeds: Seq<Vec<u8>>) -> Seq<Seq<u8>> {
    seeds.map_values(|s: Vec<u8>| s@)
}

/// The address part of a derivation's result, by its bytes.
pub open spec fn address_view(found: Option<(Pubkey, u8)>) -> Option<(Seq<u8>, u8)> {
    match found {
        Some((address, bump)) => Some((address@, bump)),
        None => None,
    }
}

/// Calls `Pubkey::try_find_program_address` of `solana_program`. The result
/// depends on the seeds and the program's address alone, so it is the one
/// that `program_address` names; nothing else is claimed of it. The call
/// returns `None` rather than panic where no address can be found.
#[verifier::external_body]
pub(crate) fn try_find_program_address(seeds: &Vec<Vec<u8>>, program_id: &Pubkey) -> (found: Option<
    (Pubkey, u8),
>)
    ensures
        address_view(found) == program_address(seeds_view(seeds@), program_id@),
{
    let slices: Vec<&[u8]> = seeds.iter().map(|s| s.as_slice()).collect();
    let id = anchor_lang::solana_program::pubkey::Pubkey::new_from_array(program_id.bytes);
    match anchor_lang::solana_program::pubkey::Pubkey::try_find_program_address(&slices, &id) {
        Some((address, bump)) => Some((Pubkey { bytes: address.to_bytes() }, bump)),
        None => None,
    }
}

/// The address with the given bytes.
pub open spec fn pubkey_with_bytes(bytes: Seq<u8>) -> Pubkey {
    choose|key: Pubkey| key@ == bytes
}

/// An address is the one with its bytes.
pub proof fn lemma_pubkey_with_bytes(key: Pubkey)
    ensures
        pubkey_with_bytes(key@) == key,
{
    lemma_pubkey_view_injective(pubkey_with_bytes(key@), key);
}

/// The program address that belongs to a list of seeds under a program, or
/// `None` where the seeds have none.
pub open spec fn derived_address(seeds: Seq<Seq<u8>>, program_id: Pubkey) -> Option<Pubkey> {
    match program_address(seeds, program_id@) {
        Some((bytes, _)) => Some(pubkey_with_bytes(bytes)),
        None => None,
    }
}

/// Derives the program address of the seeds.
pub fn find_address(seeds: &Vec<Vec<u8>>, program_id: &Pubkey) -> (found: Option<Pubkey>)
    ensures
        found == derived_address(seeds_view(seeds@), *program_id),
{
    match try_find_program_address(seeds, program_id) {
        Some((address, _)) => {
            proof {
                lemma_pubkey_with_bytes(address);
            }
            Some(address)
        },
        None => None,
    }
}

} // verus!
