//! Account addresses and their derivation from seeds.

use crate::error::Error;
use anchor_lang::solana_program::pubkey::Pubkey;
use vstd::prelude::*;

verus! {

/// The location of an account: 32 bytes.
#[derive(Clone, Copy, Debug)]
pub struct Address {
    pub bytes: [u8; 32],
}

impl View for Address {
    type V = Seq<u8>;

    open spec fn view(&self) -> Seq<u8> {
        self.bytes@
    }
}

impl PartialEq for Address {
    fn eq(&self, other: &Address) -> (r: bool) {
        let mut i: usize = 0;
        while i < 32
            invariant
                i <= 32,
                forall|j: int| 0 <= j < i ==> self.bytes[j] == other.bytes[j],
            decreases 32 - i,
        {
            if self.bytes[i] != other.bytes[i] {
                return false;
            }
            i += 1;
        }
        assert(self.bytes =~= other.bytes);
        true
    }
}

impl Eq for Address {

}

impl vstd::std_specs::cmp::PartialEqSpecImpl for Address {
    open spec fn obeys_eq_spec() -> bool {
        true
    }

    open spec fn eq_spec(&self, other: &Address) -> bool {
        self@ == other@
    }
}

impl Address {
    /// The address made of the given bytes.
    pub fn new(bytes: [u8; 32]) -> (address: Address)
        ensures
            address.bytes == bytes,
            address@ == bytes@,
    {
        Address { bytes }
    }

    /// The bytes of the address as a seed.
    pub fn to_seed(&self) -> (seed: Vec<u8>)
        ensures
            seed@ == self@,
    {
        let mut seed: Vec<u8> = Vec::new();
        let mut i: usize = 0;
        while i < 32
            invariant
                i <= 32,
                seed@ == self@.subrange(0, i as int),
            decreases 32 - i,
        {
            seed.push(self.bytes[i]);
            assert(self@.subrange(0, i + 1) == self@.subrange(0, i as int).push(self@[i as int]));
            i += 1;
        }
        assert(self@.subrange(0, 32) == self@);
        seed
    }
}

/// Two addresses are the same value exactly when their bytes are the same.
pub proof fn lemma_address_by_bytes(a: Address, b: Address)
    ensures
        (a == b) <==> (a@ == b@),
{
    if a@ == b@ {
        assert(a.bytes =~= b.bytes);
    }
}

/// The bytes of each seed of a list.
pub open spec fn seeds_view(seeds: Seq<Vec<u8>>) -> Seq<Seq<u8>> {
    seeds.map_values(|seed: Vec<u8>| seed@)
}

/// The address and bump seed that the runtime's derivation rule gives for
/// `seeds` under the program `program_id`, or `None` where it gives none.
pub uninterp spec fn program_address(seeds: Seq<Seq<u8>>, program_id: Seq<u8>) -> Option<
    (Seq<u8>, u8),
>;

/// Calls `Pubkey::try_find_program_address`, which searches the bump seeds
/// from 255 downwards for the first one that, appended to `seeds`, hashes
/// with the program id to a value off the ed25519 curve. The search reads
/// nothing but its arguments, so its answer is named by `program_address`.
#[verifier::external_body]
fn try_find_program_address(seeds: &Vec<Vec<u8>>, program_id: &Address) -> (found: Option<
    (Address, u8),
>)
    ensures
        match found {
            Some((address, bump)) => program_address(seeds_view(seeds@), program_id@) == Some(
                (address@, bump),
            ),
            None => program_address(seeds_view(seeds@), program_id@) is None,
        },
{
    let parts: Vec<&[u8]> = seeds.iter().map(|seed| seed.as_slice()).collect();
    Pubkey::try_find_program_address(&parts, &Pubkey::new_from_array(program_id.bytes))
        .map(|(key, bump)| (Address { bytes: key.to_bytes() }, bump))
}

/// Whether `derived` is what deriving from `seeds` under `program_id` gives:
/// the address and bump seed of the derivation rule, or `NoViableBump` where
/// the rule gives none.
pub open spec fn is_derivation(
    seeds: Seq<Seq<u8>>,
    program_id: Seq<u8>,
    derived: Result<(Address, u8), Error>,
) -> bool {
    match derived {
        Ok((address, bump)) => program_address(seeds, program_id) == Some((address@, bump)),
        Err(e) => e == Error::NoViableBump && program_address(seeds, program_id) is None,
    }
}

/// Derives the address for `seeds` under `program_id`, with the bump seed that
/// makes it an address no private key signs for.
///
/// Fails with `NoViableBump` exactly when the derivation rule gives no
/// address for these seeds.
pub fn find_program_address(seeds: &Vec<Vec<u8>>, program_id: &Address) -> (derived: Result<
    (Address, u8),
    Error,
>)
    ensures
        is_derivation(seeds_view(seeds@), program_id@, derived),
{
    match try_find_program_address(seeds, program_id) {
        Some(found) => Ok(found),
        None => Err(Error::NoViableBump),
    }
}

/// Derivation is deterministic: two derivations from the same seeds under
/// the same program give the same address and the same bump seed, or fail
/// alike.
pub proof fn lemma_derivation_deterministic(
    seeds: Seq<Seq<u8>>,
    program_id: Seq<u8>,
    first: Result<(Address, u8), Error>,
    second: Result<(Address, u8), Error>,
)
    requires
        is_derivation(seeds, program_id, first),
        is_derivation(seeds, program_id, second),
    ensures
        first == second,
{
    if let Ok((a, _)) = first {
        if let Ok((b, _)) = second {
            lemma_address_by_bytes(a, b);
        }
    }
}

} // verus!
