//! The delegated authority: the identity that signs the program's calls
//! into the token and metadata programs.
//!
//! The authority has no private key. It is the address derived from a fixed
//! tag, and the program signs for it by presenting the tag and the bump seed
//! of the derivation with each call.

use crate::address::{find_program_address, program_address, seeds_view, Address};
use crate::error::Error;
use vstd::prelude::*;

verus! {

/// The seed of the delegated authority: the bytes of `auth`.
pub const AUTHORITY_TAG: [u8; 4] = [97, 117, 116, 104];

/// The seeds that the delegated authority is derived from.
pub open spec fn authority_seeds() -> Seq<Seq<u8>> {
    seq![AUTHORITY_TAG@]
}

/// The seeds that prove control over the delegated authority with bump seed
/// `bump`.
pub open spec fn authority_signer_seeds(bump: u8) -> Seq<Seq<u8>> {
    seq![AUTHORITY_TAG@, seq![bump]]
}

/// The delegated authority of a program: its address and the bump seed that
/// the address was derived with.
#[derive(Clone, Copy, Debug)]
pub struct DelegatedAuthority {
    pub address: Address,
    pub bump: u8,
}

impl DelegatedAuthority {
    /// Whether this is the delegated authority of the program `program_id`.
    pub open spec fn belongs_to(self, program_id: Seq<u8>) -> bool {
        program_address(authority_seeds(), program_id) == Some((self.address@, self.bump))
    }

    /// Derives the delegated authority of the program `program_id`.
    ///
    /// Fails with `NoViableBump` exactly when the tag derives no address
    /// under the program.
    pub fn derive(program_id: &Address) -> (derived: Result<DelegatedAuthority, Error>)
        ensures
            match derived {
                Ok(authority) => authority.belongs_to(program_id@),
                Err(e) => e == Error::NoViableBump && program_address(
                    authority_seeds(),
                    program_id@,
                ) is None,
            },
    {
        let mut tag: Vec<u8> = Vec::new();
        tag.push(AUTHORITY_TAG[0]);
        tag.push(AUTHORITY_TAG[1]);
        tag.push(AUTHORITY_TAG[2]);
        tag.push(AUTHORITY_TAG[3]);
        assert(tag@ =~= AUTHORITY_TAG@);
        let mut seeds: Vec<Vec<u8>> = Vec::new();
        seeds.push(tag);
        assert(seeds_view(seeds@) =~= authority_seeds());
        match find_program_address(&seeds, program_id) {
            Ok((address, bump)) => Ok(DelegatedAuthority { address, bump }),
            Err(e) => Err(e),
        }
    }

    /// Derives the delegated authority of the program `program_id` and holds
    /// the account that a request names as the authority against it.
    ///
    /// Fails with `NoViableBump` when the tag derives no address under the
    /// program, else with `AuthorityMismatch` when `referenced` is not the
    /// derived address.
    pub fn verify(program_id: &Address, referenced: &Address) -> (verified: Result<
        DelegatedAuthority,
        Error,
    >)
        ensures
            verified == authority_for(program_id@, *referenced),
    {
        let authority = match DelegatedAuthority::derive(program_id) {
            Ok(authority) => authority,
            Err(e) => {
                return Err(e);
            },
        };
        if authority.address != *referenced {
            return Err(Error::AuthorityMismatch);
        }
        proof {
            crate::address::lemma_address_by_bytes(authority.address, *referenced);
        }
        Ok(authority)
    }

    /// The seeds to present with a call that the authority signs: the tag,
    /// then the bump seed.
    pub fn signer_seeds(&self) -> (seeds: Vec<Vec<u8>>)
        ensures
            seeds_view(seeds@) == authority_signer_seeds(self.bump),
    {
        let mut tag: Vec<u8> = Vec::new();
        tag.push(AUTHORITY_TAG[0]);
        tag.push(AUTHORITY_TAG[1]);
        tag.push(AUTHORITY_TAG[2]);
        tag.push(AUTHORITY_TAG[3]);
        assert(tag@ =~= AUTHORITY_TAG@);
        let mut bump: Vec<u8> = Vec::new();
        bump.push(self.bump);
        assert(bump@ =~= seq![self.bump]);
        let mut seeds: Vec<Vec<u8>> = Vec::new();
        seeds.push(tag);
        seeds.push(bump);
        assert(seeds_view(seeds@) =~= authority_signer_seeds(self.bump));
        seeds
    }
}

/// The delegated authority that a request for the program `program_id` acts
/// through when it names `referenced` as the authority, or the failure:
/// `NoViableBump` where the tag derives no address, `AuthorityMismatch` where
/// `referenced` is not the derived address.
pub open spec fn authority_for(program_id: Seq<u8>, referenced: Address) -> Result<
    DelegatedAuthority,
    Error,
> {
    match program_address(authority_seeds(), program_id) {
        None => Err(Error::NoViableBump),
        Some((address, bump)) => if referenced@ == address {
            Ok(DelegatedAuthority { address: referenced, bump })
        } else {
            Err(Error::AuthorityMismatch)
        },
    }
}

/// The seeds presented with a delegated call are the seeds that the
/// authority was derived from, followed by the bump seed of the derivation.
pub proof fn lemma_signer_seeds_reconstruct(bump: u8)
    ensures
        authority_signer_seeds(bump) == authority_seeds().push(seq![bump]),
{
    assert(authority_signer_seeds(bump) =~= authority_seeds().push(seq![bump]));
}

} // verus!
