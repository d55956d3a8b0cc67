//! The failures a request can end in, grouped into four classes.

use vstd::prelude::*;

verus! {

/// Why a request was aborted. No request that fails leaves a partial change
/// behind, and none is retried.
#[derive(Clone, Copy, Debug, PartialEq, Eq, Structural)]
pub enum Error {
    /// No bump seed yields an address for the given seeds.
    NoViableBump,
    /// The account to create is already allocated.
    AlreadyInitialized,
    /// The account to use does not exist.
    AccountMissing,
    /// A membership list is full.
    CapacityExceeded,
    /// The referenced account is not the one derived from the signer's key.
    AddressMismatch,
    /// The referenced authority is not the delegated authority of the program.
    AuthorityMismatch,
    /// The token program refused to mint the unit.
    MintRejected(u64),
    /// The metadata program refused to write the metadata record.
    MetadataRejected(u64),
    /// The metadata program refused to seal the edition.
    EditionRejected(u64),
    /// The token program refused to burn the unit.
    BurnRejected(u64),
    /// The token program refused to close the holding account.
    CloseRejected(u64),
}

/// The four classes of failure.
#[derive(Clone, Copy, Debug, PartialEq, Eq, Structural)]
pub enum ErrorClass {
    /// The seeds have no valid bump seed.
    Derivation,
    /// An account exists that must not, is missing, or is full.
    State,
    /// The signer or the referenced authority is not the required one.
    Authorization,
    /// An external program refused a delegated call.
    Collaborator,
}

impl Error {
    /// The class of this failure.
    pub open spec fn spec_class(self) -> ErrorClass {
        match self {
            Error::NoViableBump => ErrorClass::Derivation,
            Error::AlreadyInitialized => ErrorClass::State,
            Error::AccountMissing => ErrorClass::State,
            Error::CapacityExceeded => ErrorClass::State,
            Error::AddressMismatch => ErrorClass::Authorization,
            Error::AuthorityMismatch => ErrorClass::Authorization,
            Error::MintRejected(_) => ErrorClass::Collaborator,
            Error::MetadataRejected(_) => ErrorClass::Collaborator,
            Error::EditionRejected(_) => ErrorClass::Collaborator,
            Error::BurnRejected(_) => ErrorClass::Collaborator,
            Error::CloseRejected(_) => ErrorClass::Collaborator,
        }
    }

    /// The class of this failure.
    #[verifier::when_used_as_spec(spec_class)]
    pub fn class(self) -> (class: ErrorClass)
        ensures
            class == self.spec_class(),
    {
        match self {
            Error::NoViableBump => ErrorClass::Derivation,
            Error::AlreadyInitialized | Error::AccountMissing | Error::CapacityExceeded => {
                ErrorClass::State
            },
            Error::AddressMismatch | Error::AuthorityMismatch => ErrorClass::Authorization,
            Error::MintRejected(_)
            | Error::MetadataRejected(_)
            | Error::EditionRejected(_)
            | Error::BurnRejected(_)
            | Error::CloseRejected(_) => ErrorClass::Collaborator,
        }
    }

    /// The code that the external program gave with its refusal, if this
    /// failure is one.
    pub open spec fn spec_rejection_code(self) -> Option<u64> {
        match self {
            Error::MintRejected(code) => Some(code),
            Error::MetadataRejected(code) => Some(code),
            Error::EditionRejected(code) => Some(code),
            Error::BurnRejected(code) => Some(code),
            Error::CloseRejected(code) => Some(code),
            _ => None,
        }
    }

    /// The code that the external program gave with its refusal, if this
    /// failure is one.
    #[verifier::when_used_as_spec(spec_rejection_code)]
    pub fn rejection_code(self) -> (code: Option<u64>)
        ensures
            code == self.spec_rejection_code(),
            code.is_some() <==> self.spec_class() == ErrorClass::Collaborator,
    {
        match self {
            Error::MintRejected(code)
            | Error::MetadataRejected(code)
            | Error::EditionRejected(code)
            | Error::BurnRejected(code)
            | Error::CloseRejected(code) => Some(code),
            _ => None,
        }
    }

    /// A message for the user, one per failure.
    pub fn message(self) -> (text: &'static str)
        ensures
            text@ == self.spec_message(),
    {
        match self {
            Error::NoViableBump => "no bump seed yields an address for these seeds",
            Error::AlreadyInitialized => "the account is already initialized",
            Error::AccountMissing => "the account does not exist",
            Error::CapacityExceeded => "the membership list is full",
            Error::AddressMismatch => "the account is not derived from the signer's key",
            Error::AuthorityMismatch => "the authority is not the delegated authority",
            Error::MintRejected(_) => "the token program refused to mint the unit",
            Error::MetadataRejected(_) => "the metadata program refused the metadata record",
            Error::EditionRejected(_) => "the metadata program refused to seal the edition",
            Error::BurnRejected(_) => "the token program refused to burn the unit",
            Error::CloseRejected(_) => "the token program refused to close the holding account",
        }
    }

    /// The text of `message`.
    pub open spec fn spec_message(self) -> Seq<char> {
        match self {
            Error::NoViableBump => "no bump seed yields an address for these seeds"@,
            Error::AlreadyInitialized => "the account is already initialized"@,
            Error::AccountMissing => "the account does not exist"@,
            Error::CapacityExceeded => "the membership list is full"@,
            Error::AddressMismatch => "the account is not derived from the signer's key"@,
            Error::AuthorityMismatch => "the authority is not the delegated authority"@,
            Error::MintRejected(_) => "the token program refused to mint the unit"@,
            Error::MetadataRejected(_) => "the metadata program refused the metadata record"@,
            Error::EditionRejected(_) => "the metadata program refused to seal the edition"@,
            Error::BurnRejected(_) => "the token program refused to burn the unit"@,
            Error::CloseRejected(_) => "the token program refused to close the holding account"@,
        }
    }
}

} // verus!
