//! The delegated calls: what the program asks of the token program and of
//! the metadata program, signed by the delegated authority.

use crate::address::{seeds_view, Address};
use crate::error::Error;
use crate::instruction::{
    encodable, master_edition_instruction, master_edition_instruction_spec, metadata_instruction,
    metadata_instruction_spec, Instruction, InstructionView, TokenMetadata, RENT_SYSVAR_ID,
    SYSTEM_PROGRAM_ID, TOKEN_METADATA_PROGRAM_ID, TOKEN_PROGRAM_ID,
};
use crate::metadata::{DataV2, DataV2View};
use vstd::prelude::*;

verus! {

/// The accounts of a request to issue an asset.
#[derive(Clone, Copy, Debug)]
pub struct CreateMasterEdition {
    /// The key that signs the request and pays for the records.
    pub payer: Address,
    /// The delegated authority of the program.
    pub authority: Address,
    /// The unit: a mint without decimal places whose mint authority and
    /// freeze authority is the delegated authority.
    pub mint: Address,
    /// The holding account of the unit, owned by the delegated authority.
    pub token_account: Address,
    /// The metadata record of the unit.
    pub metadata_account: Address,
    /// The edition record of the unit.
    pub edition_account: Address,
}

/// The accounts of a request to retire an asset.
#[derive(Clone, Copy, Debug)]
pub struct BurnEdition {
    /// The key that signs the request and receives the refund.
    pub payer: Address,
    /// The delegated authority of the program.
    pub authority: Address,
    /// The unit.
    pub mint: Address,
    /// The holding account of the unit.
    pub token_account: Address,
}

/// An instruction for another program together with the accounts that the
/// runtime is handed with it.
#[derive(Clone, Debug, PartialEq, Eq)]
pub struct Invocation {
    pub instruction: Instruction,
    pub account_infos: Vec<Address>,
}

/// What an invocation holds.
pub struct InvocationView {
    pub instruction: InstructionView,
    pub account_infos: Seq<Address>,
}

impl View for Invocation {
    type V = InvocationView;

    open spec fn view(&self) -> InvocationView {
        InvocationView { instruction: self.instruction@, account_infos: self.account_infos@ }
    }
}

/// A call into the token program or the metadata program.
#[derive(Clone, Debug, PartialEq, Eq)]
pub enum Call {
    /// Mint `amount` of the unit `mint` into the holding account `to`.
    MintTo { mint: Address, to: Address, authority: Address, amount: u64 },
    /// Create the metadata record of a unit.
    CreateMetadata(Invocation),
    /// Seal a unit as a master edition.
    SealEdition(Invocation),
    /// Burn `amount` of the unit `mint` out of the holding account `from`.
    Burn { mint: Address, from: Address, authority: Address, amount: u64 },
    /// Close the holding account `account` and send its deposit to
    /// `destination`.
    CloseAccount { account: Address, destination: Address, authority: Address },
}

/// What a call holds.
pub enum CallView {
    MintTo { mint: Address, to: Address, authority: Address, amount: u64 },
    CreateMetadata(InvocationView),
    SealEdition(InvocationView),
    Burn { mint: Address, from: Address, authority: Address, amount: u64 },
    CloseAccount { account: Address, destination: Address, authority: Address },
}

impl View for Call {
    type V = CallView;

    open spec fn view(&self) -> CallView {
        match self {
            Call::MintTo { mint, to, authority, amount } => CallView::MintTo {
                mint: *mint,
                to: *to,
                authority: *authority,
                amount: *amount,
            },
            Call::CreateMetadata(invocation) => CallView::CreateMetadata(invocation@),
            Call::SealEdition(invocation) => CallView::SealEdition(invocation@),
            Call::Burn { mint, from, authority, amount } => CallView::Burn {
                mint: *mint,
                from: *from,
                authority: *authority,
                amount: *amount,
            },
            Call::CloseAccount { account, destination, authority } => CallView::CloseAccount {
                account: *account,
                destination: *destination,
                authority: *authority,
            },
        }
    }
}

impl CallView {
    /// The failure that a refusal of this call with the code `code` is
    /// returned as: one per kind of call.
    pub open spec fn rejection(self, code: u64) -> Error {
        match self {
            CallView::MintTo { .. } => Error::MintRejected(code),
            CallView::CreateMetadata(_) => Error::MetadataRejected(code),
            CallView::SealEdition(_) => Error::EditionRejected(code),
            CallView::Burn { .. } => Error::BurnRejected(code),
            CallView::CloseAccount { .. } => Error::CloseRejected(code),
        }
    }
}

impl Call {
    /// The failure that a refusal of this call with the code `code` is
    /// returned as.
    pub fn rejection(&self, code: u64) -> (error: Error)
        ensures
            error == self@.rejection(code),
    {
        match self {
            Call::MintTo { .. } => Error::MintRejected(code),
            Call::CreateMetadata(_) => Error::MetadataRejected(code),
            Call::SealEdition(_) => Error::EditionRejected(code),
            Call::Burn { .. } => Error::BurnRejected(code),
            Call::CloseAccount { .. } => Error::CloseRejected(code),
        }
    }
}

/// A call together with the seeds that sign it.
#[derive(Clone, Debug, PartialEq, Eq)]
pub struct DelegatedCall {
    pub call: Call,
    /// The seeds of the one derived address that signs the call.
    pub signer_seeds: Vec<Vec<u8>>,
}

/// What a delegated call holds.
pub struct DelegatedCallView {
    pub call: CallView,
    pub signer_seeds: Seq<Seq<u8>>,
}

impl View for DelegatedCall {
    type V = DelegatedCallView;

    open spec fn view(&self) -> DelegatedCallView {
        DelegatedCallView { call: self.call@, signer_seeds: seeds_view(self.signer_seeds@) }
    }
}

/// The address with the given bytes.
pub open spec fn address_of(bytes: [u8; 32]) -> Address {
    Address { bytes }
}

/// The call that creates the metadata record of the unit of `accounts`: the
/// delegated authority is mint authority and update authority, the payer
/// pays, and the runtime is handed the metadata record, the mint, the
/// authority, the payer, the authority again, the system program and the
/// rent sysvar.
pub open spec fn metadata_call(
    accounts: CreateMasterEdition,
    signer_seeds: Seq<Seq<u8>>,
    update_authority_is_signer: bool,
    is_mutable: bool,
    data: DataV2View,
) -> DelegatedCallView {
    DelegatedCallView {
        call: CallView::CreateMetadata(
            InvocationView {
                instruction: metadata_instruction_spec(
                    address_of(TOKEN_METADATA_PROGRAM_ID),
                    accounts.metadata_account,
                    accounts.mint,
                    accounts.authority,
                    accounts.payer,
                    accounts.authority,
                    data,
                    update_authority_is_signer,
                    is_mutable,
                ),
                account_infos: seq![
                    accounts.metadata_account,
                    accounts.mint,
                    accounts.authority,
                    accounts.payer,
                    accounts.authority,
                    address_of(SYSTEM_PROGRAM_ID),
                    address_of(RENT_SYSVAR_ID),
                ],
            },
        ),
        signer_seeds,
    }
}

/// The call that seals the unit of `accounts` as a master edition with at
/// most `max_supply` prints: the delegated authority is update authority and
/// mint authority, the payer pays, and the runtime is handed the edition
/// record, the metadata record, the mint, the authority, the payer, the
/// authority again, the rent sysvar and the token program.
pub open spec fn master_edition_call(
    accounts: CreateMasterEdition,
    signer_seeds: Seq<Seq<u8>>,
    max_supply: Option<u64>,
) -> DelegatedCallView {
    DelegatedCallView {
        call: CallView::SealEdition(
            InvocationView {
                instruction: master_edition_instruction_spec(
                    address_of(TOKEN_METADATA_PROGRAM_ID),
                    accounts.edition_account,
                    accounts.mint,
                    accounts.authority,
                    accounts.authority,
                    accounts.metadata_account,
                    accounts.payer,
                    max_supply,
                ),
                account_infos: seq![
                    accounts.edition_account,
                    accounts.metadata_account,
                    accounts.mint,
                    accounts.authority,
                    accounts.payer,
                    accounts.authority,
                    address_of(RENT_SYSVAR_ID),
                    address_of(TOKEN_PROGRAM_ID),
                ],
            },
        ),
        signer_seeds,
    }
}

/// Prepares the call that creates the metadata record of a unit, to be
/// signed with `signer_seeds`.
pub fn create_metadata_accounts_v2(
    accounts: &CreateMasterEdition,
    signer_seeds: Vec<Vec<u8>>,
    update_authority_is_signer: bool,
    is_mutable: bool,
    data: DataV2,
) -> (call: DelegatedCall)
    requires
        encodable(data@),
    ensures
        call@ == metadata_call(
            *accounts,
            seeds_view(signer_seeds@),
            update_authority_is_signer,
            is_mutable,
            data@,
        ),
{
    let instruction = metadata_instruction(
        TokenMetadata::id(),
        accounts.metadata_account,
        accounts.mint,
        accounts.authority,
        accounts.payer,
        accounts.authority,
        data,
        update_authority_is_signer,
        is_mutable,
    );
    let mut account_infos: Vec<Address> = Vec::new();
    account_infos.push(accounts.metadata_account);
    account_infos.push(accounts.mint);
    account_infos.push(accounts.authority);
    account_infos.push(accounts.payer);
    account_infos.push(accounts.authority);
    account_infos.push(Address { bytes: SYSTEM_PROGRAM_ID });
    account_infos.push(Address { bytes: RENT_SYSVAR_ID });
    let call = DelegatedCall {
        call: Call::CreateMetadata(Invocation { instruction, account_infos }),
        signer_seeds,
    };
    assert(call@.call->CreateMetadata_0.account_infos =~= metadata_call(
        *accounts,
        seeds_view(signer_seeds@),
        update_authority_is_signer,
        is_mutable,
        data@,
    ).call->CreateMetadata_0.account_infos);
    call
}

/// Prepares the call that seals a unit as a master edition, to be signed
/// with `signer_seeds`.
pub fn create_master_edition_v3(
    accounts: &CreateMasterEdition,
    signer_seeds: Vec<Vec<u8>>,
    max_supply: Option<u64>,
) -> (call: DelegatedCall)
    ensures
        call@ == master_edition_call(*accounts, seeds_view(signer_seeds@), max_supply),
{
    let instruction = master_edition_instruction(
        TokenMetadata::id(),
        accounts.edition_account,
        accounts.mint,
        accounts.authority,
        accounts.authority,
        accounts.metadata_account,
        accounts.payer,
        max_supply,
    );
    let mut account_infos: Vec<Address> = Vec::new();
    account_infos.push(accounts.edition_account);
    account_infos.push(accounts.metadata_account);
    account_infos.push(accounts.mint);
    account_infos.push(accounts.authority);
    account_infos.push(accounts.payer);
    account_infos.push(accounts.authority);
    account_infos.push(Address { bytes: RENT_SYSVAR_ID });
    account_infos.push(Address { bytes: TOKEN_PROGRAM_ID });
    let call = DelegatedCall {
        call: Call::SealEdition(Invocation { instruction, account_infos }),
        signer_seeds,
    };
    assert(call@.call->SealEdition_0.account_infos =~= master_edition_call(
        *accounts,
        seeds_view(signer_seeds@),
        max_supply,
    ).call->SealEdition_0.account_infos);
    call
}

} // verus!
