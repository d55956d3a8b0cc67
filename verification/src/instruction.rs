//! Instructions for the metadata program, built by the metadata program's
//! own library.

use crate::address::Address;
use crate::metadata::{Collection, Creator, DataV2, DataV2View};
use anchor_lang::solana_program::pubkey::Pubkey;
use mpl_token_metadata::state;
use mpl_token_metadata::state::Uses;
use vstd::prelude::*;
use vstd::utf8::encode_utf8;

verus! {

/// The address of the system program, `11111111111111111111111111111111`.
pub const SYSTEM_PROGRAM_ID: [u8; 32] = [
    0, 0, 0, 0, 0, 0, 0, 0, 0, 0, 0, 0, 0, 0, 0, 0,
    0, 0, 0, 0, 0, 0, 0, 0, 0, 0, 0, 0, 0, 0, 0, 0,
];

/// The address of the token program,
/// `TokenkegQfeZyiNwAJbNbGKPFXCWuBvf9Ss623VQ5DA`.
pub const TOKEN_PROGRAM_ID: [u8; 32] = [
    6, 221, 246, 225, 215, 101, 161, 147, 217, 203, 225, 70, 206, 235, 121, 172,
    28, 180, 133, 237, 95, 91, 55, 145, 58, 140, 245, 133, 126, 255, 0, 169,
];

/// The address of the metadata program,
/// `metaqbxxUerdq28cj1RbAWkYQm3ybzjb6a8bt518x1s`.
pub const TOKEN_METADATA_PROGRAM_ID: [u8; 32] = [
    11, 112, 101, 177, 227, 209, 124, 69, 56, 157, 82, 127, 107, 4, 195, 205,
    88, 184, 108, 115, 26, 160, 253, 181, 73, 182, 209, 188, 3, 248, 41, 70,
];

/// The address of the rent sysvar,
/// `SysvarRent111111111111111111111111111111111`.
pub const RENT_SYSVAR_ID: [u8; 32] = [
    6, 167, 213, 23, 25, 44, 92, 81, 33, 140, 201, 76, 61, 74, 241, 127,
    88, 218, 238, 8, 155, 161, 253, 68, 227, 219, 217, 138, 0, 0, 0, 0,
];

/// The metadata program.
#[derive(Clone, Copy, Debug)]
pub struct TokenMetadata;

impl TokenMetadata {
    /// The address of the metadata program.
    pub fn id() -> (id: Address)
        ensures
            id.bytes == TOKEN_METADATA_PROGRAM_ID,
    {
        Address { bytes: TOKEN_METADATA_PROGRAM_ID }
    }
}

/// An account that an instruction names, and how the instruction uses it.
#[derive(Clone, Copy, Debug, PartialEq, Eq)]
pub struct AccountMeta {
    pub pubkey: Address,
    /// Whether the instruction needs the account's signature.
    pub is_signer: bool,
    /// Whether the instruction may change the account.
    pub is_writable: bool,
}

/// An instruction for a program.
#[derive(Clone, Debug, PartialEq, Eq)]
pub struct Instruction {
    /// The program that executes the instruction.
    pub program_id: Address,
    /// The accounts that the program is handed, in order.
    pub accounts: Vec<AccountMeta>,
    /// The data that the program interprets.
    pub data: Vec<u8>,
}

/// What an instruction holds.
pub struct InstructionView {
    pub program_id: Address,
    pub accounts: Seq<AccountMeta>,
    pub data: Seq<u8>,
}

impl View for Instruction {
    type V = InstructionView;

    open spec fn view(&self) -> InstructionView {
        InstructionView { program_id: self.program_id, accounts: self.accounts@, data: self.data@ }
    }
}

/// An account that an instruction may change.
pub open spec fn writable(pubkey: [u8; 32], is_signer: bool) -> ([u8; 32], bool, bool) {
    (pubkey, is_signer, true)
}

/// An account that an instruction only reads.
pub open spec fn readonly(pubkey: [u8; 32], is_signer: bool) -> ([u8; 32], bool, bool) {
    (pubkey, is_signer, false)
}

/// The accounts of an instruction that creates a metadata record, given the
/// addresses of the record, the mint, the mint authority, the payer and the
/// update authority: each as address, signer flag and writable flag.
pub open spec fn metadata_accounts(
    metadata: [u8; 32],
    mint: [u8; 32],
    mint_authority: [u8; 32],
    payer: [u8; 32],
    update_authority: [u8; 32],
    update_authority_is_signer: bool,
) -> Seq<([u8; 32], bool, bool)> {
    seq![
        writable(metadata, false),
        readonly(mint, false),
        readonly(mint_authority, true),
        writable(payer, true),
        readonly(update_authority, update_authority_is_signer),
        readonly(SYSTEM_PROGRAM_ID, false),
    ]
}

/// The accounts of an instruction that seals a master edition, given the
/// addresses of the edition record, the mint, the update authority, the mint
/// authority, the metadata record and the payer: each as address, signer flag
/// and writable flag.
pub open spec fn master_edition_accounts(
    edition: [u8; 32],
    mint: [u8; 32],
    update_authority: [u8; 32],
    mint_authority: [u8; 32],
    metadata: [u8; 32],
    payer: [u8; 32],
) -> Seq<([u8; 32], bool, bool)> {
    seq![
        writable(edition, false),
        writable(mint, false),
        readonly(update_authority, true),
        readonly(mint_authority, true),
        writable(payer, true),
        writable(metadata, false),
        readonly(TOKEN_PROGRAM_ID, false),
        readonly(SYSTEM_PROGRAM_ID, false),
    ]
}

/// The data of the instruction that the metadata program's library builds to
/// create a metadata record with the given descriptor.
pub uninterp spec fn metadata_instruction_data(
    name: Seq<char>,
    symbol: Seq<char>,
    uri: Seq<char>,
    creators: Option<Seq<([u8; 32], bool, u8)>>,
    seller_fee_basis_points: u16,
    is_mutable: bool,
    collection: Option<(bool, [u8; 32])>,
    uses: Option<Uses>,
) -> Seq<u8>;

/// The data of the instruction that the metadata program's library builds to
/// seal a master edition with the given cap on prints.
pub uninterp spec fn master_edition_instruction_data(max_supply: Option<u64>) -> Seq<u8>;

/// Whether a length fits the 32-bit length prefix of the instruction data.
pub open spec fn fits_length_prefix(len: nat) -> bool {
    len <= u32::MAX
}

/// Calls `mpl_token_metadata::instruction::create_metadata_accounts_v2`.
/// `keys` holds the program id and the addresses of the metadata record, the
/// mint, the mint authority, the payer and the update authority. The result
/// is the instruction's program id, its accounts and its data: the program id
/// is the one given, the accounts are the six that the function lists, and
/// the data is the encoding of the descriptor and of `is_mutable`, which
/// reads none of the keys. The encoding panics on a string or a list whose
/// length does not fit 32 bits.
#[verifier::external_body]
fn build_metadata_instruction(
    keys: [[u8; 32]; 6],
    name: String,
    symbol: String,
    uri: String,
    creators: Option<Vec<([u8; 32], bool, u8)>>,
    seller_fee_basis_points: u16,
    update_authority_is_signer: bool,
    is_mutable: bool,
    collection: Option<(bool, [u8; 32])>,
    uses: Option<Uses>,
) -> (built: ([u8; 32], Vec<([u8; 32], bool, bool)>, Vec<u8>))
    requires
        fits_length_prefix(encode_utf8(name@).len()),
        fits_length_prefix(encode_utf8(symbol@).len()),
        fits_length_prefix(encode_utf8(uri@).len()),
        creators matches Some(list) ==> fits_length_prefix(list@.len()),
    ensures
        built.0 == keys[0],
        built.1@ == metadata_accounts(
            keys[1],
            keys[2],
            keys[3],
            keys[4],
            keys[5],
            update_authority_is_signer,
        ),
        built.2@ == metadata_instruction_data(
            name@,
            symbol@,
            uri@,
            match creators {
                Some(list) => Some(list@),
                None => None,
            },
            seller_fee_basis_points,
            is_mutable,
            collection,
            uses,
        ),
{
    let [program, metadata, mint, minter, payer, updater] = keys.map(Pubkey::new_from_array);
    let built = mpl_token_metadata::instruction::create_metadata_accounts_v2(
        program, metadata, mint, minter, payer, updater, name, symbol, uri,
        creators.map(|list| list.into_iter().map(|(key, verified, share)|
            state::Creator { address: Pubkey::new_from_array(key), verified, share }).collect()),
        seller_fee_basis_points, update_authority_is_signer, is_mutable,
        collection.map(|(verified, key)|
            state::Collection { verified, key: Pubkey::new_from_array(key) }),
        uses,
    );
    let metas = built.accounts.iter().map(|meta|
        (meta.pubkey.to_bytes(), meta.is_signer, meta.is_writable)).collect();
    (built.program_id.to_bytes(), metas, built.data)
}

/// Calls `mpl_token_metadata::instruction::create_master_edition_v3`. `keys`
/// holds the program id and the addresses of the edition record, the mint,
/// the update authority, the mint authority, the metadata record and the
/// payer. The result is the instruction's program id, its accounts and its
/// data: the program id is the one given, the accounts are the eight that
/// the function lists, and the data is the encoding of `max_supply`, which
/// reads none of the keys.
#[verifier::external_body]
fn build_master_edition_instruction(keys: [[u8; 32]; 7], max_supply: Option<u64>) -> (built: (
    [u8; 32],
    Vec<([u8; 32], bool, bool)>,
    Vec<u8>,
))
    ensures
        built.0 == keys[0],
        built.1@ == master_edition_accounts(
            keys[1],
            keys[2],
            keys[3],
            keys[4],
            keys[5],
            keys[6],
        ),
        built.2@ == master_edition_instruction_data(max_supply),
{
    let [program, edition, mint, updater, minter, metadata, payer] =
        keys.map(Pubkey::new_from_array);
    let built = mpl_token_metadata::instruction::create_master_edition_v3(
        program, edition, mint, updater, minter, metadata, payer, max_supply,
    );
    let metas = built.accounts.iter().map(|meta|
        (meta.pubkey.to_bytes(), meta.is_signer, meta.is_writable)).collect();
    (built.program_id.to_bytes(), metas, built.data)
}

/// The account of an instruction that the triple of address, signer flag
/// and writable flag describes.
pub open spec fn account_meta(flat: ([u8; 32], bool, bool)) -> AccountMeta {
    AccountMeta { pubkey: Address { bytes: flat.0 }, is_signer: flat.1, is_writable: flat.2 }
}

fn assemble(program_id: [u8; 32], metas: Vec<([u8; 32], bool, bool)>, data: Vec<u8>) -> (instruction:
    Instruction)
    ensures
        instruction.program_id.bytes == program_id,
        instruction.accounts@ == metas@.map_values(|flat: ([u8; 32], bool, bool)| account_meta(flat)),
        instruction.data == data,
{
    let mut accounts: Vec<AccountMeta> = Vec::new();
    let mut i: usize = 0;
    while i < metas.len()
        invariant
            i <= metas@.len(),
            accounts@.len() == i,
            forall|j: int| 0 <= j < i ==> accounts@[j] == account_meta(metas@[j]),
        decreases metas@.len() - i,
    {
        let (pubkey, is_signer, is_writable) = metas[i];
        accounts.push(AccountMeta { pubkey: Address { bytes: pubkey }, is_signer, is_writable });
        i += 1;
    }
    assert(accounts@ =~= metas@.map_values(|flat: ([u8; 32], bool, bool)| account_meta(flat)));
    Instruction { program_id: Address { bytes: program_id }, accounts, data }
}

/// A creator as address, verified flag and share.
pub open spec fn flat_creator(creator: Creator) -> ([u8; 32], bool, u8) {
    (creator.address.bytes, creator.verified, creator.share)
}

/// A collection reference as verified flag and address.
pub open spec fn flat_collection(collection: Collection) -> (bool, [u8; 32]) {
    (collection.verified, collection.key.bytes)
}

/// Whether the strings and the list of creators of a descriptor have
/// lengths that fit the 32-bit length prefixes of the instruction data.
pub open spec fn encodable(data: DataV2View) -> bool {
    &&& fits_length_prefix(encode_utf8(data.name).len())
    &&& fits_length_prefix(encode_utf8(data.symbol).len())
    &&& fits_length_prefix(encode_utf8(data.uri).len())
    &&& data.creators matches Some(creators) ==> fits_length_prefix(creators.len())
}

/// The data of the instruction that creates a metadata record with the
/// descriptor `data`.
pub open spec fn metadata_data(data: DataV2View, is_mutable: bool) -> Seq<u8> {
    metadata_instruction_data(
        data.name,
        data.symbol,
        data.uri,
        match data.creators {
            Some(creators) => Some(creators.map_values(|creator: Creator| flat_creator(creator))),
            None => None,
        },
        data.seller_fee_basis_points,
        is_mutable,
        match data.collection {
            Some(collection) => Some(flat_collection(collection)),
            None => None,
        },
        data.uses,
    )
}

/// The instruction that creates the metadata record `metadata` of the unit
/// `mint`: for the program `program_id`, with the six accounts that the
/// metadata program expects and the descriptor as data.
pub open spec fn metadata_instruction_spec(
    program_id: Address,
    metadata: Address,
    mint: Address,
    mint_authority: Address,
    payer: Address,
    update_authority: Address,
    data: DataV2View,
    update_authority_is_signer: bool,
    is_mutable: bool,
) -> InstructionView {
    InstructionView {
        program_id,
        accounts: metadata_accounts(
            metadata.bytes,
            mint.bytes,
            mint_authority.bytes,
            payer.bytes,
            update_authority.bytes,
            update_authority_is_signer,
        ).map_values(|flat: ([u8; 32], bool, bool)| account_meta(flat)),
        data: metadata_data(data, is_mutable),
    }
}

/// The instruction that seals `edition` as the master edition of the unit
/// `mint`: for the program `program_id`, with the eight accounts that the
/// metadata program expects and the cap on prints as data.
pub open spec fn master_edition_instruction_spec(
    program_id: Address,
    edition: Address,
    mint: Address,
    update_authority: Address,
    mint_authority: Address,
    metadata: Address,
    payer: Address,
    max_supply: Option<u64>,
) -> InstructionView {
    InstructionView {
        program_id,
        accounts: master_edition_accounts(
            edition.bytes,
            mint.bytes,
            update_authority.bytes,
            mint_authority.bytes,
            metadata.bytes,
            payer.bytes,
        ).map_values(|flat: ([u8; 32], bool, bool)| account_meta(flat)),
        data: master_edition_instruction_data(max_supply),
    }
}

fn flatten_creators(creators: Vec<Creator>) -> (flat: Vec<([u8; 32], bool, u8)>)
    ensures
        flat@ == creators@.map_values(|creator: Creator| flat_creator(creator)),
{
    let mut flat: Vec<([u8; 32], bool, u8)> = Vec::new();
    let mut i: usize = 0;
    while i < creators.len()
        invariant
            i <= creators@.len(),
            flat@.len() == i,
            forall|j: int| 0 <= j < i ==> flat@[j] == flat_creator(creators@[j]),
        decreases creators@.len() - i,
    {
        let creator = creators[i];
        flat.push((creator.address.bytes, creator.verified, creator.share));
        i += 1;
    }
    assert(flat@ =~= creators@.map_values(|creator: Creator| flat_creator(creator)));
    flat
}

/// Builds the instruction that creates a metadata record.
pub fn metadata_instruction(
    program_id: Address,
    metadata: Address,
    mint: Address,
    mint_authority: Address,
    payer: Address,
    update_authority: Address,
    data: DataV2,
    update_authority_is_signer: bool,
    is_mutable: bool,
) -> (instruction: Instruction)
    requires
        encodable(data@),
    ensures
        instruction@ == metadata_instruction_spec(
            program_id,
            metadata,
            mint,
            mint_authority,
            payer,
            update_authority,
            data@,
            update_authority_is_signer,
            is_mutable,
        ),
{
    let keys = [
        program_id.bytes,
        metadata.bytes,
        mint.bytes,
        mint_authority.bytes,
        payer.bytes,
        update_authority.bytes,
    ];
    let creators = match data.creators {
        Some(creators) => Some(flatten_creators(creators)),
        None => None,
    };
    let collection = match data.collection {
        Some(collection) => Some((collection.verified, collection.key.bytes)),
        None => None,
    };
    let (id, metas, bytes) = build_metadata_instruction(
        keys,
        data.name,
        data.symbol,
        data.uri,
        creators,
        data.seller_fee_basis_points,
        update_authority_is_signer,
        is_mutable,
        collection,
        data.uses,
    );
    assemble(id, metas, bytes)
}

/// Builds the instruction that seals a master edition.
pub fn master_edition_instruction(
    program_id: Address,
    edition: Address,
    mint: Address,
    update_authority: Address,
    mint_authority: Address,
    metadata: Address,
    payer: Address,
    max_supply: Option<u64>,
) -> (instruction: Instruction)
    ensures
        instruction@ == master_edition_instruction_spec(
            program_id,
            edition,
            mint,
            update_authority,
            mint_authority,
            metadata,
            payer,
            max_supply,
        ),
{
    let keys = [
        program_id.bytes,
        edition.bytes,
        mint.bytes,
        update_authority.bytes,
        mint_authority.bytes,
        metadata.bytes,
        payer.bytes,
    ];
    let (id, metas, bytes) = build_master_edition_instruction(keys, max_supply);
    assemble(id, metas, bytes)
}

} // verus!
