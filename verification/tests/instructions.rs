use anchor_lang::solana_program::pubkey::Pubkey;
use anchor_lang::solana_program::{system_program, sysvar};
use mpl_token_metadata::state::{UseMethod, Uses};
use nftfactory::instruction::{
    master_edition_instruction, metadata_instruction, RENT_SYSVAR_ID, SYSTEM_PROGRAM_ID,
    TOKEN_METADATA_PROGRAM_ID, TOKEN_PROGRAM_ID,
};
use nftfactory::{
    create_master_edition_v3, create_metadata_accounts_v2, AccountMeta, Address, Call, Collection,
    CreateMasterEdition, Creator, DataV2, Instruction, TokenMetadata,
};

fn key(n: u8) -> Address {
    Address::new([n; 32])
}

fn outside(address: &Address) -> Pubkey {
    Pubkey::new_from_array(address.bytes)
}

fn data() -> DataV2 {
    DataV2 {
        name: String::from("Edition"),
        symbol: String::from("ED"),
        uri: String::from("https://example.com/edition.json"),
        seller_fee_basis_points: 250,
        creators: Some(vec![
            Creator { address: key(21), verified: false, share: 70 },
            Creator { address: key(22), verified: true, share: 30 },
        ]),
        collection: Some(Collection { verified: false, key: key(23) }),
        uses: Some(Uses { use_method: UseMethod::Multiple, remaining: 3, total: 5 }),
    }
}

fn outside_data() -> mpl_token_metadata::state::DataV2 {
    mpl_token_metadata::state::DataV2 {
        name: String::from("Edition"),
        symbol: String::from("ED"),
        uri: String::from("https://example.com/edition.json"),
        seller_fee_basis_points: 250,
        creators: Some(vec![
            mpl_token_metadata::state::Creator {
                address: outside(&key(21)),
                verified: false,
                share: 70,
            },
            mpl_token_metadata::state::Creator {
                address: outside(&key(22)),
                verified: true,
                share: 30,
            },
        ]),
        collection: Some(mpl_token_metadata::state::Collection {
            verified: false,
            key: outside(&key(23)),
        }),
        uses: Some(Uses { use_method: UseMethod::Multiple, remaining: 3, total: 5 }),
    }
}

fn accounts() -> CreateMasterEdition {
    CreateMasterEdition {
        payer: key(1),
        authority: key(2),
        mint: key(3),
        token_account: key(4),
        metadata_account: key(5),
        edition_account: key(6),
    }
}

fn same(ours: &Instruction, theirs: &anchor_lang::solana_program::instruction::Instruction) {
    assert_eq!(ours.program_id.bytes, theirs.program_id.to_bytes());
    assert_eq!(ours.accounts.len(), theirs.accounts.len());
    for (meta, expected) in ours.accounts.iter().zip(theirs.accounts.iter()) {
        assert_eq!(meta.pubkey.bytes, expected.pubkey.to_bytes());
        assert_eq!(meta.is_signer, expected.is_signer);
        assert_eq!(meta.is_writable, expected.is_writable);
    }
    assert_eq!(ours.data, theirs.data);
}

#[test]
fn the_program_ids_are_those_of_the_programs() {
    assert_eq!(TOKEN_METADATA_PROGRAM_ID, mpl_token_metadata::id().to_bytes());
    assert_eq!(TokenMetadata::id().bytes, mpl_token_metadata::id().to_bytes());
    assert_eq!(SYSTEM_PROGRAM_ID, system_program::id().to_bytes());
    assert_eq!(TOKEN_PROGRAM_ID, anchor_spl::token::ID.to_bytes());
    assert_eq!(RENT_SYSVAR_ID, sysvar::rent::id().to_bytes());
}

#[test]
fn the_metadata_instruction_is_the_metadata_programs() {
    let ours = metadata_instruction(
        key(10),
        key(11),
        key(12),
        key(13),
        key(14),
        key(15),
        data(),
        true,
        false,
    );
    let d = outside_data();
    let theirs = mpl_token_metadata::instruction::create_metadata_accounts_v2(
        outside(&key(10)),
        outside(&key(11)),
        outside(&key(12)),
        outside(&key(13)),
        outside(&key(14)),
        outside(&key(15)),
        d.name,
        d.symbol,
        d.uri,
        d.creators,
        d.seller_fee_basis_points,
        true,
        false,
        d.collection,
        d.uses,
    );
    same(&ours, &theirs);
}

#[test]
fn the_metadata_instruction_lists_six_accounts() {
    let ours =
        metadata_instruction(key(10), key(11), key(12), key(13), key(14), key(15), data(), false, true);
    assert_eq!(ours.program_id, key(10));
    assert_eq!(
        ours.accounts,
        vec![
            AccountMeta { pubkey: key(11), is_signer: false, is_writable: true },
            AccountMeta { pubkey: key(12), is_signer: false, is_writable: false },
            AccountMeta { pubkey: key(13), is_signer: true, is_writable: false },
            AccountMeta { pubkey: key(14), is_signer: true, is_writable: true },
            AccountMeta { pubkey: key(15), is_signer: false, is_writable: false },
            AccountMeta {
                pubkey: Address::new(SYSTEM_PROGRAM_ID),
                is_signer: false,
                is_writable: false
            },
        ]
    );
    assert!(!ours.data.is_empty());
}

#[test]
fn the_metadata_instruction_data_follows_the_descriptor() {
    let base =
        metadata_instruction(key(10), key(11), key(12), key(13), key(14), key(15), data(), false, true);
    let other_keys =
        metadata_instruction(key(30), key(31), key(32), key(33), key(34), key(35), data(), true, true);
    assert_eq!(base.data, other_keys.data);
    let frozen =
        metadata_instruction(key(10), key(11), key(12), key(13), key(14), key(15), data(), false, false);
    assert_ne!(base.data, frozen.data);
    let mut renamed = data();
    renamed.name = String::from("Other");
    let renamed =
        metadata_instruction(key(10), key(11), key(12), key(13), key(14), key(15), renamed, false, true);
    assert_ne!(base.data, renamed.data);
    let mut used = data();
    used.uses = Some(Uses { use_method: UseMethod::Single, remaining: 3, total: 5 });
    let used =
        metadata_instruction(key(10), key(11), key(12), key(13), key(14), key(15), used, false, true);
    assert_ne!(base.data, used.data);
}

#[test]
fn the_master_edition_instruction_is_the_metadata_programs() {
    for max_supply in [None, Some(0), Some(10), Some(u64::MAX)] {
        let ours = master_edition_instruction(
            key(10),
            key(11),
            key(12),
            key(13),
            key(14),
            key(15),
            key(16),
            max_supply,
        );
        let theirs = mpl_token_metadata::instruction::create_master_edition_v3(
            outside(&key(10)),
            outside(&key(11)),
            outside(&key(12)),
            outside(&key(13)),
            outside(&key(14)),
            outside(&key(15)),
            outside(&key(16)),
            max_supply,
        );
        same(&ours, &theirs);
    }
}

#[test]
fn the_master_edition_instruction_lists_eight_accounts() {
    let ours = master_edition_instruction(
        key(10),
        key(11),
        key(12),
        key(13),
        key(14),
        key(15),
        key(16),
        Some(1),
    );
    assert_eq!(ours.program_id, key(10));
    assert_eq!(
        ours.accounts,
        vec![
            AccountMeta { pubkey: key(11), is_signer: false, is_writable: true },
            AccountMeta { pubkey: key(12), is_signer: false, is_writable: true },
            AccountMeta { pubkey: key(13), is_signer: true, is_writable: false },
            AccountMeta { pubkey: key(14), is_signer: true, is_writable: false },
            AccountMeta { pubkey: key(16), is_signer: true, is_writable: true },
            AccountMeta { pubkey: key(15), is_signer: false, is_writable: true },
            AccountMeta {
                pubkey: Address::new(TOKEN_PROGRAM_ID),
                is_signer: false,
                is_writable: false
            },
            AccountMeta {
                pubkey: Address::new(SYSTEM_PROGRAM_ID),
                is_signer: false,
                is_writable: false
            },
        ]
    );
    let capped = ours.data;
    let open = master_edition_instruction(
        key(10),
        key(11),
        key(12),
        key(13),
        key(14),
        key(15),
        key(16),
        None,
    )
    .data;
    assert_ne!(capped, open);
}

#[test]
fn the_metadata_call_is_signed_by_the_authority_for_the_metadata_program() {
    let seeds = vec![b"auth".to_vec(), vec![254]];
    let call = create_metadata_accounts_v2(&accounts(), seeds.clone(), false, true, data());
    assert_eq!(call.signer_seeds, seeds);
    let Call::CreateMetadata(invocation) = call.call else {
        panic!("not a metadata call");
    };
    let d = outside_data();
    let theirs = mpl_token_metadata::instruction::create_metadata_accounts_v2(
        mpl_token_metadata::id(),
        outside(&key(5)),
        outside(&key(3)),
        outside(&key(2)),
        outside(&key(1)),
        outside(&key(2)),
        d.name,
        d.symbol,
        d.uri,
        d.creators,
        d.seller_fee_basis_points,
        false,
        true,
        d.collection,
        d.uses,
    );
    same(&invocation.instruction, &theirs);
    assert_eq!(
        invocation.account_infos,
        vec![
            key(5),
            key(3),
            key(2),
            key(1),
            key(2),
            Address::new(SYSTEM_PROGRAM_ID),
            Address::new(RENT_SYSVAR_ID),
        ]
    );
}

#[test]
fn the_edition_call_is_signed_by_the_authority_for_the_metadata_program() {
    let seeds = vec![b"auth".to_vec(), vec![254]];
    let call = create_master_edition_v3(&accounts(), seeds.clone(), Some(3));
    assert_eq!(call.signer_seeds, seeds);
    let Call::SealEdition(invocation) = call.call else {
        panic!("not an edition call");
    };
    let theirs = mpl_token_metadata::instruction::create_master_edition_v3(
        mpl_token_metadata::id(),
        outside(&key(6)),
        outside(&key(3)),
        outside(&key(2)),
        outside(&key(2)),
        outside(&key(5)),
        outside(&key(1)),
        Some(3),
    );
    same(&invocation.instruction, &theirs);
    assert_eq!(
        invocation.account_infos,
        vec![
            key(6),
            key(5),
            key(3),
            key(2),
            key(1),
            key(2),
            Address::new(RENT_SYSVAR_ID),
            Address::new(TOKEN_PROGRAM_ID),
        ]
    );
}
