use anchor_lang::solana_program::pubkey::Pubkey;
use mpl_token_metadata::state::{UseMethod, Uses};
use nftfactory::{
    Address, AnchorCollection, AnchorCreator, AnchorDataV2, AnchorUseMethod, AnchorUses,
    Collection, Creator, DataV2,
};

fn descriptor() -> AnchorDataV2 {
    AnchorDataV2 {
        name: String::from("Edition"),
        symbol: String::from("ED"),
        uri: String::from("https://example.com/edition.json"),
        seller_fee_basis_points: 250,
        creators: Some(vec![AnchorCreator {
            address: Address::new([5u8; 32]),
            verified: false,
            share: 100,
        }]),
        collection: None,
        uses: None,
    }
}

#[test]
fn the_descriptor_round_trips_into_the_external_shape() {
    let converted = DataV2::from(descriptor());
    let expected = mpl_token_metadata::state::DataV2 {
        name: String::from("Edition"),
        symbol: String::from("ED"),
        uri: String::from("https://example.com/edition.json"),
        seller_fee_basis_points: 250,
        creators: Some(vec![mpl_token_metadata::state::Creator {
            address: Pubkey::new_from_array([5u8; 32]),
            verified: false,
            share: 100,
        }]),
        collection: None,
        uses: None,
    };
    assert_eq!(converted.name, expected.name);
    assert_eq!(converted.symbol, expected.symbol);
    assert_eq!(converted.uri, expected.uri);
    assert_eq!(converted.seller_fee_basis_points, expected.seller_fee_basis_points);
    assert_eq!(converted.seller_fee_basis_points, 250);
    let creators = converted.creators.expect("one creator");
    let expected_creators = expected.creators.expect("one creator");
    assert_eq!(creators.len(), 1);
    assert_eq!(creators.len(), expected_creators.len());
    assert_eq!(creators[0].address.bytes, expected_creators[0].address.to_bytes());
    assert_eq!(creators[0].verified, expected_creators[0].verified);
    assert!(!creators[0].verified);
    assert_eq!(creators[0].share, expected_creators[0].share);
    assert_eq!(creators[0].share, 100);
    assert!(converted.collection.is_none());
    assert!(expected.collection.is_none());
    assert_eq!(converted.uses, expected.uses);
    assert!(converted.uses.is_none());
}

#[test]
fn a_descriptor_without_creators_stays_without() {
    let mut item = descriptor();
    item.creators = None;
    let converted = DataV2::from(item);
    assert!(converted.creators.is_none());
    let mut item = descriptor();
    item.creators = Some(Vec::new());
    assert_eq!(DataV2::from(item).creators, Some(Vec::new()));
}

#[test]
fn creators_keep_their_order_and_fields() {
    let mut item = descriptor();
    item.creators = Some(vec![
        AnchorCreator { address: Address::new([1u8; 32]), verified: true, share: 60 },
        AnchorCreator { address: Address::new([2u8; 32]), verified: false, share: 40 },
    ]);
    let converted = DataV2::from(item);
    assert_eq!(
        converted.creators,
        Some(vec![
            Creator { address: Address::new([1u8; 32]), verified: true, share: 60 },
            Creator { address: Address::new([2u8; 32]), verified: false, share: 40 },
        ])
    );
}

#[test]
fn a_creator_converts_field_for_field() {
    let creator = Creator::from(AnchorCreator {
        address: Address::new([9u8; 32]),
        verified: true,
        share: 33,
    });
    assert_eq!(creator, Creator { address: Address::new([9u8; 32]), verified: true, share: 33 });
}

#[test]
fn a_collection_converts_field_for_field() {
    let collection =
        Collection::from(AnchorCollection { verified: true, key: Address::new([4u8; 32]) });
    assert_eq!(collection, Collection { verified: true, key: Address::new([4u8; 32]) });
    let mut item = descriptor();
    item.collection = Some(AnchorCollection { verified: false, key: Address::new([6u8; 32]) });
    assert_eq!(
        DataV2::from(item).collection,
        Some(Collection { verified: false, key: Address::new([6u8; 32]) })
    );
}

#[test]
fn each_use_method_keeps_its_name() {
    assert_eq!(UseMethod::from(AnchorUseMethod::Burn), UseMethod::Burn);
    assert_eq!(UseMethod::from(AnchorUseMethod::Multiple), UseMethod::Multiple);
    assert_eq!(UseMethod::from(AnchorUseMethod::Single), UseMethod::Single);
}

#[test]
fn usage_terms_keep_their_counts() {
    let uses = Uses::from(AnchorUses {
        use_method: AnchorUseMethod::Multiple,
        remaining: 7,
        total: 10,
    });
    assert_eq!(uses, Uses { use_method: UseMethod::Multiple, remaining: 7, total: 10 });
    let mut item = descriptor();
    item.uses = Some(AnchorUses { use_method: AnchorUseMethod::Single, remaining: 1, total: 1 });
    assert_eq!(
        DataV2::from(item).uses,
        Some(Uses { use_method: UseMethod::Single, remaining: 1, total: 1 })
    );
}

#[test]
fn the_royalty_is_in_range_up_to_the_whole_price() {
    let mut item = descriptor();
    assert!(item.royalty_in_range());
    item.seller_fee_basis_points = 0;
    assert!(item.royalty_in_range());
    item.seller_fee_basis_points = 10000;
    assert!(item.royalty_in_range());
    item.seller_fee_basis_points = 10001;
    assert!(!item.royalty_in_range());
    assert_eq!(DataV2::from(item).seller_fee_basis_points, 10001);
}

#[test]
fn an_ordinary_descriptor_is_encodable() {
    assert!(descriptor().encodable());
    let mut item = descriptor();
    item.name = String::new();
    item.creators = None;
    assert!(item.encodable());
}
