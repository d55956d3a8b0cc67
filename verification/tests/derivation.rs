use anchor_lang::solana_program::pubkey::Pubkey;
use nftfactory::authority::{DelegatedAuthority, AUTHORITY_TAG};
use nftfactory::{find_program_address, Address, Error};

fn program() -> Address {
    Address::new([7u8; 32])
}

fn outside(address: &Address) -> Pubkey {
    Pubkey::new_from_array(address.bytes)
}

#[test]
fn deriving_twice_gives_the_same_address_and_bump() {
    let seeds = vec![b"vault".to_vec(), vec![1, 2, 3]];
    let first = find_program_address(&seeds, &program());
    let second = find_program_address(&seeds, &program());
    assert!(first.is_ok());
    assert_eq!(first, second);
}

#[test]
fn derivation_is_the_runtimes() {
    let seeds = vec![b"vault".to_vec(), vec![1, 2, 3]];
    let (address, bump) = find_program_address(&seeds, &program()).unwrap();
    let (expected, expected_bump) =
        Pubkey::find_program_address(&[b"vault", &[1, 2, 3]], &outside(&program()));
    assert_eq!(address.bytes, expected.to_bytes());
    assert_eq!(bump, expected_bump);
    assert_ne!(address.bytes, program().bytes);
    assert!(!expected.is_on_curve());
}

#[test]
fn derivation_depends_on_the_seeds_and_on_the_program() {
    let one = find_program_address(&vec![vec![1]], &program()).unwrap();
    let two = find_program_address(&vec![vec![2]], &program()).unwrap();
    let elsewhere = find_program_address(&vec![vec![1]], &Address::new([8u8; 32])).unwrap();
    assert_ne!(one.0, two.0);
    assert_ne!(one.0, elsewhere.0);
}

#[test]
fn derivation_without_seeds_succeeds() {
    let (address, bump) = find_program_address(&Vec::new(), &program()).unwrap();
    let (expected, expected_bump) = Pubkey::find_program_address(&[], &outside(&program()));
    assert_eq!(address.bytes, expected.to_bytes());
    assert_eq!(bump, expected_bump);
}

#[test]
fn derivation_from_a_seed_that_is_too_long_fails() {
    let derived = find_program_address(&vec![vec![0u8; 33]], &program());
    assert_eq!(derived, Err(Error::NoViableBump));
}

#[test]
fn derivation_from_too_many_seeds_fails() {
    let seeds: Vec<Vec<u8>> = (0..16u8).map(|n| vec![n]).collect();
    assert_eq!(find_program_address(&seeds, &program()), Err(Error::NoViableBump));
    let seeds: Vec<Vec<u8>> = (0..15u8).map(|n| vec![n]).collect();
    assert!(find_program_address(&seeds, &program()).is_ok());
}

#[test]
fn addresses_are_equal_by_their_bytes() {
    let mut bytes = [3u8; 32];
    assert_eq!(Address::new(bytes), Address { bytes });
    bytes[31] = 4;
    assert_ne!(Address::new(bytes), Address::new([3u8; 32]));
    bytes[31] = 3;
    bytes[0] = 4;
    assert_ne!(Address::new(bytes), Address::new([3u8; 32]));
    assert_eq!(Address::new([3u8; 32]).to_seed(), vec![3u8; 32]);
}

#[test]
fn the_authority_tag_is_auth() {
    assert_eq!(&AUTHORITY_TAG[..], "auth".as_bytes());
}

#[test]
fn the_delegated_authority_is_derived_from_the_tag() {
    let authority = DelegatedAuthority::derive(&program()).unwrap();
    let (expected, bump) = Pubkey::find_program_address(&[b"auth"], &outside(&program()));
    assert_eq!(authority.address.bytes, expected.to_bytes());
    assert_eq!(authority.bump, bump);
}

#[test]
fn the_signer_seeds_are_the_tag_and_the_bump_and_sign_for_the_authority() {
    let authority = DelegatedAuthority::derive(&program()).unwrap();
    let seeds = authority.signer_seeds();
    assert_eq!(seeds, vec![b"auth".to_vec(), vec![authority.bump]]);
    let parts: Vec<&[u8]> = seeds.iter().map(|seed| seed.as_slice()).collect();
    let signed_for = Pubkey::create_program_address(&parts, &outside(&program())).unwrap();
    assert_eq!(signed_for.to_bytes(), authority.address.bytes);
}

#[test]
fn verify_accepts_the_delegated_authority_only() {
    let authority = DelegatedAuthority::derive(&program()).unwrap();
    let verified = DelegatedAuthority::verify(&program(), &authority.address).unwrap();
    assert_eq!(verified.address, authority.address);
    assert_eq!(verified.bump, authority.bump);
    let refused = DelegatedAuthority::verify(&program(), &Address::new([9u8; 32]));
    assert_eq!(refused.unwrap_err(), Error::AuthorityMismatch);
    let elsewhere = DelegatedAuthority::verify(&Address::new([8u8; 32]), &authority.address);
    assert_eq!(elsewhere.unwrap_err(), Error::AuthorityMismatch);
}
