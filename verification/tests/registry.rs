use anchor_lang::solana_program::pubkey::Pubkey;
use nftfactory::registry::Registry;
use nftfactory::requests::{
    create_group, create_user, delete_user, Allocation, CreateGroup, CreateUser, DeleteUser,
    Refund,
};
use nftfactory::{find_program_address, Address, Error, ErrorClass, Group, User};

fn program() -> Address {
    Address::new([7u8; 32])
}

fn key(n: u8) -> Address {
    let mut bytes = [0u8; 32];
    bytes[0] = n;
    bytes[31] = 0xa5;
    Address::new(bytes)
}

fn record_address(key: &Address) -> Address {
    let (address, _) =
        Pubkey::find_program_address(&[&key.bytes[..]], &Pubkey::new_from_array(program().bytes));
    Address::new(address.to_bytes())
}

fn registered(registry: &mut Registry, payer: Address) -> Address {
    let account = record_address(&payer);
    let created = create_user(registry, &program(), &CreateUser { payer, account });
    assert!(created.is_ok());
    account
}

#[test]
fn create_user_allocates_an_empty_record_at_the_derived_address() {
    let mut registry = Registry::new();
    let payer = key(1);
    let account = record_address(&payer);
    let created = create_user(&mut registry, &program(), &CreateUser { payer, account });
    let Allocation { account: at, payer: by, space } = created.unwrap();
    assert_eq!(at, account);
    assert_eq!(by, payer);
    assert_eq!(space, 172);
    assert_eq!(space, User::LEN);
    let user = registry.user(&account).expect("the user exists");
    assert!(user.groups().is_empty());
    assert!(registry.is_allocated(&account));
    assert!(registry.group(&account).is_none());
}

#[test]
fn create_user_twice_fails_with_a_state_error() {
    let mut registry = Registry::new();
    let payer = key(1);
    let account = registered(&mut registry, payer);
    let again = create_user(&mut registry, &program(), &CreateUser { payer, account });
    assert_eq!(again.unwrap_err(), Error::AlreadyInitialized);
    assert_eq!(Error::AlreadyInitialized.class(), ErrorClass::State);
    assert!(registry.user(&account).is_some());
}

#[test]
fn create_user_at_another_address_fails_with_an_authorization_error() {
    let mut registry = Registry::new();
    let payer = key(1);
    let account = record_address(&key(2));
    let created = create_user(&mut registry, &program(), &CreateUser { payer, account });
    assert_eq!(created.unwrap_err(), Error::AddressMismatch);
    assert_eq!(Error::AddressMismatch.class(), ErrorClass::Authorization);
    assert!(!registry.is_allocated(&account));
    assert!(!registry.is_allocated(&record_address(&payer)));
}

#[test]
fn create_group_before_the_user_exists_fails_with_a_state_error() {
    let mut registry = Registry::new();
    let payer = key(1);
    let seed = key(50);
    let request =
        CreateGroup { payer, user: record_address(&payer), group: record_address(&seed) };
    let created = create_group(&mut registry, &program(), &request, seed);
    assert_eq!(created.unwrap_err(), Error::AccountMissing);
    assert_eq!(Error::AccountMissing.class(), ErrorClass::State);
    assert!(!registry.is_allocated(&request.group));
}

#[test]
fn create_group_records_the_owner_as_first_member_and_joins_the_user() {
    let mut registry = Registry::new();
    let payer = key(1);
    let user = registered(&mut registry, payer);
    let seed = key(50);
    let group = record_address(&seed);
    let created = create_group(&mut registry, &program(), &CreateGroup { payer, user, group }, seed);
    let Allocation { account, payer: by, space } = created.unwrap();
    assert_eq!(account, group);
    assert_eq!(by, payer);
    assert_eq!(space, 204);
    assert_eq!(space, Group::LEN);
    let record = registry.group(&group).expect("the group exists");
    assert_eq!(record.owner(), payer);
    assert_eq!(record.users(), &vec![payer]);
    assert_eq!(registry.user(&user).unwrap().groups(), &vec![group]);
}

#[test]
fn create_group_with_a_used_seed_fails_for_everyone() {
    let mut registry = Registry::new();
    let first = key(1);
    let second = key(2);
    let first_user = registered(&mut registry, first);
    let second_user = registered(&mut registry, second);
    let seed = key(50);
    let group = record_address(&seed);
    let created = create_group(
        &mut registry,
        &program(),
        &CreateGroup { payer: first, user: first_user, group },
        seed,
    );
    assert!(created.is_ok());
    let again = create_group(
        &mut registry,
        &program(),
        &CreateGroup { payer: second, user: second_user, group },
        seed,
    );
    assert_eq!(again.unwrap_err(), Error::AlreadyInitialized);
    let same = create_group(
        &mut registry,
        &program(),
        &CreateGroup { payer: first, user: first_user, group },
        seed,
    );
    assert_eq!(same.unwrap_err(), Error::AlreadyInitialized);
    assert_eq!(registry.group(&group).unwrap().owner(), first);
    assert!(registry.user(&second_user).unwrap().groups().is_empty());
    assert_eq!(registry.user(&first_user).unwrap().groups().len(), 1);
}

#[test]
fn create_group_with_the_users_own_key_as_seed_finds_the_address_taken() {
    let mut registry = Registry::new();
    let payer = key(1);
    let user = registered(&mut registry, payer);
    let created = create_group(
        &mut registry,
        &program(),
        &CreateGroup { payer, user, group: user },
        payer,
    );
    assert_eq!(created.unwrap_err(), Error::AlreadyInitialized);
    assert!(registry.user(&user).unwrap().groups().is_empty());
}

#[test]
fn create_group_at_another_address_fails_with_an_authorization_error() {
    let mut registry = Registry::new();
    let payer = key(1);
    let user = registered(&mut registry, payer);
    let seed = key(50);
    let group = record_address(&key(51));
    let created = create_group(&mut registry, &program(), &CreateGroup { payer, user, group }, seed);
    assert_eq!(created.unwrap_err(), Error::AddressMismatch);
    assert!(!registry.is_allocated(&group));
}

#[test]
fn create_group_through_another_users_record_fails_with_an_authorization_error() {
    let mut registry = Registry::new();
    let owner = key(1);
    let stranger = key(2);
    let user = registered(&mut registry, owner);
    let seed = key(50);
    let group = record_address(&seed);
    let created = create_group(
        &mut registry,
        &program(),
        &CreateGroup { payer: stranger, user, group },
        seed,
    );
    assert_eq!(created.unwrap_err(), Error::AddressMismatch);
    assert!(!registry.is_allocated(&group));
    assert!(registry.user(&user).unwrap().groups().is_empty());
}

#[test]
fn the_sixth_group_of_a_user_fails_with_capacity_exceeded() {
    let mut registry = Registry::new();
    let payer = key(1);
    let user = registered(&mut registry, payer);
    let mut groups = Vec::new();
    for n in 0..5u8 {
        let seed = key(100 + n);
        let group = record_address(&seed);
        let created =
            create_group(&mut registry, &program(), &CreateGroup { payer, user, group }, seed);
        assert!(created.is_ok());
        groups.push(group);
    }
    assert_eq!(registry.user(&user).unwrap().groups(), &groups);
    let seed = key(105);
    let group = record_address(&seed);
    let sixth = create_group(&mut registry, &program(), &CreateGroup { payer, user, group }, seed);
    assert_eq!(sixth.unwrap_err(), Error::CapacityExceeded);
    assert_eq!(Error::CapacityExceeded.class(), ErrorClass::State);
    assert!(!registry.is_allocated(&group));
    assert_eq!(registry.user(&user).unwrap().groups(), &groups);
}

#[test]
fn delete_user_by_another_key_fails_with_an_authorization_error() {
    let mut registry = Registry::new();
    let owner = key(1);
    let account = registered(&mut registry, owner);
    let deleted = delete_user(&mut registry, &program(), &DeleteUser { payer: key(2), account });
    assert_eq!(deleted.unwrap_err(), Error::AddressMismatch);
    assert_eq!(deleted.unwrap_err().class(), ErrorClass::Authorization);
    assert!(registry.user(&account).is_some());
}

#[test]
fn delete_user_by_the_owner_closes_the_record_and_refunds_the_owner() {
    let mut registry = Registry::new();
    let owner = key(1);
    let other = key(2);
    let account = registered(&mut registry, owner);
    let kept = registered(&mut registry, other);
    let deleted = delete_user(&mut registry, &program(), &DeleteUser { payer: owner, account });
    let Refund { account: closed, destination, space } = deleted.unwrap();
    assert_eq!(closed, account);
    assert_eq!(destination, owner);
    assert_eq!(space, User::LEN);
    assert!(registry.user(&account).is_none());
    assert!(!registry.is_allocated(&account));
    assert!(registry.user(&kept).is_some());
    let again = delete_user(&mut registry, &program(), &DeleteUser { payer: owner, account });
    assert_eq!(again.unwrap_err(), Error::AccountMissing);
    let back = create_user(&mut registry, &program(), &CreateUser { payer: owner, account });
    assert!(back.is_ok());
}

#[test]
fn delete_user_of_a_missing_record_fails_with_a_state_error() {
    let mut registry = Registry::new();
    let owner = key(1);
    let account = record_address(&owner);
    let deleted = delete_user(&mut registry, &program(), &DeleteUser { payer: owner, account });
    assert_eq!(deleted.unwrap_err(), Error::AccountMissing);
}

#[test]
fn delete_user_does_not_close_a_group() {
    let mut registry = Registry::new();
    let payer = key(1);
    let user = registered(&mut registry, payer);
    let seed = key(50);
    let group = record_address(&seed);
    create_group(&mut registry, &program(), &CreateGroup { payer, user, group }, seed).unwrap();
    let deleted = delete_user(&mut registry, &program(), &DeleteUser { payer: seed, account: group });
    assert_eq!(deleted.unwrap_err(), Error::AccountMissing);
    assert!(registry.group(&group).is_some());
}

#[test]
fn records_have_room_for_five_addresses() {
    assert_eq!(User::LEN, 8 + 4 + 5 * 32);
    assert_eq!(Group::LEN, 8 + 32 + 4 + 5 * 32);
    assert_eq!(nftfactory::records::MEMBERSHIP_CAPACITY, 5);
}

#[test]
fn a_user_joins_at_most_five_groups() {
    let mut user = User::new();
    for n in 0..5u8 {
        assert_eq!(user.join(key(n)), Ok(()));
    }
    assert_eq!(user.join(key(9)), Err(Error::CapacityExceeded));
    assert_eq!(user.groups(), &vec![key(0), key(1), key(2), key(3), key(4)]);
}

#[test]
fn a_new_group_has_its_owner_as_only_member() {
    let group = Group::new(key(3));
    assert_eq!(group.owner(), key(3));
    assert_eq!(group.users(), &vec![key(3)]);
}

#[test]
fn record_addresses_are_the_runtimes() {
    let payer = key(1);
    let derived = find_program_address(&vec![payer.bytes.to_vec()], &program()).unwrap();
    assert_eq!(derived.0, record_address(&payer));
    let found = nftfactory::requests::find_record_address(&program(), &payer).unwrap();
    assert_eq!(found, derived);
}
