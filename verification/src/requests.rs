//! The requests that change the registry: registering a user, removing a
//! user and forming a group.
//!
//! A request names the accounts it touches. Each named account must be the
//! one that the program derives from the key it belongs to, so that a key
//! has one user record and a group seed one group. A request that fails
//! changes nothing.

use crate::address::{find_program_address, program_address, seeds_view, Address};
use crate::error::{Error, ErrorClass};
use crate::records::{Group, GroupView, User, UserView, MEMBERSHIP_CAPACITY};
use crate::registry::{holds_user, Account, AccountView, Accounts, Registry};
use vstd::prelude::*;

verus! {

/// The address derived from the single seed `key` under `program_id`.
pub open spec fn derived_address(program_id: Seq<u8>, key: Seq<u8>) -> Option<Seq<u8>> {
    match program_address(seq![key], program_id) {
        Some((address, _)) => Some(address),
        None => None,
    }
}

/// The accounts of a request to register the payer as a user.
#[derive(Clone, Copy, Debug)]
pub struct CreateUser {
    /// The key that signs the request, pays for the record and owns it.
    pub payer: Address,
    /// The account to create: the one derived from the payer's key.
    pub account: Address,
}

/// The accounts of a request to remove the payer's user record.
#[derive(Clone, Copy, Debug)]
pub struct DeleteUser {
    /// The key that signs the request and receives the refund.
    pub payer: Address,
    /// The account to close: the one derived from the payer's key.
    pub account: Address,
}

/// The accounts of a request to form a group.
#[derive(Clone, Copy, Debug)]
pub struct CreateGroup {
    /// The key that signs the request, pays for the record and owns the group.
    pub payer: Address,
    /// The payer's user record: the account derived from the payer's key.
    pub user: Address,
    /// The account to create: the one derived from the group seed.
    pub group: Address,
}

/// Storage that a request reserved for a new record.
#[derive(Clone, Copy, Debug)]
pub struct Allocation {
    /// The account that was created.
    pub account: Address,
    /// The key that paid the deposit for it.
    pub payer: Address,
    /// The size of the record in bytes.
    pub space: usize,
}

/// Storage that a request gave back by closing a record.
#[derive(Clone, Copy, Debug)]
pub struct Refund {
    /// The account that was closed.
    pub account: Address,
    /// The key that receives the deposit.
    pub destination: Address,
    /// The size of the record in bytes.
    pub space: usize,
}

/// What `create_user` does to the records: the records afterwards, or the
/// failure.
pub open spec fn create_user_spec(
    accounts: Accounts,
    program_id: Seq<u8>,
    request: CreateUser,
) -> Result<Accounts, Error> {
    match derived_address(program_id, request.payer@) {
        None => Err(Error::NoViableBump),
        Some(address) => if request.account@ != address {
            Err(Error::AddressMismatch)
        } else if accounts.contains_key(address) {
            Err(Error::AlreadyInitialized)
        } else {
            Ok(accounts.insert(address, AccountView::User(UserView { groups: seq![] })))
        },
    }
}

/// What `delete_user` does to the records: the records afterwards, or the
/// failure.
pub open spec fn delete_user_spec(
    accounts: Accounts,
    program_id: Seq<u8>,
    request: DeleteUser,
) -> Result<Accounts, Error> {
    if !holds_user(accounts, request.account@) {
        Err(Error::AccountMissing)
    } else {
        match derived_address(program_id, request.payer@) {
            None => Err(Error::NoViableBump),
            Some(address) => if request.account@ != address {
                Err(Error::AddressMismatch)
            } else {
                Ok(accounts.remove(address))
            },
        }
    }
}

/// What `create_group` does to the records: the records afterwards, or the
/// failure.
pub open spec fn create_group_spec(
    accounts: Accounts,
    program_id: Seq<u8>,
    request: CreateGroup,
    group_seed: Seq<u8>,
) -> Result<Accounts, Error> {
    if !holds_user(accounts, request.user@) {
        Err(Error::AccountMissing)
    } else {
        match derived_address(program_id, group_seed) {
            None => Err(Error::NoViableBump),
            Some(group_address) => if request.group@ != group_address {
                Err(Error::AddressMismatch)
            } else if accounts.contains_key(group_address) {
                Err(Error::AlreadyInitialized)
            } else {
                match derived_address(program_id, request.payer@) {
                    None => Err(Error::NoViableBump),
                    Some(user_address) => if request.user@ != user_address {
                        Err(Error::AddressMismatch)
                    } else {
                        let groups = accounts[user_address]->User_0.groups;
                        if groups.len() >= MEMBERSHIP_CAPACITY {
                            Err(Error::CapacityExceeded)
                        } else {
                            Ok(
                                accounts.insert(
                                    group_address,
                                    AccountView::Group(
                                        GroupView {
                                            owner: request.payer@,
                                            users: seq![request.payer@],
                                        },
                                    ),
                                ).insert(
                                    user_address,
                                    AccountView::User(
                                        UserView { groups: groups.push(group_address) },
                                    ),
                                ),
                            )
                        }
                    },
                }
            },
        }
    }
}

/// Derives the address of the record that belongs to `key`: the user record
/// of an owning key, or the group record of a group seed.
///
/// Fails with `NoViableBump` exactly when the derivation rule gives no
/// address for the key.
pub fn find_record_address(program_id: &Address, key: &Address) -> (derived: Result<
    (Address, u8),
    Error,
>)
    ensures
        match derived {
            Ok((address, bump)) => program_address(seq![key@], program_id@) == Some(
                (address@, bump),
            ) && derived_address(program_id@, key@) == Some(address@),
            Err(e) => e == Error::NoViableBump && derived_address(program_id@, key@) is None,
        },
{
    let mut seeds: Vec<Vec<u8>> = Vec::new();
    seeds.push(key.to_seed());
    assert(seeds_view(seeds@) =~= seq![key@]);
    find_program_address(&seeds, program_id)
}

/// Registers the payer as a user: creates an empty user record at the
/// address derived from the payer's key, paid for by the payer.
///
/// Fails, and leaves the registry as it was, with `NoViableBump` when the
/// payer's key derives no address, else with `AddressMismatch` when
/// `accounts.account` is not the derived address, else with
/// `AlreadyInitialized` when a record already sits there.
pub fn create_user(registry: &mut Registry, program_id: &Address, accounts: &CreateUser) -> (created:
    Result<Allocation, Error>)
    requires
        old(registry).wf(),
    ensures
        final(registry).wf(),
        match created {
            Ok(allocation) => {
                &&& create_user_spec(old(registry)@, program_id@, *accounts) == Ok::<
                    Accounts,
                    Error,
                >(final(registry)@)
                &&& allocation == (Allocation {
                    account: accounts.account,
                    payer: accounts.payer,
                    space: User::LEN,
                })
            },
            Err(e) => {
                &&& create_user_spec(old(registry)@, program_id@, *accounts) == Err::<
                    Accounts,
                    Error,
                >(e)
                &&& final(registry)@ == old(registry)@
            },
        },
{
    let (address, _) = match find_record_address(program_id, &accounts.payer) {
        Ok(found) => found,
        Err(e) => {
            return Err(e);
        },
    };
    if accounts.account != address {
        return Err(Error::AddressMismatch);
    }
    if registry.is_allocated(&address) {
        return Err(Error::AlreadyInitialized);
    }
    registry.insert(address, Account::User(User::new()));
    Ok(Allocation { account: accounts.account, payer: accounts.payer, space: User::LEN })
}

/// Removes the payer's user record and refunds its deposit to the payer.
///
/// Fails, and leaves the registry as it was, with `AccountMissing` when no
/// user record sits at `accounts.account`, else with `NoViableBump` when the
/// payer's key derives no address, else with `AddressMismatch` when the
/// record is not the one derived from the payer's key.
pub fn delete_user(registry: &mut Registry, program_id: &Address, accounts: &DeleteUser) -> (deleted:
    Result<Refund, Error>)
    requires
        old(registry).wf(),
    ensures
        final(registry).wf(),
        match deleted {
            Ok(refund) => {
                &&& delete_user_spec(old(registry)@, program_id@, *accounts) == Ok::<
                    Accounts,
                    Error,
                >(final(registry)@)
                &&& refund == (Refund {
                    account: accounts.account,
                    destination: accounts.payer,
                    space: User::LEN,
                })
            },
            Err(e) => {
                &&& delete_user_spec(old(registry)@, program_id@, *accounts) == Err::<
                    Accounts,
                    Error,
                >(e)
                &&& final(registry)@ == old(registry)@
            },
        },
{
    if registry.user(&accounts.account).is_none() {
        return Err(Error::AccountMissing);
    }
    let (address, _) = match find_record_address(program_id, &accounts.payer) {
        Ok(found) => found,
        Err(e) => {
            return Err(e);
        },
    };
    if accounts.account != address {
        return Err(Error::AddressMismatch);
    }
    registry.remove(&address);
    Ok(Refund { account: accounts.account, destination: accounts.payer, space: User::LEN })
}

/// Forms a group: creates a group record at the address derived from
/// `group_seed`, owned by the payer and with the payer as its only member,
/// and adds the group to the payer's user record.
///
/// Fails, and leaves the registry as it was, with `AccountMissing` when no
/// user record sits at `accounts.user`; else with `NoViableBump` when the
/// group seed derives no address; else with `AddressMismatch` when
/// `accounts.group` is not the derived address; else with
/// `AlreadyInitialized` when a record already sits there; else with
/// `NoViableBump` when the payer's key derives no address; else with
/// `AddressMismatch` when the user record is not the one derived from the
/// payer's key; else with `CapacityExceeded` when the user's list of groups
/// is full.
pub fn create_group(
    registry: &mut Registry,
    program_id: &Address,
    accounts: &CreateGroup,
    group_seed: Address,
) -> (created: Result<Allocation, Error>)
    requires
        old(registry).wf(),
    ensures
        final(registry).wf(),
        match created {
            Ok(allocation) => {
                &&& create_group_spec(old(registry)@, program_id@, *accounts, group_seed@) == Ok::<
                    Accounts,
                    Error,
                >(final(registry)@)
                &&& allocation == (Allocation {
                    account: accounts.group,
                    payer: accounts.payer,
                    space: Group::LEN,
                })
            },
            Err(e) => {
                &&& create_group_spec(old(registry)@, program_id@, *accounts, group_seed@) == Err::<
                    Accounts,
                    Error,
                >(e)
                &&& final(registry)@ == old(registry)@
            },
        },
{
    let joined = match registry.user(&accounts.user) {
        Some(user) => user.groups().len(),
        None => {
            return Err(Error::AccountMissing);
        },
    };
    let (group_address, _) = match find_record_address(program_id, &group_seed) {
        Ok(found) => found,
        Err(e) => {
            return Err(e);
        },
    };
    if accounts.group != group_address {
        return Err(Error::AddressMismatch);
    }
    if registry.is_allocated(&group_address) {
        return Err(Error::AlreadyInitialized);
    }
    let (user_address, _) = match find_record_address(program_id, &accounts.payer) {
        Ok(found) => found,
        Err(e) => {
            return Err(e);
        },
    };
    if accounts.user != user_address {
        return Err(Error::AddressMismatch);
    }
    if joined >= MEMBERSHIP_CAPACITY {
        return Err(Error::CapacityExceeded);
    }
    registry.insert(group_address, Account::Group(Group::new(accounts.payer)));
    registry.add_membership(&user_address, group_address);
    Ok(Allocation { account: accounts.group, payer: accounts.payer, space: Group::LEN })
}

/// A key registers once: after `create_user` has succeeded for a payer,
/// `create_user` for the same payer fails. It fails with
/// `AlreadyInitialized`, a state failure, when it names the payer's account
/// again, and with `AddressMismatch` when it names another account.
pub proof fn lemma_create_user_twice_fails(
    accounts: Accounts,
    program_id: Seq<u8>,
    first: CreateUser,
    second: CreateUser,
)
    requires
        create_user_spec(accounts, program_id, first) is Ok,
        second.payer@ == first.payer@,
    ensures
        ({
            let after = create_user_spec(accounts, program_id, first)->Ok_0;
            let again = create_user_spec(after, program_id, second);
            &&& again is Err
            &&& second.account@ == first.account@ ==> again == Err::<Accounts, Error>(
                Error::AlreadyInitialized,
            )
            &&& second.account@ != first.account@ ==> again == Err::<Accounts, Error>(
                Error::AddressMismatch,
            )
            &&& Error::AlreadyInitialized.spec_class() == ErrorClass::State
        }),
{
}

/// A group needs its creator's user record: `create_group` fails with
/// `AccountMissing`, a state failure, whenever no user record sits at the
/// account that the request names as the creator's.
pub proof fn lemma_create_group_needs_user(
    accounts: Accounts,
    program_id: Seq<u8>,
    request: CreateGroup,
    group_seed: Seq<u8>,
)
    requires
        !holds_user(accounts, request.user@),
    ensures
        create_group_spec(accounts, program_id, request, group_seed) == Err::<Accounts, Error>(
            Error::AccountMissing,
        ),
        Error::AccountMissing.spec_class() == ErrorClass::State,
{
}

/// A group seed is used once: after `create_group` has succeeded for a seed,
/// no `create_group` with the same seed succeeds, whoever asks. A request
/// that names the group's account fails with a state failure:
/// `AccountMissing` without a user record, `AlreadyInitialized` otherwise.
pub proof fn lemma_group_seed_used_once(
    accounts: Accounts,
    program_id: Seq<u8>,
    first: CreateGroup,
    second: CreateGroup,
    group_seed: Seq<u8>,
)
    requires
        create_group_spec(accounts, program_id, first, group_seed) is Ok,
    ensures
        ({
            let after = create_group_spec(accounts, program_id, first, group_seed)->Ok_0;
            let again = create_group_spec(after, program_id, second, group_seed);
            &&& again is Err
            &&& second.group@ == first.group@ ==> again->Err_0.spec_class() == ErrorClass::State
            &&& (second.group@ == first.group@ && holds_user(after, second.user@)) ==> again
                == Err::<Accounts, Error>(Error::AlreadyInitialized)
        }),
{
}

/// A successful `create_group` leaves the group at the address derived from
/// its seed, owned by the payer and with the payer as its first and only
/// member, and the group as the newest entry of the payer's user record.
pub proof fn lemma_create_group_records(
    accounts: Accounts,
    program_id: Seq<u8>,
    request: CreateGroup,
    group_seed: Seq<u8>,
)
    requires
        create_group_spec(accounts, program_id, request, group_seed) is Ok,
    ensures
        ({
            let after = create_group_spec(accounts, program_id, request, group_seed)->Ok_0;
            &&& derived_address(program_id, group_seed) == Some(request.group@)
            &&& derived_address(program_id, request.payer@) == Some(request.user@)
            &&& request.group@ != request.user@
            &&& after.contains_key(request.group@)
            &&& after[request.group@] == AccountView::Group(
                GroupView { owner: request.payer@, users: seq![request.payer@] },
            )
            &&& after[request.group@].well_formed()
            &&& after.contains_key(request.user@)
            &&& after[request.user@] == AccountView::User(
                UserView {
                    groups: accounts[request.user@]->User_0.groups.push(request.group@),
                },
            )
            &&& forall|other: Seq<u8>|
                other != request.group@ && other != request.user@ ==> (after.contains_key(other)
                    <==> accounts.contains_key(other)) && (accounts.contains_key(other)
                    ==> after[other] == accounts[other])
        }),
{
}

/// Only the owning key deletes a user: `delete_user` of an existing user
/// record by a payer whose key derives another address fails with
/// `AddressMismatch`, an authorization failure, and changes nothing.
pub proof fn lemma_delete_user_by_other_key_fails(
    accounts: Accounts,
    program_id: Seq<u8>,
    request: DeleteUser,
)
    requires
        holds_user(accounts, request.account@),
        derived_address(program_id, request.payer@) is Some,
        derived_address(program_id, request.payer@) != Some(request.account@),
    ensures
        delete_user_spec(accounts, program_id, request) == Err::<Accounts, Error>(
            Error::AddressMismatch,
        ),
        Error::AddressMismatch.spec_class() == ErrorClass::Authorization,
{
}

/// The owning key deletes its user: `delete_user` of an existing user record
/// by the payer whose key derives its address succeeds, and afterwards no
/// record sits at the address, so that a second `delete_user` fails with
/// `AccountMissing` and a `create_user` by the same payer succeeds again.
pub proof fn lemma_delete_user_by_owner_succeeds(
    accounts: Accounts,
    program_id: Seq<u8>,
    request: DeleteUser,
)
    requires
        holds_user(accounts, request.account@),
        derived_address(program_id, request.payer@) == Some(request.account@),
    ensures
        ({
            let deleted = delete_user_spec(accounts, program_id, request);
            &&& deleted == Ok::<Accounts, Error>(accounts.remove(request.account@))
            &&& !deleted->Ok_0.contains_key(request.account@)
            &&& delete_user_spec(deleted->Ok_0, program_id, request) == Err::<Accounts, Error>(
                Error::AccountMissing,
            )
            &&& create_user_spec(
                deleted->Ok_0,
                program_id,
                CreateUser { payer: request.payer, account: request.account },
            ) is Ok
        }),
{
}

/// Every request keeps the records well formed: no membership list grows
/// past its capacity, and every group keeps its owner as its first member.
pub proof fn lemma_requests_keep_records_well_formed(
    accounts: Accounts,
    program_id: Seq<u8>,
    user: CreateUser,
    gone: DeleteUser,
    group: CreateGroup,
    group_seed: Seq<u8>,
)
    requires
        forall|address: Seq<u8>|
            accounts.contains_key(address) ==> (#[trigger] accounts[address]).well_formed(),
    ensures
        create_user_spec(accounts, program_id, user) matches Ok(after) ==> forall|address: Seq<u8>|
            after.contains_key(address) ==> (#[trigger] after[address]).well_formed(),
        delete_user_spec(accounts, program_id, gone) matches Ok(after) ==> forall|address: Seq<u8>|
            after.contains_key(address) ==> (#[trigger] after[address]).well_formed(),
        create_group_spec(accounts, program_id, group, group_seed) matches Ok(after) ==> forall|
            address: Seq<u8>,
        |
            after.contains_key(address) ==> (#[trigger] after[address]).well_formed(),
{
    if let Ok(after) = create_group_spec(accounts, program_id, group, group_seed) {
        assert(accounts[group.user@].well_formed());
    }
}

} // verus!
