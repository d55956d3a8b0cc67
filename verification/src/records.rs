//! The two records that the registry stores: users and groups.

use crate::address::Address;
use crate::error::Error;
use vstd::prelude::*;

verus! {

/// The number of entries that a membership list can hold.
pub const MEMBERSHIP_CAPACITY: usize = 5;

/// The bytes of each address of a list.
pub open spec fn addresses_view(addresses: Seq<Address>) -> Seq<Seq<u8>> {
    addresses.map_values(|address: Address| address@)
}

/// What a user record holds: the groups it belongs to, oldest first.
pub struct UserView {
    pub groups: Seq<Seq<u8>>,
}

/// What a group record holds: its owner and its members, oldest first.
pub struct GroupView {
    pub owner: Seq<u8>,
    pub users: Seq<Seq<u8>>,
}

impl UserView {
    /// A user belongs to at most `MEMBERSHIP_CAPACITY` groups.
    pub open spec fn well_formed(self) -> bool {
        self.groups.len() <= MEMBERSHIP_CAPACITY
    }
}

impl GroupView {
    /// A group has at most `MEMBERSHIP_CAPACITY` members, and its owner is
    /// the first of them.
    pub open spec fn well_formed(self) -> bool {
        &&& 1 <= self.users.len() <= MEMBERSHIP_CAPACITY
        &&& self.users[0] == self.owner
    }
}

/// A stored record has room for exactly `MEMBERSHIP_CAPACITY` addresses of 32
/// bytes each, behind its tag, its fixed fields and the length of the list.
pub proof fn lemma_record_sizes()
    ensures
        User::LEN == 8 + 4 + MEMBERSHIP_CAPACITY * 32,
        Group::LEN == 8 + 32 + 4 + MEMBERSHIP_CAPACITY * 32,
{
}

/// A registered participant.
#[derive(Clone, Debug, PartialEq, Eq)]
pub struct User {
    groups: Vec<Address>,
}

impl View for User {
    type V = UserView;

    closed spec fn view(&self) -> UserView {
        UserView { groups: addresses_view(self.groups@) }
    }
}

impl User {
    /// The size in bytes of a stored user record: an 8-byte tag, a 4-byte
    /// length and room for `MEMBERSHIP_CAPACITY` addresses.
    pub const LEN: usize = 8 + 4 + 5 * 32;

    /// The record holds no more groups than a stored record has room for.
    pub closed spec fn wf(&self) -> bool {
        self.groups@.len() <= MEMBERSHIP_CAPACITY
    }

    /// A valid record has a well-formed view.
    pub proof fn lemma_wf_view(&self)
        requires
            self.wf(),
        ensures
            self@.well_formed(),
    {
    }

    /// A user that belongs to no group.
    pub fn new() -> (user: User)
        ensures
            user.wf(),
            user@.groups == Seq::<Seq<u8>>::empty(),
    {
        let user = User { groups: Vec::new() };
        assert(user@.groups =~= Seq::<Seq<u8>>::empty());
        user
    }

    /// The groups that the user belongs to, oldest first.
    pub fn groups(&self) -> (groups: &Vec<Address>)
        ensures
            addresses_view(groups@) == self@.groups,
    {
        &self.groups
    }

    /// Records that the user belongs to `group`, as the newest of its groups.
    ///
    /// Fails with `CapacityExceeded`, and leaves the user as it was, exactly
    /// when the list is full.
    pub fn join(&mut self, group: Address) -> (joined: Result<(), Error>)
        requires
            old(self).wf(),
        ensures
            final(self).wf(),
            match joined {
                Ok(()) => {
                    &&& old(self)@.groups.len() < MEMBERSHIP_CAPACITY
                    &&& final(self)@.groups == old(self)@.groups.push(group@)
                },
                Err(e) => {
                    &&& e == Error::CapacityExceeded
                    &&& old(self)@.groups.len() == MEMBERSHIP_CAPACITY
                    &&& final(self)@ == old(self)@
                },
            },
    {
        if self.groups.len() >= MEMBERSHIP_CAPACITY {
            return Err(Error::CapacityExceeded);
        }
        self.groups.push(group);
        assert(final(self)@.groups =~= old(self)@.groups.push(group@));
        Ok(())
    }
}

/// A collection of users under one owner.
#[derive(Clone, Debug, PartialEq, Eq)]
pub struct Group {
    owner: Address,
    users: Vec<Address>,
}

impl View for Group {
    type V = GroupView;

    closed spec fn view(&self) -> GroupView {
        GroupView { owner: self.owner@, users: addresses_view(self.users@) }
    }
}

impl Group {
    /// The size in bytes of a stored group record: an 8-byte tag, the owner,
    /// a 4-byte length and room for `MEMBERSHIP_CAPACITY` addresses.
    pub const LEN: usize = 8 + 32 + 4 + 5 * 32;

    /// The record holds no more members than a stored record has room for,
    /// and its owner is the first of them.
    pub closed spec fn wf(&self) -> bool {
        &&& 1 <= self.users@.len() <= MEMBERSHIP_CAPACITY
        &&& self.users@[0]@ == self.owner@
    }

    /// A valid record has a well-formed view.
    pub proof fn lemma_wf_view(&self)
        requires
            self.wf(),
        ensures
            self@.well_formed(),
    {
    }

    /// The group that `owner` creates: `owner` owns it and is its only
    /// member.
    pub fn new(owner: Address) -> (group: Group)
        ensures
            group.wf(),
            group@ == (GroupView { owner: owner@, users: seq![owner@] }),
    {
        let mut users: Vec<Address> = Vec::new();
        users.push(owner);
        let group = Group { owner, users };
        assert(group@.users =~= seq![owner@]);
        group
    }

    /// The owner of the group.
    pub fn owner(&self) -> (owner: Address)
        ensures
            owner@ == self@.owner,
    {
        self.owner
    }

    /// The members of the group, oldest first.
    pub fn users(&self) -> (users: &Vec<Address>)
        ensures
            addresses_view(users@) == self@.users,
    {
        &self.users
    }
}

} // verus!
