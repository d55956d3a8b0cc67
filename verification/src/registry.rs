//! The account registry: which user and group records exist, and at which
//! addresses.

use crate::address::Address;
use crate::records::{Group, GroupView, User, UserView, MEMBERSHIP_CAPACITY};
use vstd::prelude::*;

verus! {

/// A record of the registry.
#[derive(Debug)]
pub enum Account {
    User(User),
    Group(Group),
}

/// What a record of the registry holds.
pub enum AccountView {
    User(UserView),
    Group(GroupView),
}

impl View for Account {
    type V = AccountView;

    open spec fn view(&self) -> AccountView {
        match self {
            Account::User(user) => AccountView::User(user@),
            Account::Group(group) => AccountView::Group(group@),
        }
    }
}

impl Account {
    /// The record inside is valid.
    pub open spec fn wf(&self) -> bool {
        match self {
            Account::User(user) => user.wf(),
            Account::Group(group) => group.wf(),
        }
    }
}

impl AccountView {
    /// The record inside is well formed.
    pub open spec fn well_formed(self) -> bool {
        match self {
            AccountView::User(user) => user.well_formed(),
            AccountView::Group(group) => group.well_formed(),
        }
    }
}

/// The records of a registry by address.
pub type Accounts = Map<Seq<u8>, AccountView>;

#[derive(Debug)]
struct Entry {
    address: Address,
    account: Account,
}

/// The records that exist, each at its own address.
#[derive(Debug)]
pub struct Registry {
    entries: Vec<Entry>,
}

/// Whether a user record sits at `address`.
pub open spec fn holds_user(accounts: Accounts, address: Seq<u8>) -> bool {
    accounts.contains_key(address) && accounts[address] is User
}

/// Whether a group record sits at `address`.
pub open spec fn holds_group(accounts: Accounts, address: Seq<u8>) -> bool {
    accounts.contains_key(address) && accounts[address] is Group
}

impl View for Registry {
    type V = Accounts;

    closed spec fn view(&self) -> Accounts {
        Map::new(
            |key: Seq<u8>| self.holds(key),
            |key: Seq<u8>| self.entries@[self.position(key)].account@,
        )
    }
}

impl Registry {
    /// No address holds two records, and every record is valid.
    pub closed spec fn wf(&self) -> bool {
        &&& forall|i: int, j: int|
            0 <= i < j < self.entries@.len() ==> #[trigger] self.entries@[i].address@
                != #[trigger] self.entries@[j].address@
        &&& forall|i: int| 0 <= i < self.entries@.len() ==> #[trigger] self.entries@[i].account.wf()
    }

    /// A registry without records.
    pub fn new() -> (registry: Registry)
        ensures
            registry.wf(),
            registry@ == Accounts::empty(),
    {
        let registry = Registry { entries: Vec::new() };
        assert(registry@ =~= Accounts::empty());
        registry
    }

    /// The user record at `address`, if there is one.
    pub fn user(&self, address: &Address) -> (found: Option<&User>)
        requires
            self.wf(),
        ensures
            match found {
                Some(user) => user.wf() && self@.contains_key(address@) && self@[address@]
                    == AccountView::User(user@),
                None => !holds_user(self@, address@),
            },
    {
        match self.find(address) {
            Some(i) => {
                proof {
                    self.lemma_holds_at(address@);
                    assert(self.entries@[i as int].account.wf());
                }
                match &self.entries[i].account {
                    Account::User(user) => Some(user),
                    Account::Group(_) => None,
                }
            },
            None => None,
        }
    }

    /// The group record at `address`, if there is one.
    pub fn group(&self, address: &Address) -> (found: Option<&Group>)
        requires
            self.wf(),
        ensures
            match found {
                Some(group) => group.wf() && self@.contains_key(address@) && self@[address@]
                    == AccountView::Group(group@),
                None => !holds_group(self@, address@),
            },
    {
        match self.find(address) {
            Some(i) => {
                proof {
                    self.lemma_holds_at(address@);
                    assert(self.entries@[i as int].account.wf());
                }
                match &self.entries[i].account {
                    Account::Group(group) => Some(group),
                    Account::User(_) => None,
                }
            },
            None => None,
        }
    }

    /// Whether any record sits at `address`.
    pub fn is_allocated(&self, address: &Address) -> (allocated: bool)
        requires
            self.wf(),
        ensures
            allocated == self@.contains_key(address@),
    {
        self.find(address).is_some()
    }

    /// Every record of a valid registry is well formed.
    pub proof fn lemma_records_well_formed(&self, address: Seq<u8>)
        requires
            self.wf(),
            self@.contains_key(address),
        ensures
            self@[address].well_formed(),
    {
        self.lemma_holds_at(address);
        let account = self.entries@[self.position(address)].account;
        assert(account.wf());
        match account {
            Account::User(user) => user.lemma_wf_view(),
            Account::Group(group) => group.lemma_wf_view(),
        }
    }

    /// Puts `account` at `address`, where no record sits yet.
    pub(crate) fn insert(&mut self, address: Address, account: Account)
        requires
            old(self).wf(),
            account.wf(),
            !old(self)@.contains_key(address@),
        ensures
            final(self).wf(),
            final(self)@ == old(self)@.insert(address@, account@),
    {
        let ghost before = *self;
        let entry = Entry { address, account };
        self.entries.push(entry);
        proof {
            self.lemma_pushed(before, entry);
        }
    }

    /// Takes away the record at `address`.
    pub(crate) fn remove(&mut self, address: &Address)
        requires
            old(self).wf(),
            old(self)@.contains_key(address@),
        ensures
            final(self).wf(),
            final(self)@ == old(self)@.remove(address@),
    {
        let ghost before = *self;
        match self.find(address) {
            Some(at) => {
                self.entries.remove(at);
                proof {
                    self.lemma_removed(before, at as int);
                }
            },
            None => {},
        }
    }

    /// Adds `group` to the groups of the user at `user`, whose list has
    /// room for it.
    pub(crate) fn add_membership(&mut self, user: &Address, group: Address)
        requires
            old(self).wf(),
            holds_user(old(self)@, user@),
            old(self)@[user@]->User_0.groups.len() < MEMBERSHIP_CAPACITY,
        ensures
            final(self).wf(),
            final(self)@ == old(self)@.insert(
                user@,
                AccountView::User(
                    UserView { groups: old(self)@[user@]->User_0.groups.push(group@) },
                ),
            ),
    {
        let ghost before = *self;
        match self.find(user) {
            Some(at) => {
                proof {
                    self.lemma_holds_at(user@);
                    assert(self.entries@[at as int].account.wf());
                }
                match &mut self.entries[at].account {
                    Account::User(record) => {
                        let _ = record.join(group);
                    },
                    Account::Group(_) => {},
                }
                proof {
                    self.lemma_replaced(before, at as int, self.entries@[at as int].account);
                }
            },
            None => {},
        }
    }
}

impl Registry {
    spec fn holds(&self, key: Seq<u8>) -> bool {
        exists|i: int| 0 <= i < self.entries@.len() && #[trigger] self.entries@[i].address@ == key
    }

    spec fn position(&self, key: Seq<u8>) -> int {
        choose|i: int| 0 <= i < self.entries@.len() && #[trigger] self.entries@[i].address@ == key
    }

    fn find(&self, address: &Address) -> (found: Option<usize>)
        requires
            self.wf(),
        ensures
            match found {
                Some(i) => i < self.entries@.len() && self.entries@[i as int].address@ == address@
                    && self.position(address@) == i && self.holds(address@),
                None => !self.holds(address@),
            },
    {
        let mut i: usize = 0;
        while i < self.entries.len()
            invariant
                self.wf(),
                i <= self.entries@.len(),
                forall|j: int| 0 <= j < i ==> #[trigger] self.entries@[j].address@ != address@,
            decreases self.entries@.len() - i,
        {
            if self.entries[i].address == *address {
                proof {
                    self.lemma_position(i as int);
                }
                return Some(i);
            }
            i += 1;
        }
        None
    }

    proof fn lemma_position(&self, i: int)
        requires
            self.wf(),
            0 <= i < self.entries@.len(),
        ensures
            self.holds(self.entries@[i].address@),
            self.position(self.entries@[i].address@) == i,
    {
        let key = self.entries@[i].address@;
        let p = self.position(key);
        assert(0 <= p < self.entries@.len() && self.entries@[p].address@ == key);
        if p < i {
            assert(self.entries@[p].address@ != self.entries@[i].address@);
        } else if i < p {
            assert(self.entries@[i].address@ != self.entries@[p].address@);
        }
    }

    proof fn lemma_holds_at(&self, key: Seq<u8>)
        requires
            self.wf(),
            self.holds(key),
        ensures
            0 <= self.position(key) < self.entries@.len(),
            self.entries@[self.position(key)].address@ == key,
            self@.contains_key(key),
            self@[key] == self.entries@[self.position(key)].account@,
    {
    }

    proof fn lemma_pushed(&self, before: Registry, entry: Entry)
        requires
            before.wf(),
            !before.holds(entry.address@),
            entry.account.wf(),
            self.entries@ == before.entries@.push(entry),
        ensures
            self.wf(),
            self@ == before@.insert(entry.address@, entry.account@),
    {
        let n = before.entries@.len() as int;
        assert forall|i: int, j: int| 0 <= i < j < self.entries@.len() implies #[trigger] self.entries@[i].address@
            != #[trigger] self.entries@[j].address@ by {
            if j < n {
                assert(before.entries@[i].address@ != before.entries@[j].address@);
            } else {
                assert(before.entries@[i].address@ == self.entries@[i].address@);
            }
        }
        assert forall|i: int| 0 <= i < self.entries@.len() implies #[trigger] self.entries@[i].account.wf() by {
            if i < n {
                assert(before.entries@[i].account.wf());
            }
        }
        let goal = before@.insert(entry.address@, entry.account@);
        assert forall|key: Seq<u8>| self@.contains_key(key) <==> goal.contains_key(key) by {
            if self.holds(key) {
                let p = self.position(key);
                if p < n {
                    assert(before.entries@[p].address@ == key);
                }
            }
            if before.holds(key) {
                let p = before.position(key);
                assert(self.entries@[p].address@ == key);
            }
            if key == entry.address@ {
                assert(self.entries@[n].address@ == key);
            }
        }
        assert forall|key: Seq<u8>| self@.contains_key(key) implies self@[key] == goal[key] by {
            let p = self.position(key);
            if p < n {
                assert(before.entries@[p].address@ == key);
                before.lemma_position(p);
            }
        }
        assert(self@ =~= goal);
    }

    proof fn lemma_removed(&self, before: Registry, at: int)
        requires
            before.wf(),
            0 <= at < before.entries@.len(),
            self.entries@ == before.entries@.remove(at),
        ensures
            self.wf(),
            self@ == before@.remove(before.entries@[at].address@),
    {
        let gone = before.entries@[at].address@;
        let shift = |i: int| if i < at { i } else { i + 1 };
        assert forall|i: int| 0 <= i < self.entries@.len() implies self.entries@[i]
            == before.entries@[shift(i)] by {}
        assert forall|i: int, j: int| 0 <= i < j < self.entries@.len() implies #[trigger] self.entries@[i].address@
            != #[trigger] self.entries@[j].address@ by {
            assert(before.entries@[shift(i)].address@ != before.entries@[shift(j)].address@);
        }
        assert forall|i: int| 0 <= i < self.entries@.len() implies #[trigger] self.entries@[i].account.wf() by {
            assert(before.entries@[shift(i)].account.wf());
        }
        let goal = before@.remove(gone);
        assert forall|key: Seq<u8>| self@.contains_key(key) <==> goal.contains_key(key) by {
            if self.holds(key) {
                let p = self.position(key);
                assert(before.entries@[shift(p)].address@ == key);
                before.lemma_position(shift(p));
                before.lemma_position(at);
            }
            if before.holds(key) && key != gone {
                let p = before.position(key);
                let q = if p < at { p } else { p - 1 };
                assert(self.entries@[q].address@ == key);
            }
        }
        assert forall|key: Seq<u8>| self@.contains_key(key) implies self@[key] == goal[key] by {
            let p = self.position(key);
            assert(before.entries@[shift(p)].address@ == key);
            before.lemma_position(shift(p));
        }
        assert(self@ =~= goal);
    }

    proof fn lemma_replaced(&self, before: Registry, at: int, account: Account)
        requires
            before.wf(),
            0 <= at < before.entries@.len(),
            account.wf(),
            self.entries@.len() == before.entries@.len(),
            self.entries@[at].address@ == before.entries@[at].address@,
            self.entries@[at].account == account,
            forall|i: int|
                0 <= i < before.entries@.len() && i != at ==> self.entries@[i]
                    == before.entries@[i],
        ensures
            self.wf(),
            self@ == before@.insert(before.entries@[at].address@, account@),
    {
        assert forall|i: int| 0 <= i < self.entries@.len() implies #[trigger] self.entries@[i].address@
            == before.entries@[i].address@ by {}
        assert forall|i: int, j: int| 0 <= i < j < self.entries@.len() implies #[trigger] self.entries@[i].address@
            != #[trigger] self.entries@[j].address@ by {
            assert(before.entries@[i].address@ != before.entries@[j].address@);
        }
        assert forall|i: int| 0 <= i < self.entries@.len() implies #[trigger] self.entries@[i].account.wf() by {
            if i != at {
                assert(before.entries@[i].account.wf());
            }
        }
        let goal = before@.insert(before.entries@[at].address@, account@);
        assert forall|key: Seq<u8>| self@.contains_key(key) <==> goal.contains_key(key) by {
            if self.holds(key) {
                let p = self.position(key);
                assert(before.entries@[p].address@ == key);
            }
            if before.holds(key) {
                let p = before.position(key);
                assert(self.entries@[p].address@ == key);
            }
            if key == before.entries@[at].address@ {
                assert(self.entries@[at].address@ == key);
            }
        }
        assert forall|key: Seq<u8>| self@.contains_key(key) implies self@[key] == goal[key] by {
            let p = self.position(key);
            assert(before.entries@[p].address@ == key);
            before.lemma_position(p);
            before.lemma_position(at);
        }
        assert(self@ =~= goal);
    }
}

} // verus!
