//! The account store: every account at rest, found by its address.

use crate::account::{first_accounts, working_set, Account, AccountView};
use crate::address::{same_address, Address};
use vstd::prelude::*;

verus! {

/// The map after the first `n` of `entries` were stored in it, in order: a
/// later entry replaces an earlier one for the same address.
pub open spec fn inserted_all(
    m: Map<Address, AccountView>,
    entries: Seq<(Address, AccountView)>,
    n: nat,
) -> Map<Address, AccountView>
    decreases n,
{
    if n == 0 {
        m
    } else {
        inserted_all(m, entries, (n - 1) as nat).insert(entries[n - 1].0, entries[n - 1].1)
    }
}

/// An address-keyed table of accounts.
///
/// An address is stored at most once; there is no way to delete one.
pub struct AccountStore {
    entries: Vec<(Address, Account)>,
}

impl AccountStore {
    /// No address occurs twice.
    pub closed spec fn wf(&self) -> bool {
        forall|i: int, j: int|
            0 <= i < j < self.entries@.len() ==> self.entries@[i].0 != self.entries@[j].0
    }

    /// Where `key` is stored, if anywhere.
    pub closed spec fn slot_of(&self, key: Address) -> int {
        choose|i: int| 0 <= i < self.entries@.len() && self.entries@[i].0 == key
    }

    /// The table as a map from address to the account stored under it.
    pub closed spec fn view(&self) -> Map<Address, AccountView> {
        Map::new(
            |k: Address| exists|i: int| 0 <= i < self.entries@.len() && self.entries@[i].0 == k,
            |k: Address| self.entries@[self.slot_of(k)].1@,
        )
    }

    /// The number of stored addresses.
    pub closed spec fn spec_len(&self) -> nat {
        self.entries@.len()
    }

    proof fn lemma_entry(&self, i: int)
        requires
            self.wf(),
            0 <= i < self.entries@.len(),
        ensures
            self@.contains_key(self.entries@[i].0),
            self@[self.entries@[i].0] == self.entries@[i].1@,
            self.slot_of(self.entries@[i].0) == i,
    {
        let k = self.entries@[i].0;
        let s = self.slot_of(k);
        assert(0 <= s < self.entries@.len() && self.entries@[s].0 == k);
        if s < i {
            assert(self.entries@[s].0 != self.entries@[i].0);
        } else if i < s {
            assert(self.entries@[i].0 != self.entries@[s].0);
        }
    }

    /// An empty store.
    pub fn new() -> (r: Self)
        ensures
            r.wf(),
            r@ == Map::<Address, AccountView>::empty(),
    {
        let r = AccountStore { entries: Vec::new() };
        assert(r@ =~= Map::<Address, AccountView>::empty());
        r
    }

    fn find(&self, key: &Address) -> (r: Option<usize>)
        requires
            self.wf(),
        ensures
            match r {
                Some(i) => i < self.entries@.len() && self.entries@[i as int].0 == *key
                    && self@.contains_key(*key) && self@[*key] == self.entries@[i as int].1@,
                None => !self@.contains_key(*key) && forall|j: int|
                    0 <= j < self.entries@.len() ==> self.entries@[j].0 != *key,
            },
    {
        let mut i: usize = 0;
        while i < self.entries.len()
            invariant
                self.wf(),
                i <= self.entries@.len(),
                forall|j: int| 0 <= j < i ==> self.entries@[j].0 != *key,
            decreases self.entries@.len() - i,
        {
            if same_address(&self.entries[i].0, key) {
                proof {
                    self.lemma_entry(i as int);
                }
                return Some(i);
            }
            i += 1;
        }
        None
    }

    /// The account stored under `key`; `None` where the address is absent.
    pub fn get(&self, key: &Address) -> (r: Option<&Account>)
        requires
            self.wf(),
        ensures
            r is Some == self@.contains_key(*key),
            r is Some ==> r->0@ == self@[*key],
    {
        match self.find(key) {
            Some(i) => Some(&self.entries[i].1),
            None => None,
        }
    }

    /// The account stored under `key`, or the zeroed default account where
    /// the address is absent.
    pub fn get_or_default(&self, key: &Address) -> (r: Account)
        requires
            self.wf(),
        ensures
            r@ == if self@.contains_key(*key) {
                self@[*key]
            } else {
                AccountView::empty()
            },
    {
        match self.find(key) {
            Some(i) => self.entries[i].1.clone(),
            None => Account::default(),
        }
    }

    proof fn lemma_prefix(&self, n: nat)
        requires
            self.wf(),
            n <= self.entries@.len(),
        ensures
            forall|k: Address| #[trigger]
                inserted_all(
                    Map::<Address, AccountView>::empty(),
                    working_set(self.entries@),
                    n,
                ).contains_key(k) <==> exists|j: int| 0 <= j < n && self.entries@[j].0 == k,
            forall|j: int|
                0 <= j < n ==> inserted_all(
                    Map::<Address, AccountView>::empty(),
                    working_set(self.entries@),
                    n,
                )[#[trigger] self.entries@[j].0] == self.entries@[j].1@,
        decreases n,
    {
        let list = working_set(self.entries@);
        let empty = Map::<Address, AccountView>::empty();
        if n > 0 {
            self.lemma_prefix((n - 1) as nat);
            let before = inserted_all(empty, list, (n - 1) as nat);
            let now = inserted_all(empty, list, n);
            assert(now == before.insert(self.entries@[n - 1].0, self.entries@[n - 1].1@));
            assert forall|k: Address| #[trigger] now.contains_key(k) <==> exists|j: int|
                0 <= j < n && self.entries@[j].0 == k by {
                if now.contains_key(k) {
                    if k == self.entries@[n - 1].0 {
                    } else {
                        assert(before.contains_key(k));
                        let j = choose|j: int| 0 <= j < n - 1 && self.entries@[j].0 == k;
                        assert(0 <= j < n && self.entries@[j].0 == k);
                    }
                }
                if exists|j: int| 0 <= j < n && self.entries@[j].0 == k {
                    let j = choose|j: int| 0 <= j < n && self.entries@[j].0 == k;
                    if j < n - 1 {
                        assert(before.contains_key(k));
                    }
                }
            }
            assert forall|j: int| 0 <= j < n implies now[#[trigger] self.entries@[j].0]
                == self.entries@[j].1@ by {
                if j < n - 1 {
                    assert(self.entries@[j].0 != self.entries@[n - 1].0);
                }
            }
        } else {
            assert(inserted_all(empty, list, 0) == empty);
        }
    }

    /// Every stored address with a copy of its account, each address once.
    /// Storing them in an empty store gives this store again.
    pub fn to_entries(&self) -> (r: Vec<(Address, Account)>)
        requires
            self.wf(),
        ensures
            inserted_all(Map::<Address, AccountView>::empty(), working_set(r@), r@.len())
                == self@,
            forall|i: int, j: int| 0 <= i < j < r@.len() ==> r@[i].0 != r@[j].0,
    {
        let out = first_accounts(&self.entries, self.entries.len());
        proof {
            let n = self.entries@.len();
            assert(working_set(self.entries@).take(n as int) =~= working_set(self.entries@));
            assert(out@.len() == n) by {
                assert(working_set(out@).len() == working_set(self.entries@).len());
            }
            assert forall|i: int, j: int| 0 <= i < j < out@.len() implies out@[i].0
                != out@[j].0 by {
                assert(working_set(out@)[i].0 == working_set(self.entries@)[i].0);
                assert(working_set(out@)[j].0 == working_set(self.entries@)[j].0);
            }
            self.lemma_prefix(n);
            let built = inserted_all(
                Map::<Address, AccountView>::empty(),
                working_set(self.entries@),
                n,
            );
            assert forall|k: Address| built.contains_key(k) implies #[trigger] built[k]
                == self@[k] by {
                let j = choose|j: int| 0 <= j < n && self.entries@[j].0 == k;
                self.lemma_entry(j);
            }
            assert(built =~= self@);
        }
        out
    }

    /// Stores a copy of each of `entries`, in order.
    pub fn set_all(&mut self, entries: &Vec<(Address, Account)>)
        requires
            old(self).wf(),
        ensures
            final(self).wf(),
            final(self)@ == inserted_all(old(self)@, working_set(entries@), entries@.len()),
    {
        let mut i: usize = 0;
        while i < entries.len()
            invariant
                self.wf(),
                i <= entries@.len(),
                self@ == inserted_all(old(self)@, working_set(entries@), i as nat),
            decreases entries@.len() - i,
        {
            let copy = entries[i].1.clone();
            self.set(entries[i].0, copy);
            i += 1;
        }
    }

    /// Stores `account` under `key`, replacing what was there, and returns
    /// what was there.
    pub fn set(&mut self, key: Address, account: Account) -> (r: Option<Account>)
        requires
            old(self).wf(),
        ensures
            final(self).wf(),
            final(self)@ == old(self)@.insert(key, account@),
            r is Some == old(self)@.contains_key(key),
            r is Some ==> r->0@ == old(self)@[key],
    {
        let ghost before = *self;
        match self.find(&key) {
            Some(i) => {
                let mut slot = (key, account);
                core::mem::swap(&mut self.entries[i], &mut slot);
                proof {
                    before.lemma_entry(i as int);
                    assert(self.wf());
                    assert forall|k: Address| #[trigger] self@.contains_key(k)
                        == before@.insert(key, account@).contains_key(k) by {
                        if self@.contains_key(k) {
                            let j = self.slot_of(k);
                            assert(before.entries@[j].0 == k);
                        }
                        if before@.contains_key(k) {
                            let j = before.slot_of(k);
                            assert(self.entries@[j].0 == k);
                        }
                        if k == key {
                            assert(self.entries@[i as int].0 == k);
                        }
                    }
                    assert forall|k: Address| self@.contains_key(k) implies #[trigger] self@[k]
                        == before@.insert(key, account@)[k] by {
                        let j = self.slot_of(k);
                        self.lemma_entry(j);
                        if j != i {
                            before.lemma_entry(j);
                        }
                    }
                    assert(self@ =~= before@.insert(key, account@));
                }
                Some(slot.1)
            },
            None => {
                self.entries.push((key, account));
                proof {
                    let n = before.entries@.len() as int;
                    assert(self.wf());
                    assert forall|k: Address| #[trigger] self@.contains_key(k)
                        == before@.insert(key, account@).contains_key(k) by {
                        if self@.contains_key(k) {
                            let j = self.slot_of(k);
                            if j < n {
                                assert(before.entries@[j].0 == k);
                            }
                        }
                        if before@.contains_key(k) {
                            let j = before.slot_of(k);
                            assert(self.entries@[j].0 == k);
                        }
                        if k == key {
                            assert(self.entries@[n].0 == k);
                        }
                    }
                    assert forall|k: Address| self@.contains_key(k) implies #[trigger] self@[k]
                        == before@.insert(key, account@)[k] by {
                        let j = self.slot_of(k);
                        self.lemma_entry(j);
                        if j < n {
                            before.lemma_entry(j);
                        }
                    }
                    assert(self@ =~= before@.insert(key, account@));
                }
                None
            },
        }
    }
}

} // verus!
