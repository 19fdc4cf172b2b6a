//! Account records: the unit of ledger state.

use crate::address::{same_address, Address, NATIVE_LOADER_ID, SYSTEM_PROGRAM_ID};
use vstd::prelude::*;
use vstd::string::StringSliceAdditionalSpecFns;

verus! {

/// Balance, owner, executable flag, data and rent epoch of one address.
#[derive(Debug, PartialEq, Eq)]
pub struct Account {
    /// Balance in the smallest currency unit.
    pub lamports: u64,
    /// Raw state held by the account.
    pub data: Vec<u8>,
    /// The program that owns the account.
    pub owner: Address,
    /// Whether the account holds a program.
    pub executable: bool,
    /// The epoch at which the account next owes rent.
    pub rent_epoch: u64,
}

/// The mathematical value of an [`Account`].
pub struct AccountView {
    pub lamports: u64,
    pub data: Seq<u8>,
    pub owner: Address,
    pub executable: bool,
    pub rent_epoch: u64,
}

impl AccountView {
    /// The account that an absent address stands for.
    pub open spec fn empty() -> AccountView {
        AccountView {
            lamports: 0,
            data: Seq::<u8>::empty(),
            owner: SYSTEM_PROGRAM_ID,
            executable: false,
            rent_epoch: 0,
        }
    }
}

impl View for Account {
    type V = AccountView;

    open spec fn view(&self) -> AccountView {
        AccountView {
            lamports: self.lamports,
            data: self.data@,
            owner: self.owner,
            executable: self.executable,
            rent_epoch: self.rent_epoch,
        }
    }
}

impl Clone for Account {
    fn clone(&self) -> (r: Self)
        ensures
            r@ == self@,
    {
        let data = self.data.clone();
        assert(data@ =~= self.data@);
        Account {
            lamports: self.lamports,
            data,
            owner: self.owner,
            executable: self.executable,
            rent_epoch: self.rent_epoch,
        }
    }
}

impl Default for Account {
    fn default() -> (r: Self)
        ensures
            r@ == AccountView::empty(),
    {
        Account {
            lamports: 0,
            data: Vec::new(),
            owner: SYSTEM_PROGRAM_ID,
            executable: false,
            rent_epoch: 0,
        }
    }
}

impl Account {
    /// An account with `space` zero bytes of data.
    pub fn new(lamports: u64, space: usize, owner: &Address) -> (r: Self)
        ensures
            r@ == (AccountView {
                lamports,
                data: Seq::new(space as nat, |i: int| 0u8),
                owner: *owner,
                executable: false,
                rent_epoch: 0,
            }),
    {
        let mut data: Vec<u8> = Vec::new();
        let mut i: usize = 0;
        while i < space
            invariant
                i <= space,
                data@ == Seq::new(i as nat, |j: int| 0u8),
            decreases space - i,
        {
            data.push(0);
            i += 1;
            assert(data@ =~= Seq::new(i as nat, |j: int| 0u8));
        }
        Account { lamports, data, owner: *owner, executable: false, rent_epoch: 0 }
    }

    /// Whether this is the account that an absent address stands for.
    pub fn is_default(&self) -> (r: bool)
        ensures
            r == (self@ == AccountView::empty()),
    {
        let r = self.lamports == 0 && self.data.len() == 0 && same_address(
            &self.owner,
            &SYSTEM_PROGRAM_ID,
        ) && !self.executable && self.rent_epoch == 0;
        proof {
            if r {
                assert(self.data@ =~= Seq::<u8>::empty());
            }
        }
        r
    }
}

/// A list of addressed accounts by value.
pub open spec fn working_set(accounts: Seq<(Address, Account)>) -> Seq<(Address, AccountView)> {
    Seq::new(accounts.len(), |i: int| (accounts[i].0, accounts[i].1@))
}

/// Appending to a list of accounts appends to their values.
pub proof fn lemma_working_set_push(accounts: Seq<(Address, Account)>, key: Address, account: Account)
    ensures
        working_set(accounts.push((key, account))) == working_set(accounts).push((key, account@)),
{
    assert(working_set(accounts.push((key, account))) =~= working_set(accounts).push(
        (key, account@),
    ));
}

/// The account of a program that the native loader runs in process: owned
/// by the native loader and executable, with the program's name as data.
pub open spec fn loadable_account(name: Seq<u8>, lamports: u64, rent_epoch: u64) -> AccountView {
    AccountView { lamports, data: name, owner: NATIVE_LOADER_ID, executable: true, rent_epoch }
}

/// Builds the account of a program that the native loader runs in process.
pub fn create_loadable_account_with_fields(name: &str, lamports: u64, rent_epoch: u64) -> (r: Account)
    ensures
        r@ == loadable_account(name.spec_bytes(), lamports, rent_epoch),
{
    let data = vstd::slice::slice_to_vec(name.as_bytes());
    Account { lamports, data, owner: NATIVE_LOADER_ID, executable: true, rent_epoch }
}

/// The first `count` of a list of accounts, or all of them where there are
/// fewer, as copies.
pub fn first_accounts(accounts: &Vec<(Address, Account)>, count: usize) -> (r: Vec<(Address, Account)>)
    ensures
        working_set(r@) == working_set(accounts@).take(
            if count <= accounts@.len() {
                count as int
            } else {
                accounts@.len() as int
            },
        ),
{
    let n = if count <= accounts.len() {
        count
    } else {
        accounts.len()
    };
    let mut out: Vec<(Address, Account)> = Vec::new();
    let mut i: usize = 0;
    while i < n
        invariant
            i <= n <= accounts@.len(),
            working_set(out@) == working_set(accounts@).take(i as int),
        decreases n - i,
    {
        let copy = accounts[i].1.clone();
        proof {
            lemma_working_set_push(out@, accounts@[i as int].0, copy);
            assert(working_set(accounts@).take(i as int).push((accounts@[i as int].0, copy@))
                =~= working_set(accounts@).take(i + 1));
        }
        out.push((accounts[i].0, copy));
        i += 1;
    }
    out
}

} // verus!
