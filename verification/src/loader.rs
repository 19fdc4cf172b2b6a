//! The loader resolver: the chain of accounts that must be loaded to run a
//! program, found by walking from the program to its owner, and on to that
//! owner's owner, until the native loader is reached.

use crate::account::{lemma_working_set_push, working_set, Account, AccountView};
use crate::address::{same_address, Address, BPF_LOADER_UPGRADEABLE_ID, NATIVE_LOADER_ID};
use crate::error::{TransactionError, TransactionErrorMetrics};
use crate::sdk::{names_programdata, programdata_address};
use crate::store::AccountStore;
use vstd::prelude::*;

verus! {

/// The largest number of hops from a program to the native loader.
pub const MAX_LOADER_DEPTH: usize = 5;

/// The sum of two sizes, or the largest size where the sum does not fit.
pub open spec fn sat_size(a: usize, b: usize) -> usize {
    if a + b > usize::MAX {
        usize::MAX
    } else {
        (a + b) as usize
    }
}

/// The data loaded so far after `size` more bytes: counted only where a
/// budget is set.
pub open spec fn budget_after(accumulated: usize, size: usize, limit: Option<usize>) -> usize {
    match limit {
        Some(_) => sat_size(accumulated, size),
        None => accumulated,
    }
}

/// Whether `size` more bytes take the loaded data over the budget.
pub open spec fn budget_exceeded(accumulated: usize, size: usize, limit: Option<usize>) -> bool {
    match limit {
        Some(most) => sat_size(accumulated, size) > most,
        None => false,
    }
}

/// Adds `account_data_size` to the data loaded so far and holds the sum
/// against the budget. With no budget nothing is counted and nothing fails.
pub fn accumulate_and_check_loaded_account_data_size(
    accumulated_loaded_accounts_data_size: &mut usize,
    account_data_size: usize,
    requested_loaded_accounts_data_size_limit: Option<usize>,
    error_counters: &mut TransactionErrorMetrics,
) -> (r: Result<(), TransactionError>)
    ensures
        *final(accumulated_loaded_accounts_data_size) == budget_after(
            *old(accumulated_loaded_accounts_data_size),
            account_data_size,
            requested_loaded_accounts_data_size_limit,
        ),
        r is Err == budget_exceeded(
            *old(accumulated_loaded_accounts_data_size),
            account_data_size,
            requested_loaded_accounts_data_size_limit,
        ),
        r is Err ==> r->Err_0 == TransactionError::WouldExceedAccountDataTotalLimit,
        *final(error_counters) == old(error_counters).after(r),
{
    match requested_loaded_accounts_data_size_limit {
        Some(most) => {
            *accumulated_loaded_accounts_data_size =
            accumulated_loaded_accounts_data_size.saturating_add(account_data_size);
            if *accumulated_loaded_accounts_data_size > most {
                Err(error_counters.record(TransactionError::WouldExceedAccountDataTotalLimit))
            } else {
                Ok(())
            }
        },
        None => Ok(()),
    }
}

/// The address whose bytes follow the tag of an upgradeable program's
/// record.
pub open spec fn companion_address(data: Seq<u8>) -> Address {
    choose|a: Address| a@ == data.subrange(4, 36)
}

/// The companion account that an upgradeable program's data names, if the
/// data is the record of a program.
pub fn companion_of(data: &Vec<u8>) -> (r: Option<Address>)
    ensures
        r is Some == names_programdata(data@),
        r is Some ==> r->0 == companion_address(data@),
{
    let r = programdata_address(data.as_slice());
    proof {
        if let Some(a) = r {
            let c = companion_address(data@);
            assert(c@ == data@.subrange(4, 36));
            assert(a =~= c);
        }
    }
    r
}

/// How far the walk along a loader chain has come.
pub struct ChainWalk {
    /// The working set, with what the walk has appended.
    pub accounts: Seq<(Address, AccountView)>,
    /// The positions of the chain's accounts in the working set, the last
    /// found first.
    pub indices: Seq<usize>,
    /// The data loaded so far, where a budget is set.
    pub data_size: usize,
    /// Why the walk ended early, if it did.
    pub error: Option<TransactionError>,
}

impl ChainWalk {
    /// The walk, ended by `err`.
    pub open spec fn failed(self, err: TransactionError) -> ChainWalk {
        ChainWalk { error: Some(err), ..self }
    }

    /// The walk with one more account appended to the working set.
    pub open spec fn appended(self, key: Address, account: AccountView) -> ChainWalk {
        ChainWalk { accounts: self.accounts.push((key, account)), ..self }
    }

    /// The walk with the account appended last put at the front of the
    /// chain.
    pub open spec fn chained(self) -> ChainWalk {
        ChainWalk { indices: self.indices.insert(0, (self.accounts.len() - 1) as usize), ..self }
    }

    /// The walk after `size` more bytes were held against the budget.
    pub open spec fn charged(self, size: usize, limit: Option<usize>) -> ChainWalk {
        ChainWalk {
            data_size: budget_after(self.data_size, size, limit),
            error: if budget_exceeded(self.data_size, size, limit) {
                Some(TransactionError::WouldExceedAccountDataTotalLimit)
            } else {
                None
            },
            ..self
        }
    }
}

/// One hop of the walk, at the program `program_id`: the program must be
/// stored and executable; it is appended to the working set and put at the
/// front of the chain. A program owned by the upgradeable loader must name
/// a companion account, which must be stored and is appended and chained
/// too. The data of what was appended is held against the budget where
/// `counted` says so.
pub open spec fn hop(
    store: Map<Address, AccountView>,
    program_id: Address,
    counted: bool,
    limit: Option<usize>,
    walk: ChainWalk,
) -> ChainWalk {
    if !store.contains_key(program_id) {
        walk.failed(TransactionError::ProgramAccountNotFound)
    } else {
        let program = store[program_id];
        let with_program = walk.appended(program_id, program);
        let program_size: usize = if counted {
            program.data.len() as usize
        } else {
            0
        };
        if !program.executable {
            with_program.failed(TransactionError::InvalidProgramForExecution)
        } else if program.owner == BPF_LOADER_UPGRADEABLE_ID {
            if !names_programdata(program.data) {
                with_program.chained().failed(TransactionError::InvalidProgramForExecution)
            } else if !store.contains_key(companion_address(program.data)) {
                with_program.chained().failed(TransactionError::ProgramAccountNotFound)
            } else {
                let companion = store[companion_address(program.data)];
                let size: usize = if counted {
                    sat_size(program_size, companion.data.len() as usize)
                } else {
                    0
                };
                with_program.chained().appended(
                    companion_address(program.data),
                    companion,
                ).chained().charged(size, limit)
            }
        } else {
            with_program.chained().charged(program_size, limit)
        }
    }
}

/// The walk from `program_id`, `depth` hops in, to the native loader. It
/// ends early at the first hop that fails, and at the sixth hop. The data
/// of the first hop is not counted where `skip_first` says that it was
/// counted before.
pub open spec fn walk_chain(
    store: Map<Address, AccountView>,
    program_id: Address,
    depth: nat,
    skip_first: bool,
    limit: Option<usize>,
    walk: ChainWalk,
) -> ChainWalk
    decreases MAX_LOADER_DEPTH - depth,
{
    if program_id == NATIVE_LOADER_ID {
        walk
    } else if depth >= MAX_LOADER_DEPTH {
        walk.failed(TransactionError::CallChainTooDeep)
    } else {
        let next = hop(store, program_id, !(depth == 0 && skip_first), limit, walk);
        if next.error is Some {
            next
        } else {
            walk_chain(store, store[program_id].owner, depth + 1, skip_first, limit, next)
        }
    }
}

/// The loader chain of the program at `index` of the working set
/// `accounts`. The program's own data is not counted again where its place
/// in the working set already holds an account's state.
pub open spec fn resolve_loaders(
    store: Map<Address, AccountView>,
    accounts: Seq<(Address, AccountView)>,
    index: int,
    data_size: usize,
    limit: Option<usize>,
) -> ChainWalk {
    let start = ChainWalk { accounts, indices: Seq::<usize>::empty(), data_size, error: None };
    if 0 <= index < accounts.len() {
        walk_chain(
            store,
            accounts[index].0,
            0,
            accounts[index].1 != AccountView::empty(),
            limit,
            start,
        )
    } else {
        start.failed(TransactionError::ProgramAccountNotFound)
    }
}

/// Whether every position in `indices` is that of one of `len` accounts.
pub open spec fn in_range(indices: Seq<usize>, len: nat) -> bool {
    forall|j: int| 0 <= j < indices.len() ==> (#[trigger] indices[j]) < len
}

/// Whether the working set `later` is `earlier` with accounts appended.
pub open spec fn extends(
    later: Seq<(Address, AccountView)>,
    earlier: Seq<(Address, AccountView)>,
) -> bool {
    &&& earlier.len() <= later.len()
    &&& forall|j: int| 0 <= j < earlier.len() ==> #[trigger] later[j] == earlier[j]
}

proof fn lemma_hop_extends(
    store: Map<Address, AccountView>,
    program_id: Address,
    counted: bool,
    limit: Option<usize>,
    walk: ChainWalk,
)
    requires
        in_range(walk.indices, walk.accounts.len()),
    ensures
        extends(hop(store, program_id, counted, limit, walk).accounts, walk.accounts),
        in_range(
            hop(store, program_id, counted, limit, walk).indices,
            hop(store, program_id, counted, limit, walk).accounts.len(),
        ),
{
    let next = hop(store, program_id, counted, limit, walk);
    if store.contains_key(program_id) {
        let program = store[program_id];
        let first = walk.appended(program_id, program);
        assert(extends(first.accounts, walk.accounts));
        assert(in_range(first.indices, first.accounts.len()));
        let one = first.chained();
        assert(in_range(one.indices, one.accounts.len())) by {
            assert forall|j: int| 0 <= j < one.indices.len() implies (#[trigger] one.indices[j])
                < one.accounts.len() by {
                if j > 0 {
                    assert(one.indices[j] == first.indices[j - 1]);
                }
            }
        }
        if program.executable && program.owner == BPF_LOADER_UPGRADEABLE_ID && names_programdata(
            program.data,
        ) && store.contains_key(companion_address(program.data)) {
            let second = one.appended(
                companion_address(program.data),
                store[companion_address(program.data)],
            );
            assert(extends(second.accounts, walk.accounts));
            assert(in_range(second.indices, second.accounts.len()));
            let two = second.chained();
            assert(in_range(two.indices, two.accounts.len())) by {
                assert forall|j: int| 0 <= j < two.indices.len() implies (
                #[trigger] two.indices[j]) < two.accounts.len() by {
                    if j > 0 {
                        assert(two.indices[j] == second.indices[j - 1]);
                    }
                }
            }
        }
    }
}

proof fn lemma_walk_extends(
    store: Map<Address, AccountView>,
    program_id: Address,
    depth: nat,
    skip_first: bool,
    limit: Option<usize>,
    walk: ChainWalk,
)
    requires
        in_range(walk.indices, walk.accounts.len()),
    ensures
        extends(
            walk_chain(store, program_id, depth, skip_first, limit, walk).accounts,
            walk.accounts,
        ),
        in_range(
            walk_chain(store, program_id, depth, skip_first, limit, walk).indices,
            walk_chain(store, program_id, depth, skip_first, limit, walk).accounts.len(),
        ),
    decreases MAX_LOADER_DEPTH - depth,
{
    if program_id != NATIVE_LOADER_ID && depth < MAX_LOADER_DEPTH {
        let counted = !(depth == 0 && skip_first);
        let next = hop(store, program_id, counted, limit, walk);
        lemma_hop_extends(store, program_id, counted, limit, walk);
        if next.error is None {
            lemma_walk_extends(store, store[program_id].owner, depth + 1, skip_first, limit, next);
        }
    }
}

/// Resolving a loader chain appends to the working set and changes nothing
/// that it held, and every position of the chain is that of an account of
/// the working set.
pub proof fn lemma_resolve_extends(
    store: Map<Address, AccountView>,
    accounts: Seq<(Address, AccountView)>,
    index: int,
    data_size: usize,
    limit: Option<usize>,
)
    ensures
        extends(resolve_loaders(store, accounts, index, data_size, limit).accounts, accounts),
        in_range(
            resolve_loaders(store, accounts, index, data_size, limit).indices,
            resolve_loaders(store, accounts, index, data_size, limit).accounts.len(),
        ),
{
    let start = ChainWalk { accounts, indices: Seq::<usize>::empty(), data_size, error: None };
    if 0 <= index < accounts.len() {
        lemma_walk_extends(
            store,
            accounts[index].0,
            0,
            accounts[index].1 != AccountView::empty(),
            limit,
            start,
        );
    }
}

/// Whether a hop at `program_id` succeeds where no budget is set: the
/// program is stored and executable, and where the upgradeable loader owns
/// it, it names a stored companion.
pub open spec fn loadable(store: Map<Address, AccountView>, program_id: Address) -> bool {
    &&& store.contains_key(program_id)
    &&& store[program_id].executable
    &&& store[program_id].owner == BPF_LOADER_UPGRADEABLE_ID ==> names_programdata(
        store[program_id].data,
    ) && store.contains_key(companion_address(store[program_id].data))
}

/// The program that the walk from `program_id` reaches after `k` hops.
pub open spec fn owner_at(store: Map<Address, AccountView>, program_id: Address, k: nat) -> Address
    decreases k,
{
    if k == 0 {
        program_id
    } else {
        owner_at(store, store[program_id].owner, (k - 1) as nat)
    }
}

/// Whether the walk from `program_id` can take `n` hops: none of the first
/// `n` programs is the native loader, and a hop at each of them succeeds.
pub open spec fn can_hop(store: Map<Address, AccountView>, program_id: Address, n: nat) -> bool {
    forall|k: nat|
        k < n ==> #[trigger] owner_at(store, program_id, k) != NATIVE_LOADER_ID && loadable(
            store,
            owner_at(store, program_id, k),
        )
}

proof fn lemma_hop_of_loadable(
    store: Map<Address, AccountView>,
    program_id: Address,
    counted: bool,
    walk: ChainWalk,
)
    requires
        walk.error is None,
        loadable(store, program_id),
    ensures
        hop(store, program_id, counted, None, walk).error is None,
{
}

proof fn lemma_can_hop_on(store: Map<Address, AccountView>, program_id: Address, n: nat)
    requires
        n > 0,
        can_hop(store, program_id, n),
    ensures
        can_hop(store, store[program_id].owner, (n - 1) as nat),
        program_id != NATIVE_LOADER_ID,
        loadable(store, program_id),
{
    assert(owner_at(store, program_id, 0) == program_id);
    assert forall|k: nat| k < n - 1 implies #[trigger] owner_at(
        store,
        store[program_id].owner,
        k,
    ) != NATIVE_LOADER_ID && loadable(store, owner_at(store, store[program_id].owner, k)) by {
        assert(owner_at(store, program_id, k + 1) == owner_at(store, store[program_id].owner, k));
    }
}

proof fn lemma_walk_resolves(
    store: Map<Address, AccountView>,
    program_id: Address,
    depth: nat,
    n: nat,
    skip_first: bool,
    walk: ChainWalk,
)
    requires
        walk.error is None,
        depth + n <= MAX_LOADER_DEPTH,
        can_hop(store, program_id, n),
        owner_at(store, program_id, n) == NATIVE_LOADER_ID,
    ensures
        walk_chain(store, program_id, depth, skip_first, None, walk).error is None,
    decreases n,
{
    if n > 0 {
        lemma_can_hop_on(store, program_id, n);
        let counted = !(depth == 0 && skip_first);
        lemma_hop_of_loadable(store, program_id, counted, walk);
        let next = hop(store, program_id, counted, None, walk);
        lemma_walk_resolves(
            store,
            store[program_id].owner,
            depth + 1,
            (n - 1) as nat,
            skip_first,
            next,
        );
    }
}

proof fn lemma_walk_too_deep(
    store: Map<Address, AccountView>,
    program_id: Address,
    depth: nat,
    skip_first: bool,
    walk: ChainWalk,
)
    requires
        walk.error is None,
        depth <= MAX_LOADER_DEPTH,
        can_hop(store, program_id, (MAX_LOADER_DEPTH - depth) as nat),
        owner_at(store, program_id, (MAX_LOADER_DEPTH - depth) as nat) != NATIVE_LOADER_ID,
    ensures
        walk_chain(store, program_id, depth, skip_first, None, walk).error == Some(
            TransactionError::CallChainTooDeep,
        ),
    decreases MAX_LOADER_DEPTH - depth,
{
    if depth < MAX_LOADER_DEPTH {
        lemma_can_hop_on(store, program_id, (MAX_LOADER_DEPTH - depth) as nat);
        let counted = !(depth == 0 && skip_first);
        lemma_hop_of_loadable(store, program_id, counted, walk);
        let next = hop(store, program_id, counted, None, walk);
        lemma_walk_too_deep(store, store[program_id].owner, depth + 1, skip_first, next);
    }
}

/// A loader chain of at most five hops resolves: where the walk from the
/// program at `index` reaches the native loader after `n` hops, `n` at most
/// five, and a hop succeeds at each program on the way, the chain resolves
/// without a budget.
pub proof fn lemma_chain_within_depth_resolves(
    store: Map<Address, AccountView>,
    accounts: Seq<(Address, AccountView)>,
    index: int,
    data_size: usize,
    n: nat,
)
    requires
        0 <= index < accounts.len(),
        n <= MAX_LOADER_DEPTH,
        can_hop(store, accounts[index].0, n),
        owner_at(store, accounts[index].0, n) == NATIVE_LOADER_ID,
    ensures
        resolve_loaders(store, accounts, index, data_size, None).error is None,
{
    let start = ChainWalk { accounts, indices: Seq::<usize>::empty(), data_size, error: None };
    lemma_walk_resolves(
        store,
        accounts[index].0,
        0,
        n,
        accounts[index].1 != AccountView::empty(),
        start,
    );
}

/// A loader chain of more than five hops is refused: where the walk from
/// the program at `index` can take five hops and has not reached the native
/// loader by then, the chain is too deep.
pub proof fn lemma_chain_beyond_depth_is_refused(
    store: Map<Address, AccountView>,
    accounts: Seq<(Address, AccountView)>,
    index: int,
    data_size: usize,
)
    requires
        0 <= index < accounts.len(),
        can_hop(store, accounts[index].0, MAX_LOADER_DEPTH as nat),
        owner_at(store, accounts[index].0, MAX_LOADER_DEPTH as nat) != NATIVE_LOADER_ID,
    ensures
        resolve_loaders(store, accounts, index, data_size, None).error == Some(
            TransactionError::CallChainTooDeep,
        ),
{
    let start = ChainWalk { accounts, indices: Seq::<usize>::empty(), data_size, error: None };
    lemma_walk_too_deep(
        store,
        accounts[index].0,
        0,
        accounts[index].1 != AccountView::empty(),
        start,
    );
}

/// Resolves the loader chain of the program at `program_account_index` of
/// the working set, appending the chain's accounts to the working set.
///
/// Returns the positions of the chain's accounts in the working set, the
/// last found first. Fails where the position names no account, where a
/// program of the chain is missing or not executable, where an upgradeable
/// program names no stored companion, where the chain has more than five
/// hops, and where the budget is exceeded.
pub fn load_executable_accounts(
    store: &AccountStore,
    accounts: &mut Vec<(Address, Account)>,
    program_account_index: usize,
    error_counters: &mut TransactionErrorMetrics,
    accumulated_accounts_data_size: &mut usize,
    requested_loaded_accounts_data_size_limit: Option<usize>,
) -> (r: Result<Vec<usize>, TransactionError>)
    requires
        store.wf(),
    ensures
        ({
            let walk = resolve_loaders(
                store@,
                working_set(old(accounts)@),
                program_account_index as int,
                *old(accumulated_accounts_data_size),
                requested_loaded_accounts_data_size_limit,
            );
            &&& working_set(final(accounts)@) == walk.accounts
            &&& *final(accumulated_accounts_data_size) == walk.data_size
            &&& match r {
                Ok(indices) => walk.error is None && indices@ == walk.indices,
                Err(err) => walk.error == Some(err),
            }
        }),
        *final(error_counters) == old(error_counters).after(r),
{
    let limit = requested_loaded_accounts_data_size_limit;
    let ghost start = ChainWalk {
        accounts: working_set(accounts@),
        indices: Seq::<usize>::empty(),
        data_size: *accumulated_accounts_data_size,
        error: None,
    };
    if program_account_index >= accounts.len() {
        return Err(error_counters.record(TransactionError::ProgramAccountNotFound));
    }
    let mut program_id: Address = accounts[program_account_index].0;
    let already_loaded_as_non_loader = !accounts[program_account_index].1.is_default();
    let ghost first = program_id;
    let ghost goal = walk_chain(store@, first, 0, already_loaded_as_non_loader, limit, start);
    assert(goal == resolve_loaders(
        store@,
        working_set(old(accounts)@),
        program_account_index as int,
        *old(accumulated_accounts_data_size),
        limit,
    ));
    let mut account_indices: Vec<usize> = Vec::new();
    let mut depth: usize = 0;
    let ghost mut walk = start;
    while !same_address(&program_id, &NATIVE_LOADER_ID)
        invariant
            store.wf(),
            depth <= MAX_LOADER_DEPTH,
            walk.error is None,
            walk.accounts == working_set(accounts@),
            walk.indices == account_indices@,
            walk.data_size == *accumulated_accounts_data_size,
            *error_counters == *old(error_counters),
            goal == resolve_loaders(
                store@,
                working_set(old(accounts)@),
                program_account_index as int,
                *old(accumulated_accounts_data_size),
                limit,
            ),
            limit == requested_loaded_accounts_data_size_limit,
            goal == walk_chain(
                store@,
                program_id,
                depth as nat,
                already_loaded_as_non_loader,
                limit,
                walk,
            ),
        decreases MAX_LOADER_DEPTH - depth,
    {
        if depth >= MAX_LOADER_DEPTH {
            return Err(error_counters.record(TransactionError::CallChainTooDeep));
        }
        let counted = !(depth == 0 && already_loaded_as_non_loader);
        let ghost next = hop(store@, program_id, counted, limit, walk);
        depth += 1;
        let mut loaded_account_total_size: usize = 0;
        let program = match store.get(&program_id) {
            Some(program_account) => program_account,
            None => {
                return Err(error_counters.record(TransactionError::ProgramAccountNotFound));
            },
        };
        let program_account_index = accounts.len();
        if counted {
            loaded_account_total_size = loaded_account_total_size.saturating_add(
                program.data.len(),
            );
        }
        let copy = program.clone();
        proof {
            lemma_working_set_push(accounts@, program_id, copy);
        }
        accounts.push((program_id, copy));
        if !program.executable {
            return Err(error_counters.record(TransactionError::InvalidProgramForExecution));
        }
        let program_owner: Address = program.owner;
        account_indices.insert(0, program_account_index);
        if same_address(&program_owner, &BPF_LOADER_UPGRADEABLE_ID) {
            match companion_of(&program.data) {
                Some(programdata_address) => {
                    match store.get(&programdata_address) {
                        Some(programdata_account) => {
                            let programdata_account_index = accounts.len();
                            if counted {
                                loaded_account_total_size = loaded_account_total_size.saturating_add(
                                    programdata_account.data.len(),
                                );
                            }
                            let copy = programdata_account.clone();
                            proof {
                                lemma_working_set_push(accounts@, programdata_address, copy);
                            }
                            accounts.push((programdata_address, copy));
                            account_indices.insert(0, programdata_account_index);
                        },
                        None => {
                            return Err(
                                error_counters.record(TransactionError::ProgramAccountNotFound),
                            );
                        },
                    }
                },
                None => {
                    return Err(
                        error_counters.record(TransactionError::InvalidProgramForExecution),
                    );
                },
            }
        }
        let charged = accumulate_and_check_loaded_account_data_size(
            accumulated_accounts_data_size,
            loaded_account_total_size,
            limit,
            error_counters,
        );
        proof {
            assert(working_set(accounts@) == next.accounts);
            assert(account_indices@ == next.indices);
            assert(*accumulated_accounts_data_size == next.data_size);
        }
        match charged {
            Err(err) => {
                return Err(err);
            },
            Ok(_) => {},
        }
        proof {
            walk = next;
        }
        program_id = program_owner;
    }
    Ok(account_indices)
}

} // verus!
