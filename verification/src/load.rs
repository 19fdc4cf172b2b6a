//! The load stage: the working set of account copies that a transaction
//! runs on, and the loader chain of each of its instructions.

use crate::account::{lemma_working_set_push, working_set, Account, AccountView};
use crate::address::{
    same_address, Address, BPF_LOADER_UPGRADEABLE_ID, INSTRUCTIONS_SYSVAR_ID, SYSTEM_PROGRAM_ID,
    SYSVAR_OWNER_ID,
};
use crate::error::{TransactionError, TransactionErrorMetrics};
use crate::loader::{
    accumulate_and_check_loaded_account_data_size, budget_after, budget_exceeded,
    companion_address, companion_of, in_range, lemma_resolve_extends,
    load_executable_accounts, resolve_loaders, sat_size,
};
use crate::message::{instruction_views, MessageView, SanitizedMessage, SanitizedTransaction};
use crate::sdk::{instructions_account_data, instructions_sysvar_data, names_programdata};
use crate::store::AccountStore;
use crate::sysvar::FeatureSet;
use vstd::prelude::*;

verus! {

/// The working set of a transaction and the loader chain of each of its
/// instructions.
///
/// The working set holds one account for each key of the message, in the
/// order of the keys, then the companions of the upgradeable programs among
/// them, then the accounts of the loader chains as they were found. A
/// loader chain is a list of positions in the working set.
#[derive(Clone, Debug, PartialEq, Eq)]
pub struct LoadedTransaction {
    pub accounts: Vec<(Address, Account)>,
    pub program_indices: Vec<Vec<usize>>,
}

/// The loader chains by value.
pub open spec fn chains_view(chains: Seq<Vec<usize>>) -> Seq<Seq<usize>> {
    Seq::new(chains.len(), |i: int| chains[i]@)
}

/// Whether an account is a plain system account: owned by the system
/// program and without data. No other kind of account can pay a fee.
pub open spec fn is_system_account(account: AccountView) -> bool {
    account.owner == SYSTEM_PROGRAM_ID && account.data.len() == 0
}

/// Why an account cannot pay `fee`, if it cannot: it holds nothing, it is
/// not a plain system account, or it holds less than the fee.
pub open spec fn fee_payer_error(payer: AccountView, fee: u64) -> Option<TransactionError> {
    if payer.lamports == 0 {
        Some(TransactionError::AccountNotFound)
    } else if !is_system_account(payer) {
        Some(TransactionError::InvalidAccountForFee)
    } else if payer.lamports < fee {
        Some(TransactionError::InsufficientFundsForFee)
    } else {
        None
    }
}

/// Holds the fee payer against the fee.
pub fn validate_fee_payer(
    payer_account: &Account,
    error_counters: &mut TransactionErrorMetrics,
    fee: u64,
) -> (r: Result<(), TransactionError>)
    ensures
        match r {
            Ok(_) => fee_payer_error(payer_account@, fee) is None,
            Err(err) => fee_payer_error(payer_account@, fee) == Some(err),
        },
        *final(error_counters) == old(error_counters).after(r),
{
    if payer_account.lamports == 0 {
        return Err(error_counters.record(TransactionError::AccountNotFound));
    }
    let system = same_address(&payer_account.owner, &SYSTEM_PROGRAM_ID)
        && payer_account.data.len() == 0;
    if !system {
        return Err(error_counters.record(TransactionError::InvalidAccountForFee));
    }
    if payer_account.lamports < fee {
        return Err(error_counters.record(TransactionError::InsufficientFundsForFee));
    }
    Ok(())
}

/// The account that stands for the instructions system variable: the
/// message's instructions as data, no balance, owned by the system-variable
/// owner where the feature says so and by the system program otherwise.
pub open spec fn instructions_account(msg: MessageView, is_owned_by_sysvar: bool) -> AccountView {
    instructions_account_holding(instructions_sysvar_data(msg.decompiled()), is_owned_by_sysvar)
}

/// The instructions account with `data` as its data.
pub open spec fn instructions_account_holding(data: Seq<u8>, is_owned_by_sysvar: bool) -> AccountView {
    AccountView {
        lamports: 0,
        data,
        owner: if is_owned_by_sysvar {
            SYSVAR_OWNER_ID
        } else {
            SYSTEM_PROGRAM_ID
        },
        executable: false,
        rent_epoch: 0,
    }
}

/// Builds the instructions account around `data`.
pub fn instructions_account_with_data(data: Vec<u8>, is_owned_by_sysvar: bool) -> (r: Account)
    ensures
        r@ == instructions_account_holding(data@, is_owned_by_sysvar),
{
    let owner = if is_owned_by_sysvar {
        SYSVAR_OWNER_ID
    } else {
        SYSTEM_PROGRAM_ID
    };
    Account { lamports: 0, data, owner, executable: false, rent_epoch: 0 }
}

/// Synthesizes the account of the instructions system variable from the
/// message's instructions.
pub fn construct_instructions_account(message: &SanitizedMessage, is_owned_by_sysvar: bool) -> (r:
    Account)
    ensures
        r@ == instructions_account(message@, is_owned_by_sysvar),
{
    let decompiled = message.decompile_instructions();
    let data = instructions_account_data(&decompiled);
    instructions_account_with_data(data, is_owned_by_sysvar)
}

/// How far the load stage has come through the message's keys.
pub struct LoadWalk {
    /// One account for each key seen so far.
    pub accounts: Seq<(Address, AccountView)>,
    /// The companions of the upgradeable programs among them.
    pub dependencies: Seq<(Address, AccountView)>,
    /// Whether a fee payer was found and can pay.
    pub fee_payer_found: bool,
    /// The data loaded so far, where a budget is set.
    pub data_size: usize,
    /// Why loading ended early, if it did.
    pub error: Option<TransactionError>,
}

impl LoadWalk {
    /// The walk, ended by `err`.
    pub open spec fn failed(self, err: TransactionError) -> LoadWalk {
        LoadWalk { error: Some(err), ..self }
    }

    /// The walk after `account` was loaded for `key`, with `extra` bytes of
    /// a companion: the data of both is held against the budget, and the
    /// account joins the working set where the budget allows it.
    pub open spec fn loaded(
        self,
        key: Address,
        account: AccountView,
        extra: usize,
        limit: Option<usize>,
    ) -> LoadWalk {
        let size = sat_size(account.data.len() as usize, extra);
        if budget_exceeded(self.data_size, size, limit) {
            LoadWalk {
                data_size: budget_after(self.data_size, size, limit),
                error: Some(TransactionError::WouldExceedAccountDataTotalLimit),
                ..self
            }
        } else {
            LoadWalk {
                accounts: self.accounts.push((key, account)),
                data_size: budget_after(self.data_size, size, limit),
                ..self
            }
        }
    }
}

/// The account that the store answers for `key`: the stored one, or the
/// zeroed default.
pub open spec fn stored_or_default(store: Map<Address, AccountView>, key: Address) -> AccountView {
    if store.contains_key(key) {
        store[key]
    } else {
        AccountView::empty()
    }
}

/// The load of the key at position `i`.
///
/// A key that is only called as a program gets its stored account, or the
/// zeroed default, and nothing is asked of it here. The instructions system
/// variable gets its synthesized account. Every other key gets its stored
/// account, or the default. The first of these is the fee payer and must be
/// able to pay. An account owned by the upgradeable loader may be writable
/// only where that loader is among the keys; where it is executable, it
/// must name a stored companion, which joins the dependencies. No other
/// executable account may be writable.
pub open spec fn load_key(
    store: Map<Address, AccountView>,
    msg: MessageView,
    fee: u64,
    limit: Option<usize>,
    is_owned_by_sysvar: bool,
    i: int,
    walk: LoadWalk,
) -> LoadWalk {
    let key = msg.account_keys[i];
    if !msg.is_non_loader_key(i) {
        walk.loaded(key, stored_or_default(store, key), 0, limit)
    } else if key == INSTRUCTIONS_SYSVAR_ID {
        walk.loaded(key, instructions_account(msg, is_owned_by_sysvar), 0, limit)
    } else {
        let account = stored_or_default(store, key);
        if !walk.fee_payer_found && fee_payer_error(account, fee) is Some {
            walk.failed(fee_payer_error(account, fee)->0)
        } else {
            let paid = LoadWalk { fee_payer_found: true, ..walk };
            if account.owner == BPF_LOADER_UPGRADEABLE_ID {
                if msg.is_writable(i) && !msg.is_upgradeable_loader_present() {
                    paid.failed(TransactionError::InvalidWritableAccount)
                } else if !account.executable {
                    paid.loaded(key, account, 0, limit)
                } else if !names_programdata(account.data) {
                    paid.failed(TransactionError::InvalidProgramForExecution)
                } else if !store.contains_key(companion_address(account.data)) {
                    paid.failed(TransactionError::ProgramAccountNotFound)
                } else {
                    let companion = store[companion_address(account.data)];
                    (LoadWalk {
                        dependencies: paid.dependencies.push(
                            (companion_address(account.data), companion),
                        ),
                        ..paid
                    }).loaded(key, account, companion.data.len() as usize, limit)
                }
            } else if account.executable && msg.is_writable(i) {
                paid.failed(TransactionError::InvalidWritableAccount)
            } else {
                paid.loaded(key, account, 0, limit)
            }
        }
    }
}

/// The load of the keys from position `i` on, ending at the first key that
/// fails.
pub open spec fn load_from(
    store: Map<Address, AccountView>,
    msg: MessageView,
    fee: u64,
    limit: Option<usize>,
    is_owned_by_sysvar: bool,
    i: int,
    walk: LoadWalk,
) -> LoadWalk
    decreases msg.account_keys.len() - i,
{
    if i < 0 || i >= msg.account_keys.len() {
        walk
    } else {
        let next = load_key(store, msg, fee, limit, is_owned_by_sysvar, i, walk);
        if next.error is Some {
            next
        } else {
            load_from(store, msg, fee, limit, is_owned_by_sysvar, i + 1, next)
        }
    }
}

/// What loading gives: the working set and the loader chains, or an error.
pub struct LoadOutcome {
    pub accounts: Seq<(Address, AccountView)>,
    pub program_indices: Seq<Seq<usize>>,
    pub data_size: usize,
    pub error: Option<TransactionError>,
}

impl LoadOutcome {
    /// The outcome that is the error `err`.
    pub open spec fn failed(self, err: TransactionError) -> LoadOutcome {
        LoadOutcome { error: Some(err), ..self }
    }
}

/// The loader chains of the instructions from `k` on, each resolved on the
/// working set that the one before left, ending at the first that fails.
pub open spec fn resolve_from(
    store: Map<Address, AccountView>,
    msg: MessageView,
    limit: Option<usize>,
    k: int,
    sofar: LoadOutcome,
) -> LoadOutcome
    decreases msg.instructions.len() - k,
{
    if k < 0 || k >= msg.instructions.len() {
        sofar
    } else {
        let chain = resolve_loaders(
            store,
            sofar.accounts,
            msg.instructions[k].program_id_index as int,
            sofar.data_size,
            limit,
        );
        if chain.error is Some {
            sofar.failed(chain.error->0)
        } else {
            resolve_from(
                store,
                msg,
                limit,
                k + 1,
                LoadOutcome {
                    accounts: chain.accounts,
                    program_indices: sofar.program_indices.push(chain.indices),
                    data_size: chain.data_size,
                    error: None,
                },
            )
        }
    }
}

/// What loading a transaction gives.
///
/// A fee without a signature is refused. Then the keys are loaded in
/// order, and the companions that this found are put behind them. Without
/// a fee payer the transaction is refused. Then the loader chain of each
/// instruction's program is resolved, in order.
pub open spec fn load_outcome(
    store: Map<Address, AccountView>,
    signatures: nat,
    msg: MessageView,
    fee: u64,
    limit: Option<usize>,
    is_owned_by_sysvar: bool,
) -> LoadOutcome {
    let nothing = LoadOutcome {
        accounts: Seq::<(Address, AccountView)>::empty(),
        program_indices: Seq::<Seq<usize>>::empty(),
        data_size: 0,
        error: None,
    };
    let keys = load_from(
        store,
        msg,
        fee,
        limit,
        is_owned_by_sysvar,
        0,
        LoadWalk {
            accounts: Seq::<(Address, AccountView)>::empty(),
            dependencies: Seq::<(Address, AccountView)>::empty(),
            fee_payer_found: false,
            data_size: 0,
            error: None,
        },
    );
    if signatures == 0 && fee != 0 {
        nothing.failed(TransactionError::MissingSignatureForFee)
    } else if keys.error is Some {
        nothing.failed(keys.error->0)
    } else if !keys.fee_payer_found {
        nothing.failed(TransactionError::AccountNotFound)
    } else {
        resolve_from(
            store,
            msg,
            limit,
            0,
            LoadOutcome {
                accounts: keys.accounts + keys.dependencies,
                program_indices: Seq::<Seq<usize>>::empty(),
                data_size: keys.data_size,
                error: None,
            },
        )
    }
}

/// Whether the first accounts of a working set are those of `keys`, in
/// order.
pub open spec fn starts_with_keys(accounts: Seq<(Address, AccountView)>, keys: Seq<Address>) -> bool {
    &&& keys.len() <= accounts.len()
    &&& forall|i: int| 0 <= i < keys.len() ==> (#[trigger] accounts[i]).0 == keys[i]
}

/// Whether every position of every chain is that of one of `len` accounts.
pub open spec fn chains_in_range(chains: Seq<Seq<usize>>, len: nat) -> bool {
    forall|k: int| 0 <= k < chains.len() ==> in_range(#[trigger] chains[k], len)
}

/// Whether a working set and loader chains are those of a loaded form of
/// `msg`: the working set starts with one account for each key, in the
/// order of the keys; there is one chain for each instruction; and every
/// position of every chain is that of an account of the working set.
pub open spec fn fits_message(
    msg: MessageView,
    accounts: Seq<(Address, AccountView)>,
    chains: Seq<Seq<usize>>,
) -> bool {
    &&& starts_with_keys(accounts, msg.account_keys)
    &&& chains.len() == msg.instructions.len()
    &&& chains_in_range(chains, accounts.len())
}

proof fn lemma_load_from_shape(
    store: Map<Address, AccountView>,
    msg: MessageView,
    fee: u64,
    limit: Option<usize>,
    is_owned_by_sysvar: bool,
    i: int,
    walk: LoadWalk,
)
    requires
        0 <= i <= msg.account_keys.len(),
        walk.error is None,
        walk.accounts.len() == i,
        forall|j: int| 0 <= j < i ==> (#[trigger] walk.accounts[j]).0 == msg.account_keys[j],
    ensures
        ({
            let end = load_from(store, msg, fee, limit, is_owned_by_sysvar, i, walk);
            end.error is None ==> end.accounts.len() == msg.account_keys.len()
                && starts_with_keys(end.accounts, msg.account_keys)
        }),
    decreases msg.account_keys.len() - i,
{
    if i < msg.account_keys.len() {
        let next = load_key(store, msg, fee, limit, is_owned_by_sysvar, i, walk);
        if next.error is None {
            assert(next.accounts.len() == i + 1);
            assert forall|j: int| 0 <= j < i + 1 implies (#[trigger] next.accounts[j]).0
                == msg.account_keys[j] by {
                if j < i {
                    assert(next.accounts[j] == walk.accounts[j]);
                }
            }
            lemma_load_from_shape(store, msg, fee, limit, is_owned_by_sysvar, i + 1, next);
        }
    }
}

proof fn lemma_resolve_from_shape(
    store: Map<Address, AccountView>,
    msg: MessageView,
    limit: Option<usize>,
    k: int,
    sofar: LoadOutcome,
    keys: Seq<Address>,
)
    requires
        0 <= k <= msg.instructions.len(),
        sofar.error is None,
        starts_with_keys(sofar.accounts, keys),
        sofar.program_indices.len() == k,
        chains_in_range(sofar.program_indices, sofar.accounts.len()),
    ensures
        ({
            let end = resolve_from(store, msg, limit, k, sofar);
            end.error is None ==> {
                &&& starts_with_keys(end.accounts, keys)
                &&& end.program_indices.len() == msg.instructions.len()
                &&& chains_in_range(end.program_indices, end.accounts.len())
            }
        }),
    decreases msg.instructions.len() - k,
{
    if k < msg.instructions.len() {
        let index = msg.instructions[k].program_id_index as int;
        let chain = resolve_loaders(store, sofar.accounts, index, sofar.data_size, limit);
        lemma_resolve_extends(store, sofar.accounts, index, sofar.data_size, limit);
        if chain.error is None {
            let next = LoadOutcome {
                accounts: chain.accounts,
                program_indices: sofar.program_indices.push(chain.indices),
                data_size: chain.data_size,
                error: None,
            };
            assert(starts_with_keys(next.accounts, keys)) by {
                assert forall|i: int| 0 <= i < keys.len() implies (#[trigger] next.accounts[i]).0
                    == keys[i] by {
                    assert(next.accounts[i] == sofar.accounts[i]);
                }
            }
            assert(chains_in_range(next.program_indices, next.accounts.len())) by {
                assert forall|c: int| 0 <= c < next.program_indices.len() implies in_range(
                    #[trigger] next.program_indices[c],
                    next.accounts.len(),
                ) by {
                    if c < k {
                        assert(next.program_indices[c] == sofar.program_indices[c]);
                        assert(in_range(sofar.program_indices[c], sofar.accounts.len()));
                    }
                }
            }
            lemma_resolve_from_shape(store, msg, limit, k + 1, next, keys);
        }
    }
}

/// What a loaded transaction looks like: the working set starts with one
/// account for each key of the message, in the order of the keys; there is
/// one loader chain for each instruction; and every position of every chain
/// is that of an account of the working set.
pub proof fn lemma_loaded_fits_message(
    store: Map<Address, AccountView>,
    signatures: nat,
    msg: MessageView,
    fee: u64,
    limit: Option<usize>,
    is_owned_by_sysvar: bool,
)
    ensures
        ({
            let outcome = load_outcome(store, signatures, msg, fee, limit, is_owned_by_sysvar);
            outcome.error is None ==> fits_message(
                msg,
                outcome.accounts,
                outcome.program_indices,
            )
        }),
{
    let start = LoadWalk {
        accounts: Seq::<(Address, AccountView)>::empty(),
        dependencies: Seq::<(Address, AccountView)>::empty(),
        fee_payer_found: false,
        data_size: 0,
        error: None,
    };
    let keys = load_from(store, msg, fee, limit, is_owned_by_sysvar, 0, start);
    lemma_load_from_shape(store, msg, fee, limit, is_owned_by_sysvar, 0, start);
    if !(signatures == 0 && fee != 0) && keys.error is None && keys.fee_payer_found {
        let first = LoadOutcome {
            accounts: keys.accounts + keys.dependencies,
            program_indices: Seq::<Seq<usize>>::empty(),
            data_size: keys.data_size,
            error: None,
        };
        assert(starts_with_keys(first.accounts, msg.account_keys)) by {
            assert forall|i: int| 0 <= i < msg.account_keys.len() implies (
            #[trigger] first.accounts[i]).0 == msg.account_keys[i] by {
                assert(first.accounts[i] == keys.accounts[i]);
            }
        }
        lemma_resolve_from_shape(store, msg, limit, 0, first, msg.account_keys);
    }
}

/// A fee payer without balance is not found: where the first key of a
/// sanitized message is not the instructions system variable and the store
/// holds no balance for it, loading fails with `AccountNotFound`, whatever
/// else the message and the store hold.
pub proof fn lemma_unfunded_payer_is_not_found(
    store: Map<Address, AccountView>,
    signatures: nat,
    msg: MessageView,
    fee: u64,
    limit: Option<usize>,
    is_owned_by_sysvar: bool,
)
    requires
        msg.sanitized(),
        signatures > 0,
        msg.account_keys[0] != INSTRUCTIONS_SYSVAR_ID,
        stored_or_default(store, msg.account_keys[0]).lamports == 0,
    ensures
        load_outcome(store, signatures, msg, fee, limit, is_owned_by_sysvar).error == Some(
            TransactionError::AccountNotFound,
        ),
{
    let start = LoadWalk {
        accounts: Seq::<(Address, AccountView)>::empty(),
        dependencies: Seq::<(Address, AccountView)>::empty(),
        fee_payer_found: false,
        data_size: 0,
        error: None,
    };
    assert(!msg.is_key_called_as_program(0));
    assert(msg.is_non_loader_key(0));
    let first = load_key(store, msg, fee, limit, is_owned_by_sysvar, 0, start);
    assert(first.error == Some(TransactionError::AccountNotFound));
    assert(load_from(store, msg, fee, limit, is_owned_by_sysvar, 0, start) == first);
}

/// Loads the accounts of a transaction and resolves the loader chain of
/// each of its instructions. Nothing is written to the store.
pub fn load_tx_accounts(
    store: &AccountStore,
    tx: &SanitizedTransaction,
    fee: u64,
    error_counters: &mut TransactionErrorMetrics,
    feature_set: &FeatureSet,
    requested_loaded_accounts_data_size_limit: Option<usize>,
) -> (r: Result<LoadedTransaction, TransactionError>)
    requires
        store.wf(),
    ensures
        ({
            let outcome = load_outcome(
                store@,
                tx.spec_signatures().len(),
                tx.spec_message(),
                fee,
                requested_loaded_accounts_data_size_limit,
                feature_set.instructions_sysvar_owned_by_sysvar,
            );
            match r {
                Ok(loaded) => {
                    &&& outcome.error is None
                    &&& working_set(loaded.accounts@) == outcome.accounts
                    &&& chains_view(loaded.program_indices@) == outcome.program_indices
                },
                Err(err) => outcome.error == Some(err),
            }
        }),
        r matches Ok(loaded) ==> fits_message(
            tx.spec_message(),
            working_set(loaded.accounts@),
            chains_view(loaded.program_indices@),
        ),
        *final(error_counters) == old(error_counters).after(r),
{
    let limit = requested_loaded_accounts_data_size_limit;
    let is_owned_by_sysvar = feature_set.instructions_sysvar_owned_by_sysvar;
    proof {
        lemma_loaded_fits_message(
            store@,
            tx.spec_signatures().len(),
            tx.spec_message(),
            fee,
            limit,
            is_owned_by_sysvar,
        );
    }
    if tx.signatures().len() == 0 && fee != 0 {
        return Err(error_counters.record(TransactionError::MissingSignatureForFee));
    }
    let message = tx.message();
    let account_keys = message.account_keys();
    let ghost msg = message@;
    let ghost start = LoadWalk {
        accounts: Seq::<(Address, AccountView)>::empty(),
        dependencies: Seq::<(Address, AccountView)>::empty(),
        fee_payer_found: false,
        data_size: 0,
        error: None,
    };
    let ghost goal = load_from(store@, msg, fee, limit, is_owned_by_sysvar, 0, start);
    let mut validated_fee_payer = false;
    let mut accounts: Vec<(Address, Account)> = Vec::new();
    let mut account_deps: Vec<(Address, Account)> = Vec::new();
    let mut accumulated_accounts_data_size: usize = 0;
    let ghost mut walk = start;
    assert(working_set(accounts@) =~= walk.accounts);
    assert(working_set(account_deps@) =~= walk.dependencies);
    let mut i: usize = 0;
    while i < account_keys.len()
        invariant
            store.wf(),
            msg == message@,
            msg == tx.spec_message(),
            account_keys@ == msg.account_keys,
            i <= account_keys@.len(),
            walk.error is None,
            walk.accounts == working_set(accounts@),
            walk.dependencies == working_set(account_deps@),
            walk.fee_payer_found == validated_fee_payer,
            walk.data_size == accumulated_accounts_data_size,
            *error_counters == *old(error_counters),
            goal == load_from(store@, msg, fee, limit, is_owned_by_sysvar, i as int, walk),
            goal == load_from(store@, msg, fee, limit, is_owned_by_sysvar, 0, start),
            start == (LoadWalk {
                accounts: Seq::<(Address, AccountView)>::empty(),
                dependencies: Seq::<(Address, AccountView)>::empty(),
                fee_payer_found: false,
                data_size: 0,
                error: None,
            }),
            limit == requested_loaded_accounts_data_size_limit,
            is_owned_by_sysvar == feature_set.instructions_sysvar_owned_by_sysvar,
            !(tx.spec_signatures().len() == 0 && fee != 0),
        decreases account_keys@.len() - i,
    {
        let key: Address = account_keys[i];
        let ghost next = load_key(store@, msg, fee, limit, is_owned_by_sysvar, i as int, walk);
        let mut loaded_programdata_account_size: usize = 0;
        let account = if !message.is_non_loader_key(i) {
            store.get_or_default(&key)
        } else if same_address(&key, &INSTRUCTIONS_SYSVAR_ID) {
            construct_instructions_account(message, is_owned_by_sysvar)
        } else {
            let account = store.get_or_default(&key);
            if !validated_fee_payer {
                match validate_fee_payer(&account, error_counters, fee) {
                    Err(err) => {
                        return Err(err);
                    },
                    Ok(_) => {},
                }
                validated_fee_payer = true;
            }
            if same_address(&account.owner, &BPF_LOADER_UPGRADEABLE_ID) {
                if message.is_writable(i) && !message.is_upgradeable_loader_present() {
                    return Err(error_counters.record(TransactionError::InvalidWritableAccount));
                }
                if account.executable {
                    match companion_of(&account.data) {
                        Some(programdata_address) => {
                            match store.get(&programdata_address) {
                                Some(programdata_account) => {
                                    loaded_programdata_account_size =
                                    programdata_account.data.len();
                                    let copy = programdata_account.clone();
                                    proof {
                                        lemma_working_set_push(
                                            account_deps@,
                                            programdata_address,
                                            copy,
                                        );
                                    }
                                    account_deps.push((programdata_address, copy));
                                },
                                None => {
                                    return Err(
                                        error_counters.record(
                                            TransactionError::ProgramAccountNotFound,
                                        ),
                                    );
                                },
                            }
                        },
                        None => {
                            return Err(
                                error_counters.record(
                                    TransactionError::InvalidProgramForExecution,
                                ),
                            );
                        },
                    }
                }
            } else if account.executable && message.is_writable(i) {
                return Err(error_counters.record(TransactionError::InvalidWritableAccount));
            }
            account
        };
        match accumulate_and_check_loaded_account_data_size(
            &mut accumulated_accounts_data_size,
            account.data.len().saturating_add(loaded_programdata_account_size),
            limit,
            error_counters,
        ) {
            Err(err) => {
                return Err(err);
            },
            Ok(_) => {},
        }
        proof {
            lemma_working_set_push(accounts@, key, account);
        }
        accounts.push((key, account));
        proof {
            assert(next.error is None);
            assert(working_set(accounts@) == next.accounts);
            assert(working_set(account_deps@) == next.dependencies);
            walk = next;
        }
        i += 1;
    }
    let ghost primary = accounts@;
    let ghost deps = account_deps@;
    accounts.append(&mut account_deps);
    assert(working_set(accounts@) =~= working_set(primary) + working_set(deps));
    if !validated_fee_payer {
        return Err(error_counters.record(TransactionError::AccountNotFound));
    }
    let instructions = message.instructions();
    let ghost first = LoadOutcome {
        accounts: walk.accounts + walk.dependencies,
        program_indices: Seq::<Seq<usize>>::empty(),
        data_size: walk.data_size,
        error: None,
    };
    let ghost target = resolve_from(store@, msg, limit, 0, first);
    let ghost whole = load_outcome(
        store@,
        tx.spec_signatures().len(),
        tx.spec_message(),
        fee,
        requested_loaded_accounts_data_size_limit,
        feature_set.instructions_sysvar_owned_by_sysvar,
    );
    assert(whole == target);
    let ghost mut sofar = first;
    let mut program_indices: Vec<Vec<usize>> = Vec::new();
    assert(chains_view(program_indices@) =~= sofar.program_indices);
    let mut k: usize = 0;
    while k < instructions.len()
        invariant
            store.wf(),
            msg == message@,
            instruction_views(instructions@) == msg.instructions,
            k <= instructions@.len(),
            sofar.error is None,
            sofar.accounts == working_set(accounts@),
            sofar.program_indices == chains_view(program_indices@),
            sofar.data_size == accumulated_accounts_data_size,
            *error_counters == *old(error_counters),
            target == resolve_from(store@, msg, limit, k as int, sofar),
            limit == requested_loaded_accounts_data_size_limit,
            whole == target,
            whole == load_outcome(
                store@,
                tx.spec_signatures().len(),
                tx.spec_message(),
                fee,
                requested_loaded_accounts_data_size_limit,
                feature_set.instructions_sysvar_owned_by_sysvar,
            ),
        decreases instructions@.len() - k,
    {
        assert(msg.instructions[k as int] == instructions@[k as int]@);
        let chain = load_executable_accounts(
            store,
            &mut accounts,
            instructions[k].program_id_index as usize,
            error_counters,
            &mut accumulated_accounts_data_size,
            limit,
        );
        match chain {
            Err(err) => {
                return Err(err);
            },
            Ok(indices) => {
                proof {
                    sofar = LoadOutcome {
                        accounts: working_set(accounts@),
                        program_indices: sofar.program_indices.push(indices@),
                        data_size: accumulated_accounts_data_size,
                        error: None,
                    };
                    assert(chains_view(program_indices@.push(indices)) =~= chains_view(
                        program_indices@,
                    ).push(indices@));
                }
                program_indices.push(indices);
            },
        }
        k += 1;
    }
    Ok(LoadedTransaction { accounts, program_indices })
}

} // verus!
