//! The bank: the account store, the ledger clock, the transaction ledger,
//! and the pipeline that loads, executes and commits one transaction at a
//! time.

use crate::account::{
    create_loadable_account_with_fields, first_accounts, loadable_account, working_set, Account,
    AccountView,
};
use crate::address::{
    same_address, Address, Blockhash, Signature, BPF_LOADER_ID, BPF_LOADER_UPGRADEABLE_ID,
    CLOCK_SYSVAR_ID, NATIVE_LOADER_ID, RENT_SYSVAR_ID, SYSTEM_PROGRAM_ID, SYSVAR_OWNER_ID,
};
use crate::engine::{
    conclude_execution, concludes, BuiltinHandler, BuiltinProgram, ExecutionEngine,
    ExecutionRecord, TransactionExecutionResult, TransactionReturnData,
    DEFAULT_COMPUTE_UNIT_LIMIT,
};
use crate::error::{TransactionError, TransactionErrorMetrics};
use crate::ledger::{ConfirmedTransactionMeta, TransactionData, TransactionLedger};
use crate::load::{
    chains_view, fits_message, load_outcome, load_tx_accounts, LoadOutcome, LoadedTransaction,
};
use crate::message::{instruction_views, MessageView, SanitizedMessage, SanitizedTransaction};
use crate::sdk::{
    default_clock_data, default_rent_data, default_rent_minimum_balance, rent_minimum_balance,
    sha256, sha256_digest,
};
use crate::store::{inserted_all, AccountStore};
use crate::sysvar::{Clock, FeatureSet, Rent, SysvarCache};
use vstd::prelude::*;
use vstd::string::StringSliceAdditionalSpecFns;

verus! {

/// What a signature costs in this ledger: nothing.
pub const LAMPORTS_PER_SIGNATURE: u64 = 0;

/// The balance of a built-in program's account.
pub const BUILTIN_ACCOUNT_LAMPORTS: u64 = 1_000_000_000;

/// The rent epoch of a built-in program's account.
pub const BUILTIN_ACCOUNT_RENT_EPOCH: u64 = 1000;

/// The bytes that the genesis hash is made from: the text `playnet`.
pub open spec fn genesis_seed() -> Seq<u8> {
    seq![112u8, 108, 97, 121, 110, 101, 116]
}

/// The account of a program that the native loader owns from the start:
/// one lamport, no data, executable.
pub open spec fn native_program_account() -> AccountView {
    AccountView {
        lamports: 1,
        data: Seq::<u8>::empty(),
        owner: NATIVE_LOADER_ID,
        executable: true,
        rent_epoch: 0,
    }
}

/// The account of a system variable with the serialized value `data`.
pub open spec fn sysvar_account(data: Seq<u8>) -> AccountView {
    AccountView { lamports: 1, data, owner: SYSVAR_OWNER_ID, executable: false, rent_epoch: 0 }
}

/// The serialized clock of a fresh ledger: forty zero bytes.
pub open spec fn initial_clock_data() -> Seq<u8> {
    Seq::new(40, |i: int| 0u8)
}

/// The serialized rent parameters of a fresh ledger.
pub open spec fn initial_rent_data() -> Seq<u8> {
    seq![0x98u8, 0x0d, 0, 0, 0, 0, 0, 0, 0, 0, 0, 0, 0, 0, 0, 0x40, 50]
}

/// The accounts after initialization: the two loaders and the system
/// program, owned by the native loader, and the clock and rent system
/// variables.
pub open spec fn with_initial_accounts(accounts: Map<Address, AccountView>) -> Map<
    Address,
    AccountView,
> {
    accounts.insert(BPF_LOADER_ID, native_program_account()).insert(
        BPF_LOADER_UPGRADEABLE_ID,
        native_program_account(),
    ).insert(SYSTEM_PROGRAM_ID, native_program_account()).insert(
        CLOCK_SYSVAR_ID,
        sysvar_account(initial_clock_data()),
    ).insert(RENT_SYSVAR_ID, sysvar_account(initial_rent_data()))
}

/// The built-in programs after initialization.
pub open spec fn initial_builtins() -> Seq<BuiltinProgram> {
    seq![
        BuiltinProgram { program_id: BPF_LOADER_ID, handler: BuiltinHandler::BpfLoader },
        BuiltinProgram { program_id: BPF_LOADER_UPGRADEABLE_ID, handler: BuiltinHandler::BpfLoader },
        BuiltinProgram { program_id: SYSTEM_PROGRAM_ID, handler: BuiltinHandler::System },
    ]
}

/// The state of a bank as it is persisted: the accounts and the clock. The
/// transaction ledger is not part of it.
#[derive(Clone, Debug, PartialEq, Eq)]
pub struct BankSnapshot {
    pub accounts: Vec<(Address, Account)>,
    pub slot: u64,
    pub block_height: u64,
    pub genesis_hash: Blockhash,
    pub latest_blockhash: Blockhash,
}

/// What a simulation found: the outcome, the message's accounts before and
/// after execution, and what execution reported.
#[derive(Debug, PartialEq, Eq)]
pub struct SimulateTransactionResult {
    pub result: Result<(), TransactionError>,
    pub pre_accounts: Vec<(Address, Account)>,
    pub post_accounts: Vec<(Address, Account)>,
    pub logs: Vec<String>,
    pub units_consumed: u64,
    pub return_data: Option<TransactionReturnData>,
}

impl SimulateTransactionResult {
    /// Whether this is the result of a transaction that was dropped with
    /// `err`: it carries the error and nothing else.
    pub open spec fn is_failure(self, err: TransactionError) -> bool {
        &&& self.result == Err::<(), TransactionError>(err)
        &&& self.pre_accounts@.len() == 0
        &&& self.post_accounts@.len() == 0
        &&& self.logs@.len() == 0
        &&& self.units_consumed == 0
        &&& self.return_data is None
    }

    /// Puts a result together.
    pub fn new(
        result: Result<(), TransactionError>,
        pre_accounts: Vec<(Address, Account)>,
        post_accounts: Vec<(Address, Account)>,
        logs: Vec<String>,
        units_consumed: u64,
        return_data: Option<TransactionReturnData>,
    ) -> (r: Self)
        ensures
            r == (SimulateTransactionResult {
                result,
                pre_accounts,
                post_accounts,
                logs,
                units_consumed,
                return_data,
            }),
    {
        SimulateTransactionResult {
            result,
            pre_accounts,
            post_accounts,
            logs,
            units_consumed,
            return_data,
        }
    }

    /// The result of a transaction that was dropped with `err`.
    pub fn new_error(err: TransactionError) -> (r: Self)
        ensures
            r.is_failure(err),
    {
        SimulateTransactionResult {
            result: Err(err),
            pre_accounts: Vec::new(),
            post_accounts: Vec::new(),
            logs: Vec::new(),
            units_consumed: 0,
            return_data: None,
        }
    }
}

/// The balances of a list of accounts, in order.
pub open spec fn balances(accounts: Seq<(Address, AccountView)>) -> Seq<u64> {
    Seq::new(accounts.len(), |i: int| accounts[i].1.lamports)
}

/// The balances of a list of accounts, in order.
pub fn balances_of(accounts: &Vec<(Address, Account)>) -> (r: Vec<u64>)
    ensures
        r@ == balances(working_set(accounts@)),
{
    let mut out: Vec<u64> = Vec::new();
    let mut i: usize = 0;
    while i < accounts.len()
        invariant
            i <= accounts@.len(),
            out@.len() == i,
            forall|j: int| 0 <= j < i ==> out@[j] == accounts@[j].1.lamports,
        decreases accounts@.len() - i,
    {
        out.push(accounts[i].1.lamports);
        i += 1;
    }
    assert(out@ =~= balances(working_set(accounts@)));
    out
}

/// Whether a message holds an instruction that writes a chunk of a program
/// to the upgradeable loader: one of that loader whose data starts with the
/// byte 1. Such a transaction is committed without a ledger entry.
pub open spec fn is_write_chunk(msg: MessageView) -> bool {
    exists|i: int|
        0 <= i < msg.instructions.len() && msg.program_id(i) == BPF_LOADER_UPGRADEABLE_ID && (
        #[trigger] msg.instructions[i]).data.len() > 0 && msg.instructions[i].data[0] == 1
}

/// Whether a message holds an instruction that writes a chunk of a program
/// to the upgradeable loader.
pub fn has_write_chunk(message: &SanitizedMessage) -> (r: bool)
    ensures
        r == is_write_chunk(message@),
{
    let keys = message.account_keys();
    let instructions = message.instructions();
    let mut i: usize = 0;
    while i < instructions.len()
        invariant
            message@.sanitized(),
            keys@ == message@.account_keys,
            instruction_views(instructions@) == message@.instructions,
            i <= instructions@.len(),
            forall|k: int|
                0 <= k < i ==> !(message@.program_id(k) == BPF_LOADER_UPGRADEABLE_ID && (
                #[trigger] message@.instructions[k]).data.len() > 0
                    && message@.instructions[k].data[0] == 1),
        decreases instructions@.len() - i,
    {
        let ix = &instructions[i];
        assert(message@.instructions[i as int] == ix@);
        if same_address(&keys[ix.program_id_index as usize], &BPF_LOADER_UPGRADEABLE_ID)
            && ix.data.len() > 0 && ix.data[0] == 1 {
            return true;
        }
        i += 1;
    }
    false
}

/// The fee for `signatures` signatures, counted as one where there is none,
/// at `lamports_per_signature` each; `None` where the product does not fit.
pub open spec fn signature_fee(signatures: u8, lamports_per_signature: u64) -> Option<u64> {
    let charged: int = if signatures < 1 {
        1
    } else {
        signatures as int
    };
    if charged * lamports_per_signature <= u64::MAX {
        Some((charged * lamports_per_signature) as u64)
    } else {
        None
    }
}

/// The fee that processing records for a message: its fee at this ledger's
/// cost of a signature.
pub open spec fn message_fee(msg: MessageView) -> u64 {
    match signature_fee(msg.header.num_required_signatures, LAMPORTS_PER_SIGNATURE) {
        Some(fee) => fee,
        None => 0,
    }
}

/// The balance that exempts an account from rent, given what the rent
/// parameters ask for: at least one lamport.
pub fn rent_exemption_floor(minimum_balance: u64) -> (r: u64)
    ensures
        r == if minimum_balance < 1 {
            1
        } else {
            minimum_balance
        },
{
    if minimum_balance < 1 {
        1
    } else {
        minimum_balance
    }
}

/// Derives a blockhash from bytes: their SHA-256 digest.
pub fn create_blockhash(bytes: &[u8]) -> (r: Blockhash)
    ensures
        r@ == sha256_digest(bytes@),
{
    sha256(bytes)
}

/// The mathematical value of a [`PgBank`].
pub struct BankView {
    /// The account store.
    pub accounts: Map<Address, AccountView>,
    /// The transaction ledger.
    pub txs: Map<Signature, TransactionData>,
    pub slot: u64,
    pub block_height: u64,
    pub genesis_hash: Blockhash,
    pub latest_blockhash: Blockhash,
    pub builtin_programs: Seq<BuiltinProgram>,
    pub sysvar_cache: SysvarCache,
    pub feature_set: FeatureSet,
}

impl BankView {
    /// What loading `tx` gives on these accounts: without a fee, without a
    /// budget, and with no feature active.
    pub open spec fn load(self, tx: SanitizedTransaction) -> LoadOutcome {
        load_outcome(
            self.accounts,
            tx.spec_signatures().len(),
            tx.spec_message(),
            0,
            None,
            false,
        )
    }

    /// Whether `data` is what a commit records of `tx`, simulated as
    /// `result` and charged `fee`, on this bank.
    pub open spec fn records(
        self,
        data: TransactionData,
        tx: SanitizedTransaction,
        result: SimulateTransactionResult,
        fee: u64,
    ) -> bool {
        &&& data.slot == self.slot
        &&& data.tx == tx
        &&& data.block_time == Some(self.sysvar_cache.clock.unix_timestamp)
        &&& data.meta matches Some(meta)
        &&& meta.fee == fee
        &&& meta.inner_instructions is None
        &&& meta.pre_balances@ == balances(working_set(result.pre_accounts@))
        &&& meta.post_balances@ == balances(working_set(result.post_accounts@))
        &&& meta.log_messages == Some(result.logs)
        &&& meta.err == match result.result {
            Ok(_) => None::<TransactionError>,
            Err(err) => Some(err),
        }
        &&& meta.compute_units_consumed == Some(result.units_consumed)
    }

    /// Whether `after` is this bank one step later: the next slot, the next
    /// block height, and the blockhash derived from the latest one. The
    /// accounts, the ledger and everything else are left to the caller.
    pub open spec fn advanced_to(self, after: BankView) -> bool {
        &&& after.slot == self.slot + 1
        &&& after.block_height == self.block_height + 1
        &&& after.latest_blockhash@ == sha256_digest(self.latest_blockhash@)
        &&& after.genesis_hash == self.genesis_hash
        &&& after.builtin_programs == self.builtin_programs
        &&& after.sysvar_cache == self.sysvar_cache
        &&& after.feature_set == self.feature_set
    }

    /// Whether the commit stage takes this bank to `after` and answers `r`
    /// for `tx`, simulated as `result` and charged `fee`.
    ///
    /// A transaction that writes a chunk of a program is answered with its
    /// signature and changes nothing. A signature that has an entry is
    /// refused and changes nothing. Otherwise the transaction is recorded
    /// under its signature and the clock advances by one step.
    pub open spec fn saves(
        self,
        tx: SanitizedTransaction,
        result: SimulateTransactionResult,
        fee: u64,
        after: BankView,
        r: Result<Signature, TransactionError>,
    ) -> bool {
        let signature = tx.spec_signature();
        if is_write_chunk(tx.spec_message()) {
            after == self && r == Ok::<Signature, TransactionError>(signature)
        } else if self.txs.contains_key(signature) {
            after == self && r == Err::<Signature, TransactionError>(
                TransactionError::AlreadyProcessed,
            )
        } else {
            &&& r == Ok::<Signature, TransactionError>(signature)
            &&& after.accounts == self.accounts
            &&& after.txs.contains_key(signature)
            &&& after.txs == self.txs.insert(signature, after.txs[signature])
            &&& self.records(after.txs[signature], tx, result, fee)
            &&& self.advanced_to(after)
        }
    }

    /// Whether processing takes this bank to `after` and answers `r` for
    /// `tx`, simulated as `result` and charged the fee of its message.
    ///
    /// A failed simulation is answered with its error and changes nothing.
    /// So does one whose signature has an entry, unless the transaction
    /// writes a chunk of a program. Otherwise the accounts after execution
    /// are written to the store and the commit stage does the rest.
    pub open spec fn processes(
        self,
        tx: SanitizedTransaction,
        result: SimulateTransactionResult,
        after: BankView,
        r: Result<Signature, TransactionError>,
    ) -> bool {
        match result.result {
            Err(err) => after == self && r == Err::<Signature, TransactionError>(err),
            Ok(_) => (BankView {
                accounts: if !is_write_chunk(tx.spec_message()) && self.txs.contains_key(
                    tx.spec_signature(),
                ) {
                    self.accounts
                } else {
                    inserted_all(
                        self.accounts,
                        working_set(result.post_accounts@),
                        result.post_accounts@.len(),
                    )
                },
                ..self
            }).saves(tx, result, message_fee(tx.spec_message()), after, r),
        }
    }
}

/// A transaction that was committed is refused when it comes again: where
/// processing a transaction that writes no chunk of a program succeeded,
/// processing it once more fails and changes nothing, whatever its second
/// simulation gave; and where that simulation succeeded, the error is that
/// the transaction was already processed.
pub proof fn lemma_resubmission_is_refused(
    before: BankView,
    tx: SanitizedTransaction,
    first: SimulateTransactionResult,
    between: BankView,
    r1: Result<Signature, TransactionError>,
    second: SimulateTransactionResult,
    after: BankView,
    r2: Result<Signature, TransactionError>,
)
    requires
        !is_write_chunk(tx.spec_message()),
        before.processes(tx, first, between, r1),
        r1 is Ok,
        between.processes(tx, second, after, r2),
    ensures
        r2 is Err,
        after == between,
        second.result is Ok ==> r2 == Err::<Signature, TransactionError>(
            TransactionError::AlreadyProcessed,
        ),
{
    assert(between.txs.contains_key(tx.spec_signature()));
    assert((BankView { accounts: between.accounts, ..between }) == between);
}

/// A transaction that writes a chunk of a program is applied again when it
/// comes again: whatever the ledger holds, a successful simulation of it is
/// answered with its signature, its accounts are written to the store, and
/// the ledger and the clock stay as they are.
pub proof fn lemma_write_chunk_is_applied_again(
    before: BankView,
    tx: SanitizedTransaction,
    result: SimulateTransactionResult,
    after: BankView,
    r: Result<Signature, TransactionError>,
)
    requires
        is_write_chunk(tx.spec_message()),
        result.result is Ok,
        before.processes(tx, result, after, r),
    ensures
        r == Ok::<Signature, TransactionError>(tx.spec_signature()),
        after == (BankView {
            accounts: inserted_all(
                before.accounts,
                working_set(result.post_accounts@),
                result.post_accounts@.len(),
            ),
            ..before
        }),
{
}

/// A failed execution changes nothing: where the simulation ended in an
/// error, processing answers that error and leaves the bank, its account
/// store included, as it was.
pub proof fn lemma_failure_changes_nothing(
    before: BankView,
    tx: SanitizedTransaction,
    result: SimulateTransactionResult,
    after: BankView,
    r: Result<Signature, TransactionError>,
)
    requires
        result.result is Err,
        before.processes(tx, result, after, r),
    ensures
        after == before,
        r == Err::<Signature, TransactionError>(result.result->Err_0),
{
}

/// Each commit with a ledger entry advances the clock by exactly one step:
/// where processing a transaction that writes no chunk of a program
/// succeeded, the slot and the block height are one higher, and the latest
/// blockhash is the digest of the one before.
pub proof fn lemma_commit_advances_clock(
    before: BankView,
    tx: SanitizedTransaction,
    result: SimulateTransactionResult,
    after: BankView,
    r: Result<Signature, TransactionError>,
)
    requires
        !is_write_chunk(tx.spec_message()),
        before.processes(tx, result, after, r),
        r is Ok,
    ensures
        after.slot == before.slot + 1,
        after.block_height == before.block_height + 1,
        after.latest_blockhash@ == sha256_digest(before.latest_blockhash@),
{
}

/// A single-process ledger: accounts, a clock of slots and blockhashes, and
/// the transactions that were committed.
pub struct PgBank {
    accounts: AccountStore,
    txs: TransactionLedger,
    slot: u64,
    block_height: u64,
    genesis_hash: Blockhash,
    latest_blockhash: Blockhash,
    builtin_programs: Vec<BuiltinProgram>,
    sysvar_cache: SysvarCache,
    feature_set: FeatureSet,
}

impl View for PgBank {
    type V = BankView;

    closed spec fn view(&self) -> BankView {
        BankView {
            accounts: self.accounts@,
            txs: self.txs@,
            slot: self.slot,
            block_height: self.block_height,
            genesis_hash: self.genesis_hash,
            latest_blockhash: self.latest_blockhash,
            builtin_programs: self.builtin_programs@,
            sysvar_cache: self.sysvar_cache,
            feature_set: self.feature_set,
        }
    }
}

impl PgBank {
    /// What holds of every bank: no address is stored twice and no
    /// signature is recorded twice.
    pub closed spec fn wf(&self) -> bool {
        self.accounts.wf() && self.txs.wf()
    }

    /// The table of built-in programs as the value that it is held as.
    pub closed spec fn builtin_table(&self) -> Vec<BuiltinProgram> {
        self.builtin_programs
    }

    /// A bank restored from `snapshot`, or a fresh one, initialized.
    ///
    /// A fresh bank starts at slot 0 and block height 0 with the genesis
    /// hash as its latest blockhash. Initialization stores the accounts of
    /// the built-in programs and of the clock and rent system variables,
    /// over what a snapshot may hold for their addresses.
    pub fn new(snapshot: Option<BankSnapshot>) -> (r: Self)
        ensures
            r.wf(),
            r@.txs == Map::<Signature, TransactionData>::empty(),
            r@.builtin_programs == initial_builtins(),
            r@.sysvar_cache == (SysvarCache { clock: Clock::initial(), rent: Rent::initial() }),
            r@.feature_set == (FeatureSet { instructions_sysvar_owned_by_sysvar: false }),
            match snapshot {
                Some(s) => {
                    &&& r@.accounts == with_initial_accounts(
                        inserted_all(
                            Map::<Address, AccountView>::empty(),
                            working_set(s.accounts@),
                            s.accounts@.len(),
                        ),
                    )
                    &&& r@.slot == s.slot
                    &&& r@.block_height == s.block_height
                    &&& r@.genesis_hash == s.genesis_hash
                    &&& r@.latest_blockhash == s.latest_blockhash
                },
                None => {
                    &&& r@.accounts == with_initial_accounts(Map::<Address, AccountView>::empty())
                    &&& r@.slot == 0
                    &&& r@.block_height == 0
                    &&& r@.genesis_hash@ == sha256_digest(genesis_seed())
                    &&& r@.latest_blockhash == r@.genesis_hash
                },
            },
    {
        let bank = match snapshot {
            Some(s) => {
                let mut accounts = AccountStore::new();
                accounts.set_all(&s.accounts);
                PgBank {
                    accounts,
                    txs: TransactionLedger::new(),
                    slot: s.slot,
                    block_height: s.block_height,
                    genesis_hash: s.genesis_hash,
                    latest_blockhash: s.latest_blockhash,
                    builtin_programs: Vec::new(),
                    sysvar_cache: SysvarCache::default(),
                    feature_set: FeatureSet::default(),
                }
            },
            None => {
                let seed: [u8; 7] = [112, 108, 97, 121, 110, 101, 116];
                assert(seed@ =~= genesis_seed());
                let genesis_hash = create_blockhash(seed.as_slice());
                PgBank {
                    accounts: AccountStore::new(),
                    txs: TransactionLedger::new(),
                    slot: 0,
                    block_height: 0,
                    genesis_hash,
                    latest_blockhash: genesis_hash,
                    builtin_programs: Vec::new(),
                    sysvar_cache: SysvarCache::default(),
                    feature_set: FeatureSet::default(),
                }
            },
        };
        bank.init()
    }

    /// A bank at slot 0 that holds `accounts` and starts from
    /// `genesis_hash`, initialized.
    pub fn new_with_more(accounts: AccountStore, genesis_hash: Blockhash) -> (r: Self)
        requires
            accounts.wf(),
        ensures
            r.wf(),
            r@ == (BankView {
                accounts: with_initial_accounts(accounts@),
                txs: Map::<Signature, TransactionData>::empty(),
                slot: 0,
                block_height: 0,
                genesis_hash,
                latest_blockhash: genesis_hash,
                builtin_programs: initial_builtins(),
                sysvar_cache: SysvarCache { clock: Clock::initial(), rent: Rent::initial() },
                feature_set: FeatureSet { instructions_sysvar_owned_by_sysvar: false },
            }),
    {
        let bank = PgBank {
            accounts,
            txs: TransactionLedger::new(),
            slot: 0,
            block_height: 0,
            genesis_hash,
            latest_blockhash: genesis_hash,
            builtin_programs: Vec::new(),
            sysvar_cache: SysvarCache::default(),
            feature_set: FeatureSet::default(),
        };
        bank.init()
    }

    /// Stores the accounts of the built-in programs and of the system
    /// variables, fills the system-variable cache and the table of built-in
    /// programs, and resets the features.
    fn init(self) -> (r: Self)
        requires
            self.wf(),
        ensures
            r.wf(),
            r@ == (BankView {
                accounts: with_initial_accounts(self@.accounts),
                builtin_programs: initial_builtins(),
                sysvar_cache: SysvarCache { clock: Clock::initial(), rent: Rent::initial() },
                feature_set: FeatureSet { instructions_sysvar_owned_by_sysvar: false },
                ..self@
            }),
    {
        let mut bank = self;
        let mut native = Account::new(1, 0, &NATIVE_LOADER_ID);
        native.executable = true;
        assert(native@.data =~= Seq::<u8>::empty());
        bank.accounts.set(BPF_LOADER_ID, native.clone());
        bank.accounts.set(BPF_LOADER_UPGRADEABLE_ID, native.clone());
        bank.accounts.set(SYSTEM_PROGRAM_ID, native);
        let clock = Account {
            lamports: 1,
            data: default_clock_data(),
            owner: SYSVAR_OWNER_ID,
            executable: false,
            rent_epoch: 0,
        };
        bank.accounts.set(CLOCK_SYSVAR_ID, clock);
        let rent = Account {
            lamports: 1,
            data: default_rent_data(),
            owner: SYSVAR_OWNER_ID,
            executable: false,
            rent_epoch: 0,
        };
        bank.accounts.set(RENT_SYSVAR_ID, rent);
        bank.sysvar_cache = SysvarCache { clock: Clock::default(), rent: Rent::default() };
        let mut builtins: Vec<BuiltinProgram> = Vec::new();
        builtins.push(
            BuiltinProgram { program_id: BPF_LOADER_ID, handler: BuiltinHandler::BpfLoader },
        );
        builtins.push(
            BuiltinProgram {
                program_id: BPF_LOADER_UPGRADEABLE_ID,
                handler: BuiltinHandler::BpfLoader,
            },
        );
        builtins.push(
            BuiltinProgram { program_id: SYSTEM_PROGRAM_ID, handler: BuiltinHandler::System },
        );
        assert(builtins@ =~= initial_builtins());
        bank.builtin_programs = builtins;
        bank.feature_set = FeatureSet::default();
        bank
    }

    /// The state of the bank as it is persisted: every account, each
    /// address once, and the clock. A bank restored from it holds these
    /// accounts, with those of initialization over them.
    pub fn snapshot(&self) -> (r: BankSnapshot)
        requires
            self.wf(),
        ensures
            inserted_all(
                Map::<Address, AccountView>::empty(),
                working_set(r.accounts@),
                r.accounts@.len(),
            ) == self@.accounts,
            forall|i: int, j: int|
                0 <= i < j < r.accounts@.len() ==> r.accounts@[i].0 != r.accounts@[j].0,
            r.slot == self@.slot,
            r.block_height == self@.block_height,
            r.genesis_hash == self@.genesis_hash,
            r.latest_blockhash == self@.latest_blockhash,
    {
        BankSnapshot {
            accounts: self.accounts.to_entries(),
            slot: self.slot,
            block_height: self.block_height,
            genesis_hash: self.genesis_hash,
            latest_blockhash: self.latest_blockhash,
        }
    }

    /// Stores a copy of `account` under `key`, replacing what was there.
    pub fn add_account(&mut self, key: &Address, account: &Account)
        requires
            old(self).wf(),
        ensures
            final(self).wf(),
            final(self)@ == (BankView {
                accounts: old(self)@.accounts.insert(*key, account@),
                ..old(self)@
            }),
    {
        self.accounts.set(*key, account.clone());
    }

    /// Installs a built-in program: `handler` joins the table of built-in
    /// programs under `program_id`, and the address gets the account of a
    /// program that the native loader runs, with `name` as its data.
    pub fn add_builtin(&mut self, name: &str, program_id: &Address, handler: BuiltinHandler)
        requires
            old(self).wf(),
        ensures
            final(self).wf(),
            final(self)@ == (BankView {
                accounts: old(self)@.accounts.insert(
                    *program_id,
                    loadable_account(
                        name.spec_bytes(),
                        BUILTIN_ACCOUNT_LAMPORTS,
                        BUILTIN_ACCOUNT_RENT_EPOCH,
                    ),
                ),
                builtin_programs: old(self)@.builtin_programs.push(
                    BuiltinProgram { program_id: *program_id, handler },
                ),
                ..old(self)@
            }),
    {
        self.builtin_programs.push(BuiltinProgram { program_id: *program_id, handler });
        let account = create_loadable_account_with_fields(
            name,
            BUILTIN_ACCOUNT_LAMPORTS,
            BUILTIN_ACCOUNT_RENT_EPOCH,
        );
        self.add_account(program_id, &account);
    }

    /// The current slot.
    pub fn get_slot(&self) -> (r: u64)
        ensures
            r == self@.slot,
    {
        self.slot
    }

    /// The current block height.
    pub fn get_block_height(&self) -> (r: u64)
        ensures
            r == self@.block_height,
    {
        self.block_height
    }

    /// The hash that the ledger started from.
    pub fn get_genesis_hash(&self) -> (r: Blockhash)
        ensures
            r == self@.genesis_hash,
    {
        self.genesis_hash
    }

    /// The latest blockhash.
    pub fn get_latest_blockhash(&self) -> (r: Blockhash)
        ensures
            r == self@.latest_blockhash,
    {
        self.latest_blockhash
    }

    /// The balance that exempts an account with `data_len` bytes of data
    /// from rent under the default rent parameters: what those ask for, and
    /// at least one lamport. For every length that occurs in practice that
    /// is two years of rent at 3480 lamports a year for each byte of the
    /// data and of 128 bytes of overhead.
    pub fn get_minimum_balance_for_rent_exemption(&self, data_len: usize) -> (r: u64)
        requires
            (data_len + 128) * 3480 <= u64::MAX,
        ensures
            r == if default_rent_minimum_balance(data_len) < 1 {
                1
            } else {
                default_rent_minimum_balance(data_len)
            },
            (data_len + 128) * 3480 < 0x20_0000_0000_0000 ==> r == 2 * ((data_len + 128) * 3480),
    {
        rent_exemption_floor(rent_minimum_balance(data_len))
    }

    /// The features of the bank.
    pub fn feature_set(&self) -> (r: &FeatureSet)
        ensures
            *r == self@.feature_set,
    {
        &self.feature_set
    }

    /// The built-in programs, in the order in which they were installed.
    pub fn builtin_programs(&self) -> (r: &Vec<BuiltinProgram>)
        ensures
            *r == self.builtin_table(),
            r@ == self@.builtin_programs,
    {
        &self.builtin_programs
    }

    /// The system variables as execution reads them.
    pub fn sysvar_cache(&self) -> (r: &SysvarCache)
        ensures
            *r == self@.sysvar_cache,
    {
        &self.sysvar_cache
    }

    /// The account stored under `pubkey`; `None` where the address is
    /// absent.
    pub fn get_account(&self, pubkey: &Address) -> (r: Option<&Account>)
        requires
            self.wf(),
        ensures
            r is Some == self@.accounts.contains_key(*pubkey),
            r is Some ==> r->0@ == self@.accounts[*pubkey],
    {
        self.accounts.get(pubkey)
    }

    /// The account stored under `pubkey`, or the zeroed default account
    /// where the address is absent.
    pub fn get_account_default(&self, pubkey: &Address) -> (r: Account)
        requires
            self.wf(),
        ensures
            r@ == if self@.accounts.contains_key(*pubkey) {
                self@.accounts[*pubkey]
            } else {
                AccountView::empty()
            },
    {
        self.accounts.get_or_default(pubkey)
    }

    /// Stores `account` under `pubkey` and returns what was stored there
    /// before.
    pub fn set_account(&mut self, pubkey: Address, account: Account) -> (r: Option<Account>)
        requires
            old(self).wf(),
        ensures
            final(self).wf(),
            final(self)@ == (BankView {
                accounts: old(self)@.accounts.insert(pubkey, account@),
                ..old(self)@
            }),
            r is Some == old(self)@.accounts.contains_key(pubkey),
            r is Some ==> r->0@ == old(self)@.accounts[pubkey],
    {
        self.accounts.set(pubkey, account)
    }

    /// The fee of a message at this ledger's cost of a signature: the
    /// number of required signatures, at least one, times that cost; `None`
    /// where the product does not fit. As a signature costs nothing here,
    /// the fee is nothing.
    pub fn get_fee_for_message(&self, msg: &SanitizedMessage) -> (r: Option<u64>)
        ensures
            r == signature_fee(msg@.header.num_required_signatures, LAMPORTS_PER_SIGNATURE),
            r == Some(0u64),
    {
        let signatures = msg.header().num_required_signatures;
        let charged: u64 = if signatures < 1 {
            1
        } else {
            signatures as u64
        };
        charged.checked_mul(LAMPORTS_PER_SIGNATURE)
    }

    /// The record of the transaction committed under `signature`; `None`
    /// where there is none.
    pub fn get_tx(&self, signature: &Signature) -> (r: Option<&TransactionData>)
        requires
            self.wf(),
        ensures
            r is Some == self@.txs.contains_key(*signature),
            r is Some ==> *r->0 == self@.txs[*signature],
    {
        self.txs.get(signature)
    }

    /// Advances the clock by one step: the next slot, the next block
    /// height, and the blockhash derived from the latest one.
    fn new_slot(&mut self)
        requires
            old(self).wf(),
            old(self)@.slot < u64::MAX,
            old(self)@.block_height < u64::MAX,
        ensures
            final(self).wf(),
            old(self)@.advanced_to(final(self)@),
            final(self)@.accounts == old(self)@.accounts,
            final(self)@.txs == old(self)@.txs,
    {
        self.latest_blockhash = create_blockhash(self.latest_blockhash.as_slice());
        self.slot += 1;
        self.block_height += 1;
    }

    /// The commit stage: records a simulated transaction in the ledger and
    /// advances the clock.
    pub fn save_tx(
        &mut self,
        tx: SanitizedTransaction,
        result: SimulateTransactionResult,
        fee: u64,
    ) -> (r: Result<Signature, TransactionError>)
        requires
            old(self).wf(),
            old(self)@.slot < u64::MAX,
            old(self)@.block_height < u64::MAX,
        ensures
            final(self).wf(),
            old(self)@.saves(tx, result, fee, final(self)@, r),
    {
        let signature: Signature = *tx.signature();
        if has_write_chunk(tx.message()) {
            return Ok(signature);
        }
        if self.txs.contains(&signature) {
            return Err(TransactionError::AlreadyProcessed);
        }
        let ghost before = self@;
        let SimulateTransactionResult {
            result: status,
            pre_accounts,
            post_accounts,
            logs,
            units_consumed,
            return_data: _,
        } = result;
        let err = match status {
            Ok(_) => None,
            Err(err) => Some(err),
        };
        let meta = ConfirmedTransactionMeta {
            fee,
            inner_instructions: None,
            pre_balances: balances_of(&pre_accounts),
            post_balances: balances_of(&post_accounts),
            log_messages: Some(logs),
            err,
            compute_units_consumed: Some(units_consumed),
        };
        let data = TransactionData::new(
            self.slot,
            tx,
            Some(meta),
            Some(self.sysvar_cache.clock.unix_timestamp),
        );
        assert(before.records(data, tx, result, fee));
        self.txs.insert(signature, data);
        self.new_slot();
        assert(self@.txs[signature] == data);
        Ok(signature)
    }

    /// Loads a transaction on the bank's accounts: without a fee, without
    /// a data budget and with no feature active. Nothing is written.
    pub fn load_tx(&self, tx: &SanitizedTransaction) -> (r: Result<
        LoadedTransaction,
        TransactionError,
    >)
        requires
            self.wf(),
        ensures
            match r {
                Ok(loaded) => {
                    &&& self@.load(*tx).error is None
                    &&& working_set(loaded.accounts@) == self@.load(*tx).accounts
                    &&& chains_view(loaded.program_indices@) == self@.load(
                        *tx,
                    ).program_indices
                },
                Err(err) => self@.load(*tx).error == Some(err),
            },
            r matches Ok(loaded) ==> fits_message(
                tx.spec_message(),
                working_set(loaded.accounts@),
                chains_view(loaded.program_indices@),
            ),
    {
        let fee: u64 = 0;
        let mut error_counters = TransactionErrorMetrics::default();
        let feature_set = FeatureSet::default();
        load_tx_accounts(&self.accounts, tx, fee, &mut error_counters, &feature_set, None)
    }

    /// The execute stage: hands the working set of a loaded transaction to
    /// the engine, with the table of built-in programs, the message, the
    /// loader chains, the system variables, the default compute-unit limit,
    /// the message's recent blockhash and this ledger's cost of a
    /// signature, and takes what the engine answers.
    ///
    /// The result is what [`conclude_execution`] makes of an answer that
    /// the engine gave for exactly these arguments. What the engine answers
    /// is not known here. Whatever it is, the loader chains stay as they
    /// are; a transaction that was not executed leaves the working set as
    /// it was; and one that was executed reports success, its logs, and no
    /// return data or data that ends in a byte other than zero.
    pub fn execute_loaded_tx<E: ExecutionEngine>(
        &self,
        engine: &E,
        tx: &SanitizedTransaction,
        loaded_tx: &mut LoadedTransaction,
    ) -> (r: TransactionExecutionResult)
        requires
            fits_message(
                tx.spec_message(),
                working_set(old(loaded_tx).accounts@),
                chains_view(old(loaded_tx).program_indices@),
            ),
        ensures
            exists|outcome: Result<ExecutionRecord, TransactionError>|
                {
                    &&& #[trigger] call_ensures(
                        E::process_message,
                        (
                            engine,
                            &self.builtin_table(),
                            &tx.spec_message_value(),
                            &old(loaded_tx).program_indices,
                            &old(loaded_tx).accounts,
                            &self@.sysvar_cache,
                            DEFAULT_COMPUTE_UNIT_LIMIT,
                            &tx.spec_message().recent_blockhash,
                            LAMPORTS_PER_SIGNATURE,
                        ),
                        outcome,
                    )
                    &&& concludes(outcome, *old(loaded_tx), *final(loaded_tx), r)
                },
            final(loaded_tx).program_indices == old(loaded_tx).program_indices,
            match r {
                TransactionExecutionResult::Executed { details } => {
                    &&& details.status == Ok::<(), TransactionError>(())
                    &&& details.log_messages is Some
                    &&& details.inner_instructions is None
                    &&& details.durable_nonce_fee is None
                    &&& details.return_data matches Some(kept) ==> kept.data@.len() > 0
                        && kept.data@[kept.data@.len() - 1] != 0
                },
                TransactionExecutionResult::NotExecuted(_) => final(loaded_tx).accounts == old(
                    loaded_tx,
                ).accounts,
            },
    {
        let message = tx.message();
        let outcome = engine.process_message(
            &self.builtin_programs,
            message,
            &loaded_tx.program_indices,
            &loaded_tx.accounts,
            &self.sysvar_cache,
            DEFAULT_COMPUTE_UNIT_LIMIT,
            message.recent_blockhash(),
            LAMPORTS_PER_SIGNATURE,
        );
        let r = conclude_execution(outcome, loaded_tx);
        assert(call_ensures(
            E::process_message,
            (
                engine,
                &self.builtin_table(),
                &tx.spec_message_value(),
                &old(loaded_tx).program_indices,
                &old(loaded_tx).accounts,
                &self@.sysvar_cache,
                DEFAULT_COMPUTE_UNIT_LIMIT,
                &tx.spec_message().recent_blockhash,
                LAMPORTS_PER_SIGNATURE,
            ),
            outcome,
        ) && concludes(outcome, *old(loaded_tx), *loaded_tx, r));
        r
    }

    /// What a simulation reports of an execution: for a transaction that
    /// was executed, its status, the accounts before, the first
    /// `account_count` accounts after, and its logs, units and return data;
    /// for one that was not, the error and nothing else.
    pub fn simulation_of(
        execution: TransactionExecutionResult,
        pre_accounts: Vec<(Address, Account)>,
        loaded_tx: LoadedTransaction,
        account_count: usize,
    ) -> (r: SimulateTransactionResult)
        ensures
            match execution {
                TransactionExecutionResult::Executed { details } => {
                    &&& r.result == details.status
                    &&& r.pre_accounts == pre_accounts
                    &&& r.post_accounts@ == loaded_tx.accounts@.take(
                        if account_count <= loaded_tx.accounts@.len() {
                            account_count as int
                        } else {
                            loaded_tx.accounts@.len() as int
                        },
                    )
                    &&& match details.log_messages {
                        Some(logs) => r.logs == logs,
                        None => r.logs@.len() == 0,
                    }
                    &&& r.units_consumed == details.executed_units
                    &&& r.return_data == details.return_data
                },
                TransactionExecutionResult::NotExecuted(err) => r.is_failure(err),
            },
    {
        match execution {
            TransactionExecutionResult::Executed { details } => {
                let LoadedTransaction { accounts, program_indices: _ } = loaded_tx;
                let mut post_accounts = accounts;
                post_accounts.truncate(account_count);
                let logs = match details.log_messages {
                    Some(logs) => logs,
                    None => Vec::new(),
                };
                SimulateTransactionResult::new(
                    details.status,
                    pre_accounts,
                    post_accounts,
                    logs,
                    details.executed_units,
                    details.return_data,
                )
            },
            TransactionExecutionResult::NotExecuted(err) => SimulateTransactionResult::new_error(
                err,
            ),
        }
    }

    /// Loads and executes a transaction without changing the bank.
    ///
    /// A transaction that cannot be loaded is reported with the error of
    /// the load stage and nothing else. What the engine answers is not
    /// known here: a transaction that it refuses is reported with an error
    /// and nothing else; one that it runs is reported as a success, with
    /// the accounts of the message's keys as they were loaded, and with no
    /// more accounts after execution than the message has keys.
    pub fn simulate_tx<E: ExecutionEngine>(&self, engine: &E, tx: &SanitizedTransaction) -> (r:
        SimulateTransactionResult)
        requires
            self.wf(),
        ensures
            self@.load(*tx).error matches Some(err) ==> r.is_failure(err),
            r.result matches Err(err) ==> r.is_failure(err),
            r.result is Ok ==> {
                &&& self@.load(*tx).error is None
                &&& working_set(r.pre_accounts@) == self@.load(*tx).accounts.take(
                    tx.spec_message().account_keys.len() as int,
                )
                &&& r.post_accounts@.len() <= tx.spec_message().account_keys.len()
            },
    {
        let mut loaded_tx = match self.load_tx(tx) {
            Ok(loaded_tx) => loaded_tx,
            Err(err) => {
                return SimulateTransactionResult::new_error(err);
            },
        };
        let account_count = tx.message().account_keys().len();
        let pre_accounts = first_accounts(&loaded_tx.accounts, account_count);
        let execution = self.execute_loaded_tx(engine, tx, &mut loaded_tx);
        Self::simulation_of(execution, pre_accounts, loaded_tx, account_count)
    }

    /// Commits a simulated transaction: writes the accounts after execution
    /// to the store, records the transaction and advances the clock.
    ///
    /// Nothing changes where the simulation failed, and nothing changes
    /// where the signature has an entry.
    pub fn commit_simulation(
        &mut self,
        tx: SanitizedTransaction,
        simulation_result: SimulateTransactionResult,
    ) -> (r: Result<Signature, TransactionError>)
        requires
            old(self).wf(),
            old(self)@.slot < u64::MAX,
            old(self)@.block_height < u64::MAX,
        ensures
            final(self).wf(),
            old(self)@.processes(tx, simulation_result, final(self)@, r),
    {
        match simulation_result.result {
            Err(err) => Err(err),
            Ok(_) => {
                let fee = match self.get_fee_for_message(tx.message()) {
                    Some(fee) => fee,
                    None => 0,
                };
                if !has_write_chunk(tx.message()) && self.txs.contains(tx.signature()) {
                    return Err(TransactionError::AlreadyProcessed);
                }
                self.accounts.set_all(&simulation_result.post_accounts);
                self.save_tx(tx, simulation_result, fee)
            },
        }
    }

    /// Simulates a transaction and, where that succeeds, commits it.
    ///
    /// The fee of the transaction is recorded in its ledger entry and is
    /// not taken from the fee payer: the store gets the accounts as
    /// execution left them. The blockhash that the transaction names as
    /// recent is not held against the ledger's latest blockhash.
    ///
    /// What the engine answers is not known here. Whatever it is, the bank
    /// ends as the commit of some simulation leaves it: an error leaves the
    /// bank as it was; a transaction that cannot be loaded is answered with
    /// the error of the load stage; a success is answered with the
    /// transaction's signature; and a success that does not write a chunk
    /// of a program has a new ledger entry under that signature and the
    /// clock one step on.
    pub fn process_tx<E: ExecutionEngine>(&mut self, engine: &E, tx: SanitizedTransaction) -> (r:
        Result<Signature, TransactionError>)
        requires
            old(self).wf(),
            old(self)@.slot < u64::MAX,
            old(self)@.block_height < u64::MAX,
        ensures
            final(self).wf(),
            exists|simulated: SimulateTransactionResult| #[trigger]
                old(self)@.processes(tx, simulated, final(self)@, r),
            r is Err ==> final(self)@ == old(self)@,
            old(self)@.load(tx).error matches Some(err) ==> r == Err::<
                Signature,
                TransactionError,
            >(err),
            r matches Ok(signature) ==> {
                &&& signature == tx.spec_signature()
                &&& old(self)@.load(tx).error is None
                &&& final(self)@.genesis_hash == old(self)@.genesis_hash
                &&& final(self)@.builtin_programs == old(self)@.builtin_programs
                &&& final(self)@.sysvar_cache == old(self)@.sysvar_cache
                &&& final(self)@.feature_set == old(self)@.feature_set
            },
            r is Ok && is_write_chunk(tx.spec_message()) ==> {
                &&& final(self)@.txs == old(self)@.txs
                &&& final(self)@.slot == old(self)@.slot
                &&& final(self)@.block_height == old(self)@.block_height
                &&& final(self)@.latest_blockhash == old(self)@.latest_blockhash
            },
            r is Ok && !is_write_chunk(tx.spec_message()) ==> {
                &&& !old(self)@.txs.contains_key(tx.spec_signature())
                &&& final(self)@.txs.contains_key(tx.spec_signature())
                &&& final(self)@.txs == old(self)@.txs.insert(
                    tx.spec_signature(),
                    final(self)@.txs[tx.spec_signature()],
                )
                &&& final(self)@.txs[tx.spec_signature()].slot == old(self)@.slot
                &&& final(self)@.txs[tx.spec_signature()].tx == tx
                &&& final(self)@.slot == old(self)@.slot + 1
                &&& final(self)@.block_height == old(self)@.block_height + 1
                &&& final(self)@.latest_blockhash@ == sha256_digest(old(self)@.latest_blockhash@)
            },
    {
        let simulation_result = self.simulate_tx(engine, &tx);
        let ghost simulated = simulation_result;
        let r = self.commit_simulation(tx, simulation_result);
        assert(old(self)@.processes(tx, simulated, self@, r));
        r
    }
}

} // verus!
