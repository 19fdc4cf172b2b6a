use playnet::account::Account;
use playnet::address::{
    BPF_LOADER_ID, BPF_LOADER_UPGRADEABLE_ID, CLOCK_SYSVAR_ID, NATIVE_LOADER_ID, RENT_SYSVAR_ID,
    SYSTEM_PROGRAM_ID, SYSVAR_OWNER_ID,
};
use playnet::bank::{
    balances_of, create_blockhash, has_write_chunk, rent_exemption_floor, BankSnapshot, PgBank,
    SimulateTransactionResult, BUILTIN_ACCOUNT_LAMPORTS, BUILTIN_ACCOUNT_RENT_EPOCH,
    LAMPORTS_PER_SIGNATURE,
};
use playnet::engine::{
    BuiltinHandler, BuiltinProgram, ExecutionEngine, ExecutionRecord, TransactionExecutionDetails,
    TransactionExecutionResult, TransactionReturnData, DEFAULT_COMPUTE_UNIT_LIMIT,
};
use playnet::error::TransactionError;
use playnet::load::LoadedTransaction;
use playnet::message::{CompiledInstruction, MessageHeader, SanitizedMessage, SanitizedTransaction};
use playnet::store::AccountStore;
use playnet::sysvar::{Clock, FeatureSet, Rent, SysvarCache};
use solana_sdk::account::ReadableAccount;
use solana_sdk::sysvar::Sysvar;

const PAYER: [u8; 32] = [1u8; 32];
const FROM: [u8; 32] = [2u8; 32];
const TO: [u8; 32] = [3u8; 32];
const MOCK: [u8; 32] = [4u8; 32];

/// An engine that knows one program: a transfer of the amount in the
/// instruction's data from the instruction's second account to its third.
struct TransferEngine {
    handler: u64,
}

impl ExecutionEngine for TransferEngine {
    fn process_message(
        &self,
        builtin_programs: &Vec<BuiltinProgram>,
        message: &SanitizedMessage,
        program_indices: &Vec<Vec<usize>>,
        accounts: &Vec<(Address, Account)>,
        sysvar_cache: &SysvarCache,
        compute_unit_limit: u64,
        blockhash: &Address,
        lamports_per_signature: u64,
    ) -> Result<ExecutionRecord, TransactionError> {
        assert_eq!(program_indices.len(), message.instructions().len());
        assert_eq!(*sysvar_cache, SysvarCache::default());
        assert_eq!(compute_unit_limit, DEFAULT_COMPUTE_UNIT_LIMIT);
        assert_eq!(blockhash, message.recent_blockhash());
        assert_eq!(lamports_per_signature, 0);
        let mut accounts = accounts.clone();
        let mut logs = vec![];
        for (i, ix) in message.instructions().iter().enumerate() {
            let failed = |code: u32| TransactionError::InstructionError {
                index: i as u8,
                code,
                custom: 0,
            };
            let program_id = message.account_keys()[ix.program_id_index as usize];
            let known = builtin_programs.iter().any(|b| {
                b.program_id == program_id
                    && b.handler == BuiltinHandler::External { id: self.handler }
            });
            if !known {
                return Err(failed(1));
            }
            if ix.data.len() != 12 || ix.accounts.len() != 3 {
                return Err(failed(2));
            }
            let mut amount = [0u8; 8];
            amount.copy_from_slice(&ix.data[4..]);
            let amount = u64::from_le_bytes(amount);
            let from = ix.accounts[1] as usize;
            let to = ix.accounts[2] as usize;
            accounts[from].1.lamports = accounts[from]
                .1
                .lamports
                .checked_sub(amount)
                .ok_or(failed(3))?;
            accounts[to].1.lamports = accounts[to]
                .1
                .lamports
                .checked_add(amount)
                .ok_or(failed(4))?;
            logs.push(format!("transfer {}", amount));
        }
        Ok(ExecutionRecord {
            accounts,
            log_messages: logs,
            executed_units: 150,
            return_data: TransactionReturnData {
                program_id: MOCK,
                data: vec![1, 0, 0],
            },
            accounts_data_len_delta: 0,
        })
    }
}

type Address = [u8; 32];

fn engine() -> TransferEngine {
    TransferEngine { handler: 7 }
}

fn funded(lamports: u64) -> Account {
    Account::new(lamports, 0, &SYSTEM_PROGRAM_ID)
}

fn bank() -> PgBank {
    let mut bank = PgBank::new(None);
    bank.add_account(&PAYER, &funded(1000));
    bank.add_account(&FROM, &funded(500));
    bank.add_builtin("mock_program", &MOCK, BuiltinHandler::External { id: 7 });
    bank
}

fn transfer_data(amount: u64) -> Vec<u8> {
    let mut data = vec![0u8; 4];
    data.extend_from_slice(&amount.to_le_bytes());
    data
}

fn chunk_data(amount: u64) -> Vec<u8> {
    let mut data = vec![1u8, 0, 0, 0];
    data.extend_from_slice(&amount.to_le_bytes());
    data
}

fn transaction(
    keys: Vec<Address>,
    signers: u8,
    readonly_unsigned: u8,
    instructions: Vec<CompiledInstruction>,
    signature: u8,
) -> SanitizedTransaction {
    let header = MessageHeader {
        num_required_signatures: signers,
        num_readonly_signed_accounts: 0,
        num_readonly_unsigned_accounts: readonly_unsigned,
    };
    let message = SanitizedMessage::try_new(header, keys, [6u8; 32], instructions).unwrap();
    SanitizedTransaction::try_new(message, vec![[signature; 64]; signers as usize]).unwrap()
}

fn transfer(amount: u64, signature: u8) -> SanitizedTransaction {
    transaction(
        vec![PAYER, FROM, TO, MOCK],
        2,
        1,
        vec![CompiledInstruction {
            program_id_index: 3,
            accounts: vec![0, 1, 2],
            data: transfer_data(amount),
        }],
        signature,
    )
}

fn write_chunk(signature: u8) -> SanitizedTransaction {
    transaction(
        vec![PAYER, FROM, TO, MOCK, BPF_LOADER_UPGRADEABLE_ID],
        2,
        2,
        vec![
            CompiledInstruction {
                program_id_index: 3,
                accounts: vec![0, 1, 2],
                data: transfer_data(10),
            },
            CompiledInstruction {
                program_id_index: 4,
                accounts: vec![0, 1, 2],
                data: chunk_data(5),
            },
        ],
        signature,
    )
}

fn lamports(bank: &PgBank, key: &Address) -> u64 {
    bank.get_account_default(key).lamports
}

fn state(bank: &PgBank) -> (u64, u64, Address, Address, Vec<Account>) {
    (
        bank.get_slot(),
        bank.get_block_height(),
        bank.get_genesis_hash(),
        bank.get_latest_blockhash(),
        [PAYER, FROM, TO, MOCK, CLOCK_SYSVAR_ID, RENT_SYSVAR_ID]
            .iter()
            .map(|k| bank.get_account_default(k))
            .collect(),
    )
}

fn mock_program() -> Account {
    Account {
        lamports: 1_000_000_000,
        data: b"mock_program".to_vec(),
        owner: NATIVE_LOADER_ID,
        executable: true,
        rent_epoch: 1000,
    }
}

fn native_program() -> Account {
    Account {
        lamports: 1,
        data: vec![],
        owner: NATIVE_LOADER_ID,
        executable: true,
        rent_epoch: 0,
    }
}

#[test]
fn a_fresh_ledger_starts_at_slot_zero() {
    let bank = PgBank::new(None);
    assert_eq!(bank.get_slot(), 0);
    assert_eq!(bank.get_block_height(), 0);
    assert_eq!(
        bank.get_genesis_hash(),
        solana_sdk::hash::hash(b"playnet").to_bytes()
    );
    assert_eq!(bank.get_latest_blockhash(), bank.get_genesis_hash());
    assert_eq!(*bank.feature_set(), FeatureSet::default());
    assert_eq!(*bank.sysvar_cache(), SysvarCache::default());
    assert_eq!(bank.get_tx(&[1u8; 64]), None);
}

#[test]
fn a_fresh_ledger_holds_the_builtin_programs_and_the_system_variables() {
    let bank = PgBank::new(None);
    assert_eq!(bank.get_account(&BPF_LOADER_ID), Some(&native_program()));
    assert_eq!(
        bank.get_account(&BPF_LOADER_UPGRADEABLE_ID),
        Some(&native_program())
    );
    assert_eq!(bank.get_account(&SYSTEM_PROGRAM_ID), Some(&native_program()));
    let clock = bank.get_account(&CLOCK_SYSVAR_ID).unwrap();
    assert_eq!(clock.lamports, 1);
    assert_eq!(clock.owner, SYSVAR_OWNER_ID);
    assert!(!clock.executable);
    assert_eq!(
        clock.data,
        bincode::serialize(&solana_sdk::clock::Clock::default()).unwrap()
    );
    assert_eq!(clock.data, vec![0u8; 40]);
    assert_eq!(
        clock.data.len(),
        solana_sdk::clock::Clock::size_of()
    );
    let rent = bank.get_account(&RENT_SYSVAR_ID).unwrap();
    assert_eq!(rent.lamports, 1);
    assert_eq!(rent.owner, SYSVAR_OWNER_ID);
    assert!(!rent.executable);
    assert_eq!(
        rent.data,
        bincode::serialize(&solana_sdk::rent::Rent::default()).unwrap()
    );
    assert_eq!(rent.data.len(), 17);
    let decoded: solana_sdk::rent::Rent = bincode::deserialize(&rent.data).unwrap();
    assert_eq!(decoded, solana_sdk::rent::Rent::default());
}

#[test]
fn a_fresh_ledger_holds_nothing_else() {
    let bank = PgBank::new(None);
    for key in [PAYER, FROM, TO, MOCK, NATIVE_LOADER_ID, SYSVAR_OWNER_ID, [0xffu8; 32]] {
        assert_eq!(bank.get_account(&key), None);
        assert_eq!(bank.get_account_default(&key), Account::default());
    }
}

#[test]
fn a_fresh_ledger_has_the_three_builtin_handlers() {
    let bank = PgBank::new(None);
    assert_eq!(
        *bank.builtin_programs(),
        vec![
            BuiltinProgram {
                program_id: BPF_LOADER_ID,
                handler: BuiltinHandler::BpfLoader
            },
            BuiltinProgram {
                program_id: BPF_LOADER_UPGRADEABLE_ID,
                handler: BuiltinHandler::BpfLoader
            },
            BuiltinProgram {
                program_id: SYSTEM_PROGRAM_ID,
                handler: BuiltinHandler::System
            },
        ]
    );
}

#[test]
fn the_cached_system_variables_are_the_defaults_of_the_sdk() {
    let cache = SysvarCache::default();
    let clock = solana_sdk::clock::Clock::default();
    assert_eq!(
        cache.clock,
        Clock {
            slot: clock.slot,
            epoch_start_timestamp: clock.epoch_start_timestamp,
            epoch: clock.epoch,
            leader_schedule_epoch: clock.leader_schedule_epoch,
            unix_timestamp: clock.unix_timestamp,
        }
    );
    let rent = solana_sdk::rent::Rent::default();
    assert_eq!(
        cache.rent,
        Rent {
            lamports_per_byte_year: rent.lamports_per_byte_year,
            exemption_threshold_bits: rent.exemption_threshold.to_bits(),
            burn_percent: rent.burn_percent,
        }
    );
}

#[test]
fn a_snapshot_restores_the_accounts_and_the_clock() {
    let snapshot = BankSnapshot {
        accounts: vec![
            (PAYER, funded(5)),
            (SYSTEM_PROGRAM_ID, funded(9)),
            (PAYER, funded(6)),
        ],
        slot: 12,
        block_height: 11,
        genesis_hash: [1u8; 32],
        latest_blockhash: [2u8; 32],
    };
    let bank = PgBank::new(Some(snapshot));
    assert_eq!(bank.get_slot(), 12);
    assert_eq!(bank.get_block_height(), 11);
    assert_eq!(bank.get_genesis_hash(), [1u8; 32]);
    assert_eq!(bank.get_latest_blockhash(), [2u8; 32]);
    assert_eq!(bank.get_account(&PAYER), Some(&funded(6)));
    assert_eq!(bank.get_account(&SYSTEM_PROGRAM_ID), Some(&native_program()));
    assert!(bank.get_account(&CLOCK_SYSVAR_ID).is_some());
    assert_eq!(bank.builtin_programs().len(), 3);
}

#[test]
fn new_with_more_starts_from_the_given_accounts_and_hash() {
    let mut accounts = AccountStore::new();
    accounts.set(PAYER, funded(5));
    accounts.set(BPF_LOADER_ID, funded(9));
    let bank = PgBank::new_with_more(accounts, [3u8; 32]);
    assert_eq!(bank.get_slot(), 0);
    assert_eq!(bank.get_block_height(), 0);
    assert_eq!(bank.get_genesis_hash(), [3u8; 32]);
    assert_eq!(bank.get_latest_blockhash(), [3u8; 32]);
    assert_eq!(bank.get_account(&PAYER), Some(&funded(5)));
    assert_eq!(bank.get_account(&BPF_LOADER_ID), Some(&native_program()));
    assert!(bank.get_account(&RENT_SYSVAR_ID).is_some());
}

#[test]
fn accounts_are_set_and_replaced() {
    let mut bank = PgBank::new(None);
    assert_eq!(bank.set_account(PAYER, funded(5)), None);
    assert_eq!(bank.set_account(PAYER, funded(6)), Some(funded(5)));
    assert_eq!(bank.get_account(&PAYER), Some(&funded(6)));
    bank.add_account(&PAYER, &funded(7));
    assert_eq!(bank.get_account_default(&PAYER), funded(7));
    assert_eq!(bank.set_account(FROM, funded(0)), None);
    assert_eq!(bank.get_account(&FROM), Some(&funded(0)));
    assert_eq!(bank.get_slot(), 0);
}

#[test]
fn a_builtin_program_gets_its_account_and_its_handler() {
    let mut bank = PgBank::new(None);
    bank.add_builtin("mock_program", &MOCK, BuiltinHandler::External { id: 7 });
    let sdk = solana_sdk::native_loader::create_loadable_account_with_fields(
        "mock_program",
        (1_000_000_000, 1000),
    );
    let account = bank.get_account(&MOCK).unwrap();
    assert_eq!(account.lamports, sdk.lamports());
    assert_eq!(account.data, sdk.data().to_vec());
    assert_eq!(account.owner, sdk.owner().to_bytes());
    assert_eq!(account.executable, sdk.executable());
    assert_eq!(account.rent_epoch, sdk.rent_epoch());
    assert_eq!(BUILTIN_ACCOUNT_LAMPORTS, 1_000_000_000);
    assert_eq!(BUILTIN_ACCOUNT_RENT_EPOCH, 1000);
    assert_eq!(bank.builtin_programs().len(), 4);
    assert_eq!(
        bank.builtin_programs()[3],
        BuiltinProgram {
            program_id: MOCK,
            handler: BuiltinHandler::External { id: 7 }
        }
    );
}

#[test]
fn rent_exemption_is_that_of_the_sdk_and_at_least_one() {
    let bank = PgBank::new(None);
    for len in [0usize, 1, 100, 165, 10_000_000] {
        assert_eq!(
            bank.get_minimum_balance_for_rent_exemption(len),
            solana_sdk::rent::Rent::default().minimum_balance(len).max(1)
        );
    }
    assert_eq!(bank.get_minimum_balance_for_rent_exemption(0), 890_880);
    assert_eq!(bank.get_minimum_balance_for_rent_exemption(100), 1_586_880);
    assert_eq!(rent_exemption_floor(0), 1);
    assert_eq!(rent_exemption_floor(1), 1);
    assert_eq!(rent_exemption_floor(2), 2);
    assert_eq!(rent_exemption_floor(u64::MAX), u64::MAX);
}

#[test]
fn a_message_costs_nothing_at_this_ledger() {
    let bank = PgBank::new(None);
    assert_eq!(LAMPORTS_PER_SIGNATURE, 0);
    assert_eq!(bank.get_fee_for_message(transfer(1, 1).message()), Some(0));
}

#[test]
fn a_blockhash_is_the_sha256_digest() {
    assert_eq!(
        create_blockhash(b"playnet"),
        solana_sdk::hash::hash(b"playnet").to_bytes()
    );
    assert_eq!(create_blockhash(&[]), solana_sdk::hash::hash(&[]).to_bytes());
    assert_ne!(create_blockhash(&[1]), create_blockhash(&[2]));
    assert_ne!(create_blockhash(b"playnet").to_vec(), b"playnet".to_vec());
}

#[test]
fn a_transfer_commits() {
    let mut bank = bank();
    let genesis = bank.get_genesis_hash();
    let tx = transfer(200, 1);
    assert_eq!(bank.process_tx(&engine(), tx), Ok([1u8; 64]));
    assert_eq!(lamports(&bank, &FROM), 300);
    assert_eq!(lamports(&bank, &TO), 200);
    assert_eq!(lamports(&bank, &PAYER), 1000);
    assert_eq!(bank.get_slot(), 1);
    assert_eq!(bank.get_block_height(), 1);
    assert_eq!(bank.get_genesis_hash(), genesis);
    assert_eq!(
        bank.get_latest_blockhash(),
        solana_sdk::hash::hash(&genesis).to_bytes()
    );
}

#[test]
fn a_committed_transfer_is_recorded() {
    let mut bank = bank();
    bank.process_tx(&engine(), transfer(200, 1)).unwrap();
    let data = bank.get_tx(&[1u8; 64]).unwrap();
    assert_eq!(data.slot, 0);
    assert_eq!(data.tx, transfer(200, 1));
    assert_eq!(data.block_time, Some(0));
    let meta = data.meta.as_ref().unwrap();
    assert_eq!(meta.fee, 0);
    assert_eq!(meta.inner_instructions, None);
    assert_eq!(meta.pre_balances, vec![1000, 500, 0, 1_000_000_000]);
    assert_eq!(meta.post_balances, vec![1000, 300, 200, 1_000_000_000]);
    assert_eq!(meta.log_messages, Some(vec!["transfer 200".to_string()]));
    assert_eq!(meta.err, None);
    assert_eq!(meta.compute_units_consumed, Some(150));
    assert_eq!(bank.get_tx(&[2u8; 64]), None);
}

#[test]
fn the_same_signature_is_refused_the_second_time() {
    let mut bank = bank();
    assert_eq!(
        bank.process_tx(&engine(), transfer(200, 1)),
        Ok([1u8; 64])
    );
    let after_first = state(&bank);
    assert_eq!(
        bank.process_tx(&engine(), transfer(200, 1)),
        Err(TransactionError::AlreadyProcessed)
    );
    assert_eq!(state(&bank), after_first);
    assert_eq!(lamports(&bank, &FROM), 300);
    assert_eq!(lamports(&bank, &TO), 200);
    assert_eq!(
        bank.process_tx(&engine(), transfer(100, 1)),
        Err(TransactionError::AlreadyProcessed)
    );
    assert_eq!(state(&bank), after_first);
    assert_eq!(bank.get_tx(&[1u8; 64]).unwrap().tx, transfer(200, 1));
}

#[test]
fn another_signature_commits_again() {
    let mut bank = bank();
    bank.process_tx(&engine(), transfer(200, 1)).unwrap();
    let first_hash = bank.get_latest_blockhash();
    assert_eq!(
        bank.process_tx(&engine(), transfer(200, 2)),
        Ok([2u8; 64])
    );
    assert_eq!(lamports(&bank, &FROM), 100);
    assert_eq!(lamports(&bank, &TO), 400);
    assert_eq!(bank.get_slot(), 2);
    assert_eq!(bank.get_block_height(), 2);
    assert_eq!(
        bank.get_latest_blockhash(),
        solana_sdk::hash::hash(&first_hash).to_bytes()
    );
    assert_eq!(bank.get_tx(&[2u8; 64]).unwrap().slot, 1);
}

#[test]
fn a_payer_without_balance_changes_nothing() {
    let mut bank = bank();
    bank.set_account(PAYER, funded(0));
    let before = state(&bank);
    assert_eq!(
        bank.process_tx(&engine(), transfer(200, 1)),
        Err(TransactionError::AccountNotFound)
    );
    assert_eq!(state(&bank), before);
    assert_eq!(bank.get_tx(&[1u8; 64]), None);
}

#[test]
fn a_failed_execution_changes_nothing() {
    let mut bank = bank();
    let before = state(&bank);
    let err = TransactionError::InstructionError { index: 0, code: 3, custom: 0 };
    assert_eq!(bank.process_tx(&engine(), transfer(501, 1)), Err(err));
    assert_eq!(state(&bank), before);
    assert_eq!(bank.get_tx(&[1u8; 64]), None);
    assert_eq!(bank.get_account(&TO), None);
    assert_eq!(
        bank.process_tx(&engine(), transfer(500, 1)),
        Ok([1u8; 64])
    );
}

#[test]
fn a_failed_instruction_undoes_the_ones_before_it() {
    let mut bank = bank();
    let before = state(&bank);
    let tx = transaction(
        vec![PAYER, FROM, TO, MOCK],
        2,
        1,
        vec![
            CompiledInstruction {
                program_id_index: 3,
                accounts: vec![0, 1, 2],
                data: transfer_data(400),
            },
            CompiledInstruction {
                program_id_index: 3,
                accounts: vec![0, 1, 2],
                data: transfer_data(400),
            },
        ],
        1,
    );
    assert_eq!(
        bank.process_tx(&engine(), tx),
        Err(TransactionError::InstructionError { index: 1, code: 3, custom: 0 })
    );
    assert_eq!(state(&bank), before);
}

fn hop(n: u8) -> Address {
    [100 + n; 32]
}

fn bank_with_chain(hops: u8) -> PgBank {
    let mut bank = bank();
    for i in 0..hops {
        let owner = if i + 1 == hops {
            NATIVE_LOADER_ID
        } else {
            hop(i + 1)
        };
        bank.add_account(
            &hop(i),
            &Account {
                lamports: 1,
                data: vec![],
                owner,
                executable: true,
                rent_epoch: 0,
            },
        );
    }
    bank
}

fn calls(program: Address) -> SanitizedTransaction {
    transaction(
        vec![PAYER, program],
        1,
        1,
        vec![CompiledInstruction {
            program_id_index: 1,
            accounts: vec![0],
            data: vec![],
        }],
        1,
    )
}

#[test]
fn a_program_six_hops_from_the_native_loader_is_too_deep() {
    let mut bank = bank_with_chain(6);
    let before = state(&bank);
    assert_eq!(
        bank.simulate_tx(&engine(), &calls(hop(0))).result,
        Err(TransactionError::CallChainTooDeep)
    );
    assert_eq!(
        bank.process_tx(&engine(), calls(hop(0))),
        Err(TransactionError::CallChainTooDeep)
    );
    assert_eq!(state(&bank), before);
}

#[test]
fn a_program_five_hops_from_the_native_loader_loads() {
    let bank = bank_with_chain(5);
    let loaded = bank.load_tx(&calls(hop(0))).unwrap();
    assert_eq!(loaded.program_indices, vec![vec![6usize, 5, 4, 3, 2]]);
    assert_eq!(loaded.accounts.len(), 7);
    assert_eq!(
        bank.simulate_tx(&engine(), &calls(hop(0))).result,
        Err(TransactionError::InstructionError { index: 0, code: 1, custom: 0 })
    );
}

#[test]
fn simulation_reports_the_accounts_before_and_after() {
    let bank = bank();
    let r = bank.simulate_tx(&engine(), &transfer(200, 1));
    assert_eq!(r.result, Ok(()));
    assert_eq!(
        r.pre_accounts,
        vec![
            (PAYER, funded(1000)),
            (FROM, funded(500)),
            (TO, Account::default()),
            (MOCK, mock_program()),
        ]
    );
    let mut to = Account::default();
    to.lamports = 200;
    assert_eq!(
        r.post_accounts,
        vec![
            (PAYER, funded(1000)),
            (FROM, funded(300)),
            (TO, to),
            (MOCK, mock_program()),
        ]
    );
    assert_eq!(r.logs, vec!["transfer 200".to_string()]);
    assert_eq!(r.units_consumed, 150);
    assert_eq!(
        r.return_data,
        Some(TransactionReturnData {
            program_id: MOCK,
            data: vec![1]
        })
    );
}

#[test]
fn simulation_of_a_failure_reports_the_error_alone() {
    let bank = bank();
    let err = TransactionError::InstructionError { index: 0, code: 3, custom: 0 };
    assert_eq!(
        bank.simulate_tx(&engine(), &transfer(501, 1)),
        SimulateTransactionResult::new_error(err)
    );
    let mut broke = PgBank::new(None);
    broke.add_builtin("mock_program", &MOCK, BuiltinHandler::External { id: 7 });
    assert_eq!(
        broke.simulate_tx(&engine(), &transfer(1, 1)),
        SimulateTransactionResult::new_error(TransactionError::AccountNotFound)
    );
}

#[test]
fn simulation_changes_nothing() {
    let bank = bank();
    let before = state(&bank);
    let first = bank.simulate_tx(&engine(), &transfer(200, 1));
    for _ in 0..4 {
        assert_eq!(bank.simulate_tx(&engine(), &transfer(200, 1)), first);
        assert_eq!(state(&bank), before);
    }
    assert_eq!(bank.get_tx(&[1u8; 64]), None);
    assert_eq!(bank.get_account(&TO), None);
}

#[test]
fn a_write_chunk_is_found_by_loader_and_first_byte() {
    assert!(has_write_chunk(write_chunk(1).message()));
    assert!(!has_write_chunk(transfer(1, 1).message()));
    let other_byte = transaction(
        vec![PAYER, BPF_LOADER_UPGRADEABLE_ID],
        1,
        1,
        vec![
            CompiledInstruction {
                program_id_index: 1,
                accounts: vec![],
                data: vec![2, 1],
            },
            CompiledInstruction {
                program_id_index: 1,
                accounts: vec![],
                data: vec![],
            },
        ],
        1,
    );
    assert!(!has_write_chunk(other_byte.message()));
    let other_program = transaction(
        vec![PAYER, BPF_LOADER_ID],
        1,
        1,
        vec![CompiledInstruction {
            program_id_index: 1,
            accounts: vec![],
            data: vec![1],
        }],
        1,
    );
    assert!(!has_write_chunk(other_program.message()));
}

fn chunk_engine_bank() -> PgBank {
    let mut bank = bank();
    bank.add_builtin(
        "loader",
        &BPF_LOADER_UPGRADEABLE_ID,
        BuiltinHandler::External { id: 7 },
    );
    bank
}

#[test]
fn a_write_chunk_is_applied_without_a_ledger_entry() {
    let mut bank = chunk_engine_bank();
    let genesis = bank.get_latest_blockhash();
    assert_eq!(
        bank.process_tx(&engine(), write_chunk(1)),
        Ok([1u8; 64])
    );
    assert_eq!(lamports(&bank, &FROM), 485);
    assert_eq!(lamports(&bank, &TO), 15);
    assert_eq!(bank.get_tx(&[1u8; 64]), None);
    assert_eq!(bank.get_slot(), 0);
    assert_eq!(bank.get_block_height(), 0);
    assert_eq!(bank.get_latest_blockhash(), genesis);
}

#[test]
fn a_write_chunk_is_applied_again_under_the_same_signature() {
    let mut bank = chunk_engine_bank();
    assert_eq!(
        bank.process_tx(&engine(), write_chunk(1)),
        Ok([1u8; 64])
    );
    assert_eq!(
        bank.process_tx(&engine(), write_chunk(1)),
        Ok([1u8; 64])
    );
    assert_eq!(lamports(&bank, &FROM), 470);
    assert_eq!(lamports(&bank, &TO), 30);
    assert_eq!(bank.get_slot(), 0);
    assert_eq!(bank.get_tx(&[1u8; 64]), None);
}

#[test]
fn the_commit_stage_records_and_advances() {
    let mut bank = bank();
    let result = SimulateTransactionResult::new(
        Ok(()),
        vec![(PAYER, funded(9)), (FROM, funded(8))],
        vec![(PAYER, funded(7))],
        vec!["a".to_string(), "b".to_string()],
        33,
        None,
    );
    let before = state(&bank);
    assert_eq!(bank.save_tx(transfer(1, 5), result, 44), Ok([5u8; 64]));
    assert_eq!(bank.get_slot(), 1);
    assert_eq!(bank.get_block_height(), 1);
    assert_eq!(
        bank.get_latest_blockhash(),
        solana_sdk::hash::hash(&before.3).to_bytes()
    );
    assert_eq!(state(&bank).4, before.4);
    let data = bank.get_tx(&[5u8; 64]).unwrap();
    assert_eq!(data.slot, 0);
    let meta = data.meta.as_ref().unwrap();
    assert_eq!(meta.fee, 44);
    assert_eq!(meta.pre_balances, vec![9, 8]);
    assert_eq!(meta.post_balances, vec![7]);
    assert_eq!(
        meta.log_messages,
        Some(vec!["a".to_string(), "b".to_string()])
    );
    assert_eq!(meta.compute_units_consumed, Some(33));
    assert_eq!(meta.err, None);
}

#[test]
fn the_commit_stage_records_the_error_of_a_simulation() {
    let mut bank = bank();
    let err = TransactionError::InstructionError { index: 0, code: 3, custom: 0 };
    assert_eq!(
        bank.save_tx(transfer(1, 5), SimulateTransactionResult::new_error(err), 0),
        Ok([5u8; 64])
    );
    let data = bank.get_tx(&[5u8; 64]).unwrap();
    assert_eq!(data.meta.as_ref().unwrap().err, Some(err));
}

#[test]
fn the_commit_stage_refuses_a_signature_it_has() {
    let mut bank = bank();
    let result = || SimulateTransactionResult::new(Ok(()), vec![], vec![], vec![], 0, None);
    assert_eq!(bank.save_tx(transfer(1, 5), result(), 0), Ok([5u8; 64]));
    let before = state(&bank);
    assert_eq!(
        bank.save_tx(transfer(2, 5), result(), 0),
        Err(TransactionError::AlreadyProcessed)
    );
    assert_eq!(state(&bank), before);
    assert_eq!(bank.get_tx(&[5u8; 64]).unwrap().tx, transfer(1, 5));
}

#[test]
fn the_commit_stage_passes_a_write_chunk_by() {
    let mut bank = bank();
    let result = || SimulateTransactionResult::new(Ok(()), vec![], vec![], vec![], 0, None);
    let before = state(&bank);
    assert_eq!(bank.save_tx(write_chunk(5), result(), 0), Ok([5u8; 64]));
    assert_eq!(bank.save_tx(write_chunk(5), result(), 0), Ok([5u8; 64]));
    assert_eq!(state(&bank), before);
    assert_eq!(bank.get_tx(&[5u8; 64]), None);
}

#[test]
fn committing_a_failed_simulation_changes_nothing() {
    let mut bank = bank();
    let before = state(&bank);
    let err = TransactionError::InvalidWritableAccount;
    let mut failed = SimulateTransactionResult::new_error(err);
    failed.post_accounts = vec![(TO, funded(5))];
    assert_eq!(bank.commit_simulation(transfer(1, 5), failed), Err(err));
    assert_eq!(state(&bank), before);
    assert_eq!(bank.get_account(&TO), None);
}

#[test]
fn committing_a_simulation_writes_its_accounts() {
    let mut bank = bank();
    let result = SimulateTransactionResult::new(
        Ok(()),
        vec![(TO, Account::default())],
        vec![(TO, funded(5)), (FROM, funded(6)), (TO, funded(7))],
        vec![],
        0,
        None,
    );
    assert_eq!(
        bank.commit_simulation(transfer(1, 5), result),
        Ok([5u8; 64])
    );
    assert_eq!(bank.get_account(&TO), Some(&funded(7)));
    assert_eq!(bank.get_account(&FROM), Some(&funded(6)));
    assert_eq!(bank.get_slot(), 1);
    let again = SimulateTransactionResult::new(
        Ok(()),
        vec![],
        vec![(TO, funded(1))],
        vec![],
        0,
        None,
    );
    assert_eq!(
        bank.commit_simulation(transfer(1, 5), again),
        Err(TransactionError::AlreadyProcessed)
    );
    assert_eq!(bank.get_account(&TO), Some(&funded(7)));
    assert_eq!(bank.get_slot(), 1);
}

#[test]
fn a_simulation_takes_the_accounts_of_the_message() {
    let details = TransactionExecutionDetails {
        status: Ok(()),
        log_messages: None,
        inner_instructions: None,
        durable_nonce_fee: None,
        return_data: None,
        executed_units: 5,
        accounts_data_len_delta: 0,
    };
    let loaded = LoadedTransaction {
        accounts: vec![(PAYER, funded(1)), (FROM, funded(2)), (MOCK, funded(3))],
        program_indices: vec![vec![2]],
    };
    let r = PgBank::simulation_of(
        TransactionExecutionResult::Executed { details },
        vec![(PAYER, funded(9))],
        loaded,
        2,
    );
    assert_eq!(
        r,
        SimulateTransactionResult::new(
            Ok(()),
            vec![(PAYER, funded(9))],
            vec![(PAYER, funded(1)), (FROM, funded(2))],
            vec![],
            5,
            None,
        )
    );
    let loaded = LoadedTransaction {
        accounts: vec![(PAYER, funded(1))],
        program_indices: vec![],
    };
    let err = TransactionError::CallChainTooDeep;
    assert_eq!(
        PgBank::simulation_of(
            TransactionExecutionResult::NotExecuted(err),
            vec![(PAYER, funded(9))],
            loaded,
            2
        ),
        SimulateTransactionResult::new_error(err)
    );
}

#[test]
fn balances_are_read_in_order() {
    assert_eq!(
        balances_of(&vec![(PAYER, funded(3)), (FROM, funded(0)), (TO, funded(8))]),
        vec![3, 0, 8]
    );
    assert_eq!(balances_of(&vec![]), Vec::<u64>::new());
}

#[test]
fn a_snapshot_holds_every_account_once() {
    let mut bank = bank();
    bank.process_tx(&engine(), transfer(200, 1)).unwrap();
    let snapshot = bank.snapshot();
    assert_eq!(snapshot.slot, 1);
    assert_eq!(snapshot.block_height, 1);
    assert_eq!(snapshot.genesis_hash, bank.get_genesis_hash());
    assert_eq!(snapshot.latest_blockhash, bank.get_latest_blockhash());
    assert_eq!(snapshot.accounts.len(), 9);
    for (i, (key, account)) in snapshot.accounts.iter().enumerate() {
        assert_eq!(bank.get_account(key), Some(account));
        assert!(snapshot.accounts[..i].iter().all(|(other, _)| other != key));
    }
}

#[test]
fn a_bank_is_restored_from_its_snapshot() {
    let mut bank = bank();
    bank.process_tx(&engine(), transfer(200, 1)).unwrap();
    let restored = PgBank::new(Some(bank.snapshot()));
    assert_eq!(state(&restored), state(&bank));
    assert_eq!(restored.get_tx(&[1u8; 64]), None);
    assert_eq!(restored.builtin_programs().len(), 3);
}

#[test]
fn execution_replaces_the_working_set() {
    let bank = bank();
    let tx = transfer(200, 1);
    let mut loaded = bank.load_tx(&tx).unwrap();
    let before = loaded.clone();
    let r = bank.execute_loaded_tx(&engine(), &tx, &mut loaded);
    assert_eq!(
        r,
        TransactionExecutionResult::Executed {
            details: TransactionExecutionDetails {
                status: Ok(()),
                log_messages: Some(vec!["transfer 200".to_string()]),
                inner_instructions: None,
                durable_nonce_fee: None,
                return_data: Some(TransactionReturnData {
                    program_id: MOCK,
                    data: vec![1]
                }),
                executed_units: 150,
                accounts_data_len_delta: 0,
            }
        }
    );
    assert_eq!(loaded.program_indices, before.program_indices);
    assert_eq!(loaded.accounts.len(), before.accounts.len());
    assert_eq!(loaded.accounts[1].1.lamports, 300);
    assert_eq!(loaded.accounts[2].1.lamports, 200);
    assert_eq!(bank.get_account(&FROM), Some(&funded(500)));
}

#[test]
fn a_refused_execution_leaves_the_working_set() {
    let bank = bank();
    let tx = transfer(501, 1);
    let mut loaded = bank.load_tx(&tx).unwrap();
    let before = loaded.clone();
    let r = bank.execute_loaded_tx(&engine(), &tx, &mut loaded);
    assert_eq!(
        r,
        TransactionExecutionResult::NotExecuted(TransactionError::InstructionError {
            index: 0,
            code: 3,
            custom: 0
        })
    );
    assert_eq!(loaded, before);
}
