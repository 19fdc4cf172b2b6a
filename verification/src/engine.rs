//! The execute stage: what is handed to the execution engine, what it hands
//! back, and what the pipeline makes of that.

use crate::account::{working_set, Account};
use crate::address::{Address, Blockhash};
use crate::error::TransactionError;
use crate::load::{chains_view, fits_message, LoadedTransaction};
use crate::message::{CompiledInstruction, SanitizedMessage};
use crate::sysvar::SysvarCache;
use vstd::prelude::*;

verus! {

/// The compute units that a transaction may use where it asks for nothing
/// else.
pub const DEFAULT_COMPUTE_UNIT_LIMIT: u64 = 1_400_000;

/// The in-process handler of a built-in program.
#[derive(Clone, Copy, Debug, PartialEq, Eq, Structural)]
pub enum BuiltinHandler {
    /// The program loader, which serves the generic and the upgradeable
    /// loader alike.
    BpfLoader,
    /// The system program.
    System,
    /// A handler that the execution engine knows by `id`.
    External { id: u64 },
}

/// A program that runs in process, without being deployed.
#[derive(Clone, Copy, Debug, PartialEq, Eq)]
pub struct BuiltinProgram {
    pub program_id: Address,
    pub handler: BuiltinHandler,
}

/// Data that a program handed back, and the program that did.
#[derive(Clone, Debug, PartialEq, Eq)]
pub struct TransactionReturnData {
    pub program_id: Address,
    pub data: Vec<u8>,
}

/// What the execution engine hands back for a message that ran.
#[derive(Clone, Debug, PartialEq, Eq)]
pub struct ExecutionRecord {
    /// The whole working set after execution.
    pub accounts: Vec<(Address, Account)>,
    pub log_messages: Vec<String>,
    pub executed_units: u64,
    pub return_data: TransactionReturnData,
    /// The change in the length of all account data.
    pub accounts_data_len_delta: i64,
}

/// The engine that runs a message on a working set.
///
/// Nothing is promised of what an engine returns: the pipeline is proved
/// for every record and every error. An engine is handed a working set
/// that starts with one account for each key of the message, and one
/// loader chain for each instruction, each a list of positions in the
/// working set.
pub trait ExecutionEngine {
    /// Runs the instructions of `message` on copies of `accounts`.
    fn process_message(
        &self,
        builtin_programs: &Vec<BuiltinProgram>,
        message: &SanitizedMessage,
        program_indices: &Vec<Vec<usize>>,
        accounts: &Vec<(Address, Account)>,
        sysvar_cache: &SysvarCache,
        compute_unit_limit: u64,
        blockhash: &Blockhash,
        lamports_per_signature: u64,
    ) -> Result<ExecutionRecord, TransactionError>
        requires
            fits_message(message@, working_set(accounts@), chains_view(program_indices@)),
    ;
}

/// Whether a nonce account could pay a fee. Durable nonces are not
/// supported; the type stands for what an execution reports of them.
#[derive(Clone, Copy, Debug, PartialEq, Eq, Structural)]
pub enum DurableNonceFee {
    Valid(u64),
    Invalid,
}

/// An instruction that was invoked while another ran.
#[derive(Clone, Debug, PartialEq, Eq)]
pub struct InnerInstruction {
    pub instruction: CompiledInstruction,
    /// The height of the invocation stack; 1 for the instructions of the
    /// transaction itself.
    pub stack_height: u8,
}

/// What is known of a transaction that was executed.
#[derive(Debug, PartialEq, Eq)]
pub struct TransactionExecutionDetails {
    pub status: Result<(), TransactionError>,
    pub log_messages: Option<Vec<String>>,
    pub inner_instructions: Option<Vec<Vec<InnerInstruction>>>,
    pub durable_nonce_fee: Option<DurableNonceFee>,
    pub return_data: Option<TransactionReturnData>,
    pub executed_units: u64,
    /// The change in the length of all account data; valid where `status`
    /// is `Ok`.
    pub accounts_data_len_delta: i64,
}

/// A transaction that was executed, and will be committed, or one that was
/// not, and is dropped.
#[derive(Debug, PartialEq, Eq)]
pub enum TransactionExecutionResult {
    Executed { details: TransactionExecutionDetails },
    NotExecuted(TransactionError),
}

/// Whether `trimmed` is `data` without its trailing zero bytes.
pub open spec fn is_trim_of(data: Seq<u8>, trimmed: Seq<u8>) -> bool {
    &&& trimmed.len() <= data.len()
    &&& trimmed == data.subrange(0, trimmed.len() as int)
    &&& trimmed.len() > 0 ==> trimmed[trimmed.len() - 1] != 0
    &&& forall|j: int| trimmed.len() <= j < data.len() ==> data[j] == 0
}

/// Cuts the trailing zero bytes off returned data. Data that is all zero,
/// or empty, is no data.
pub fn trim_return_data(return_data: TransactionReturnData) -> (r: Option<TransactionReturnData>)
    ensures
        match r {
            Some(kept) => {
                &&& kept.program_id == return_data.program_id
                &&& kept.data@.len() > 0
                &&& is_trim_of(return_data.data@, kept.data@)
            },
            None => forall|j: int| 0 <= j < return_data.data@.len() ==> return_data.data@[j] == 0,
        },
{
    let mut return_data = return_data;
    let ghost whole = return_data.data@;
    let mut end: usize = return_data.data.len();
    while end > 0 && return_data.data[end - 1] == 0
        invariant
            return_data.data@ == whole,
            end <= whole.len(),
            forall|j: int| end <= j < whole.len() ==> whole[j] == 0,
        decreases end,
    {
        end -= 1;
    }
    if end == 0 {
        None
    } else {
        return_data.data.truncate(end);
        Some(return_data)
    }
}

/// Whether the working set `after` and the result `r` are what the pipeline
/// makes of the engine's answer `outcome` on the working set `before`.
///
/// A record replaces the working set and is reported as executed, with its
/// logs, its units and its trimmed return data. An error leaves the working
/// set as it was and is reported as not executed. The loader chains stay as
/// they are.
pub open spec fn concludes(
    outcome: Result<ExecutionRecord, TransactionError>,
    before: LoadedTransaction,
    after: LoadedTransaction,
    r: TransactionExecutionResult,
) -> bool {
    &&& after.program_indices == before.program_indices
    &&& match outcome {
        Ok(record) => {
            &&& after.accounts == record.accounts
            &&& r matches TransactionExecutionResult::Executed { details }
            &&& details.status == Ok::<(), TransactionError>(())
            &&& details.log_messages == Some(record.log_messages)
            &&& details.inner_instructions is None
            &&& details.durable_nonce_fee is None
            &&& details.executed_units == record.executed_units
            &&& details.accounts_data_len_delta == record.accounts_data_len_delta
            &&& match details.return_data {
                Some(kept) => {
                    &&& kept.program_id == record.return_data.program_id
                    &&& kept.data@.len() > 0
                    &&& is_trim_of(record.return_data.data@, kept.data@)
                },
                None => forall|j: int|
                    0 <= j < record.return_data.data@.len() ==> record.return_data.data@[j] == 0,
            }
        },
        Err(err) => {
            &&& after.accounts == before.accounts
            &&& r == TransactionExecutionResult::NotExecuted(err)
        },
    }
}

/// What the pipeline makes of the engine's answer.
///
/// A record replaces the working set and is reported as executed, with its
/// logs, its units and its trimmed return data. An error leaves the working
/// set as it was and is reported as not executed.
pub fn conclude_execution(
    outcome: Result<ExecutionRecord, TransactionError>,
    loaded_tx: &mut LoadedTransaction,
) -> (r: TransactionExecutionResult)
    ensures
        concludes(outcome, *old(loaded_tx), *final(loaded_tx), r),
{
    match outcome {
        Ok(record) => {
            let ExecutionRecord {
                accounts,
                log_messages,
                executed_units,
                return_data,
                accounts_data_len_delta,
            } = record;
            loaded_tx.accounts = accounts;
            TransactionExecutionResult::Executed {
                details: TransactionExecutionDetails {
                    status: Ok(()),
                    log_messages: Some(log_messages),
                    inner_instructions: None,
                    durable_nonce_fee: None,
                    return_data: trim_return_data(return_data),
                    executed_units,
                    accounts_data_len_delta,
                },
            }
        },
        Err(err) => TransactionExecutionResult::NotExecuted(err),
    }
}

} // verus!
