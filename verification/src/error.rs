//! The errors a transaction can end in, and the counters that record them.

use vstd::prelude::*;

verus! {

/// Why a transaction was not loaded, executed or committed.
#[derive(Clone, Copy, Debug, PartialEq, Eq, Structural)]
pub enum TransactionError {
    /// The fee payer holds no balance, or no fee payer was found.
    AccountNotFound,
    /// A program, or the companion account of an upgradeable program, is
    /// not in the account store.
    ProgramAccountNotFound,
    /// An account in a loader chain is not executable, or an upgradeable
    /// program does not name its companion account.
    InvalidProgramForExecution,
    /// An executable account was asked for as writable.
    InvalidWritableAccount,
    /// A loader chain has more than five hops.
    CallChainTooDeep,
    /// The fee payer is not a plain system account.
    InvalidAccountForFee,
    /// The fee payer cannot cover the fee.
    InsufficientFundsForFee,
    /// A fee is due and the transaction carries no signature.
    MissingSignatureForFee,
    /// The signature already has a ledger entry.
    AlreadyProcessed,
    /// The loaded accounts hold more data than the budget allows.
    WouldExceedAccountDataTotalLimit,
    /// The execution engine found an instruction that names an account
    /// outside the working set.
    InvalidAccountIndex,
    /// The execution engine reported that the instruction at `index` failed:
    /// `code` is the engine's number for the kind of error, and `custom` is
    /// the number that the program gave where the error is of its own
    /// making, and zero otherwise.
    InstructionError { index: u8, code: u32, custom: u32 },
}

/// One more, stopping at the largest value.
pub open spec fn bump(n: usize) -> usize {
    if n == usize::MAX {
        n
    } else {
        (n + 1) as usize
    }
}

/// How often each kind of error was met.
#[derive(Clone, Debug, PartialEq, Eq)]
pub struct TransactionErrorMetrics {
    pub total: usize,
    pub account_in_use: usize,
    pub too_many_account_locks: usize,
    pub account_loaded_twice: usize,
    pub account_not_found: usize,
    pub blockhash_not_found: usize,
    pub blockhash_too_old: usize,
    pub call_chain_too_deep: usize,
    pub already_processed: usize,
    pub instruction_error: usize,
    pub insufficient_funds: usize,
    pub invalid_account_for_fee: usize,
    pub invalid_account_index: usize,
    pub invalid_program_for_execution: usize,
    pub not_allowed_during_cluster_maintenance: usize,
    pub invalid_writable_account: usize,
    pub invalid_rent_paying_account: usize,
    pub would_exceed_max_block_cost_limit: usize,
    pub would_exceed_max_account_cost_limit: usize,
    pub would_exceed_max_vote_cost_limit: usize,
    pub would_exceed_account_data_block_limit: usize,
    pub max_loaded_accounts_data_size_exceeded: usize,
    pub invalid_loaded_accounts_data_size_limit: usize,
}

impl Default for TransactionErrorMetrics {
    fn default() -> (r: Self)
        ensures
            r == TransactionErrorMetrics::zero(),
    {
        TransactionErrorMetrics {
            total: 0,
            account_in_use: 0,
            too_many_account_locks: 0,
            account_loaded_twice: 0,
            account_not_found: 0,
            blockhash_not_found: 0,
            blockhash_too_old: 0,
            call_chain_too_deep: 0,
            already_processed: 0,
            instruction_error: 0,
            insufficient_funds: 0,
            invalid_account_for_fee: 0,
            invalid_account_index: 0,
            invalid_program_for_execution: 0,
            not_allowed_during_cluster_maintenance: 0,
            invalid_writable_account: 0,
            invalid_rent_paying_account: 0,
            would_exceed_max_block_cost_limit: 0,
            would_exceed_max_account_cost_limit: 0,
            would_exceed_max_vote_cost_limit: 0,
            would_exceed_account_data_block_limit: 0,
            max_loaded_accounts_data_size_exceeded: 0,
            invalid_loaded_accounts_data_size_limit: 0,
        }
    }
}

impl TransactionErrorMetrics {
    /// Every counter at zero.
    pub open spec fn zero() -> TransactionErrorMetrics {
        TransactionErrorMetrics {
            total: 0,
            account_in_use: 0,
            too_many_account_locks: 0,
            account_loaded_twice: 0,
            account_not_found: 0,
            blockhash_not_found: 0,
            blockhash_too_old: 0,
            call_chain_too_deep: 0,
            already_processed: 0,
            instruction_error: 0,
            insufficient_funds: 0,
            invalid_account_for_fee: 0,
            invalid_account_index: 0,
            invalid_program_for_execution: 0,
            not_allowed_during_cluster_maintenance: 0,
            invalid_writable_account: 0,
            invalid_rent_paying_account: 0,
            would_exceed_max_block_cost_limit: 0,
            would_exceed_max_account_cost_limit: 0,
            would_exceed_max_vote_cost_limit: 0,
            would_exceed_account_data_block_limit: 0,
            max_loaded_accounts_data_size_exceeded: 0,
            invalid_loaded_accounts_data_size_limit: 0,
        }
    }

    /// The counters after one more occurrence of `err`.
    ///
    /// A missing program counts as a missing account. An error of the
    /// execution engine, and a missing signature, have no counter of their
    /// own and leave the counters as they are.
    pub open spec fn recorded(self, err: TransactionError) -> TransactionErrorMetrics {
        match err {
            TransactionError::AccountNotFound => TransactionErrorMetrics {
                account_not_found: bump(self.account_not_found),
                ..self
            },
            TransactionError::ProgramAccountNotFound => TransactionErrorMetrics {
                account_not_found: bump(self.account_not_found),
                ..self
            },
            TransactionError::InvalidProgramForExecution => TransactionErrorMetrics {
                invalid_program_for_execution: bump(self.invalid_program_for_execution),
                ..self
            },
            TransactionError::InvalidWritableAccount => TransactionErrorMetrics {
                invalid_writable_account: bump(self.invalid_writable_account),
                ..self
            },
            TransactionError::CallChainTooDeep => TransactionErrorMetrics {
                call_chain_too_deep: bump(self.call_chain_too_deep),
                ..self
            },
            TransactionError::InvalidAccountForFee => TransactionErrorMetrics {
                invalid_account_for_fee: bump(self.invalid_account_for_fee),
                ..self
            },
            TransactionError::InsufficientFundsForFee => TransactionErrorMetrics {
                insufficient_funds: bump(self.insufficient_funds),
                ..self
            },
            TransactionError::AlreadyProcessed => TransactionErrorMetrics {
                already_processed: bump(self.already_processed),
                ..self
            },
            TransactionError::WouldExceedAccountDataTotalLimit => TransactionErrorMetrics {
                max_loaded_accounts_data_size_exceeded: bump(self.max_loaded_accounts_data_size_exceeded),
                ..self
            },
            TransactionError::InvalidAccountIndex => TransactionErrorMetrics {
                invalid_account_index: bump(self.invalid_account_index),
                ..self
            },
            TransactionError::MissingSignatureForFee => self,
            TransactionError::InstructionError { .. } => self,
        }
    }

    /// The counters after a step that ended in `outcome`.
    pub open spec fn after<T>(self, outcome: Result<T, TransactionError>) -> TransactionErrorMetrics {
        match outcome {
            Ok(_) => self,
            Err(err) => self.recorded(err),
        }
    }

    /// Counts one more occurrence of `err` and hands `err` back.
    pub fn record(&mut self, err: TransactionError) -> (r: TransactionError)
        ensures
            r == err,
            *final(self) == old(self).recorded(err),
    {
        match err {
            TransactionError::AccountNotFound => {
                self.account_not_found = self.account_not_found.saturating_add(1);
            },
            TransactionError::ProgramAccountNotFound => {
                self.account_not_found = self.account_not_found.saturating_add(1);
            },
            TransactionError::InvalidProgramForExecution => {
                self.invalid_program_for_execution = self.invalid_program_for_execution.saturating_add(1);
            },
            TransactionError::InvalidWritableAccount => {
                self.invalid_writable_account = self.invalid_writable_account.saturating_add(1);
            },
            TransactionError::CallChainTooDeep => {
                self.call_chain_too_deep = self.call_chain_too_deep.saturating_add(1);
            },
            TransactionError::InvalidAccountForFee => {
                self.invalid_account_for_fee = self.invalid_account_for_fee.saturating_add(1);
            },
            TransactionError::InsufficientFundsForFee => {
                self.insufficient_funds = self.insufficient_funds.saturating_add(1);
            },
            TransactionError::AlreadyProcessed => {
                self.already_processed = self.already_processed.saturating_add(1);
            },
            TransactionError::WouldExceedAccountDataTotalLimit => {
                self.max_loaded_accounts_data_size_exceeded = self.max_loaded_accounts_data_size_exceeded.saturating_add(1);
            },
            TransactionError::InvalidAccountIndex => {
                self.invalid_account_index = self.invalid_account_index.saturating_add(1);
            },
            TransactionError::MissingSignatureForFee => {},
            TransactionError::InstructionError { .. } => {},
        }
        err
    }
}

} // verus!
