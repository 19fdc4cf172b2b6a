//! The calls into the Solana SDK and its program runtime.
//!
//! Nothing in this file is proved: the contract of each function here
//! states what the SDK does, and the proofs of the library rest on it.

use crate::address::{Address, Blockhash};
use crate::message::{decompiled_view, DecompiledInstruction};
use solana_program_runtime::compute_budget::ComputeBudget;
use solana_sdk::bpf_loader_upgradeable::UpgradeableLoaderState;
use solana_sdk::instruction::CompiledInstruction;
use solana_sdk::pubkey::Pubkey;
use solana_sdk::sysvar::instructions::{BorrowedAccountMeta, BorrowedInstruction};
use vstd::prelude::*;

verus! {

/// What `solana_sdk::message::legacy::is_builtin_key_or_sysvar` answers for
/// the address with bytes `key`.
pub uninterp spec fn reserved_key(key: Seq<u8>) -> bool;

/// What `solana_sdk::hash::hash` (SHA-256) returns for `data`.
pub uninterp spec fn sha256_digest(data: Seq<u8>) -> Seq<u8>;

/// What `ComputeBudget::process_instructions` of `solana_program_runtime`
/// gives for the instructions `calls`, each a program address and the
/// instruction's data: the prioritization fee, or `None` where the
/// instructions are refused, and the compute-unit limit of the budget after
/// the call.
pub uninterp spec fn compute_budget_outcome(
    calls: Seq<(Seq<u8>, Seq<u8>)>,
    default_units_per_instruction: bool,
    support_set_compute_unit_price_ix: bool,
) -> (Option<u64>, u64);

/// What `solana_sdk::sysvar::instructions::construct_instructions_data`
/// returns for `instructions`, each a program address, the accounts it
/// touches (address, signer, writable) and its data.
pub uninterp spec fn instructions_sysvar_data(
    instructions: Seq<(Seq<u8>, Seq<(Seq<u8>, bool, bool)>, Seq<u8>)>,
) -> Seq<u8>;

/// What `Rent::minimum_balance` of `solana_sdk` returns for `data_len`
/// under the default rent parameters.
pub uninterp spec fn default_rent_minimum_balance(data_len: usize) -> u64;

/// A program address and instruction data, as the compute budget reads them.
pub open spec fn calls_view(calls: Seq<(Address, Vec<u8>)>) -> Seq<(Seq<u8>, Seq<u8>)> {
    Seq::new(calls.len(), |i: int| (calls[i].0@, calls[i].1@))
}

/// Calls `solana_sdk::message::legacy::is_builtin_key_or_sysvar`: whether
/// `key` is one of the SDK's built-in program or system-variable addresses.
/// The answer depends on the address alone.
#[verifier::external_body]
pub(crate) fn is_reserved_key(key: &Address) -> (r: bool)
    ensures
        r == reserved_key(key@),
{
    solana_sdk::message::legacy::is_builtin_key_or_sysvar(
        &Pubkey::new_from_array(*key),
    )
}

/// Calls `solana_sdk::hash::hash`: the SHA-256 digest of `data`, which
/// depends on the bytes alone.
#[verifier::external_body]
pub(crate) fn sha256(data: &[u8]) -> (r: Blockhash)
    ensures
        r@ == sha256_digest(data@),
{
    solana_sdk::hash::hash(data).to_bytes()
}

/// Calls `ComputeBudget::process_instructions` of `solana_program_runtime`
/// on a default budget, with heap-frame requests enabled. Returns the
/// prioritization fee of the details it gives (`None` where it refuses the
/// instructions) and the budget's compute-unit limit after the call. Both
/// depend on the program addresses, the instruction data and the two flags
/// alone.
#[verifier::external_body]
pub(crate) fn process_compute_budget(
    calls: &Vec<(Address, Vec<u8>)>,
    default_units_per_instruction: bool,
    support_set_compute_unit_price_ix: bool,
) -> (r: (Option<u64>, u64))
    ensures
        r == compute_budget_outcome(
            calls_view(calls@),
            default_units_per_instruction,
            support_set_compute_unit_price_ix,
        ),
{
    let owned: Vec<(Pubkey, CompiledInstruction)> = calls.iter().map(|c| (
        Pubkey::new_from_array(c.0),
        CompiledInstruction::new_from_raw_parts(0, c.1.clone(), vec![]),
    )).collect();
    let mut budget = ComputeBudget::default();
    let details = budget.process_instructions(
        owned.iter().map(|c| (&c.0, &c.1)),
        default_units_per_instruction,
        support_set_compute_unit_price_ix,
        true,
    );
    (details.ok().map(|d| d.get_fee()), budget.compute_unit_limit)
}

/// Calls `bincode::deserialize` for `UpgradeableLoaderState` of
/// `solana_sdk`, as the SDK's `StateMut::state` does. The state is a
/// program record exactly where the data starts with the little-endian
/// 32-bit tag 2 and holds the 32 bytes of the companion address after it;
/// bytes beyond those are ignored.
#[verifier::external_body]
pub(crate) fn programdata_address(data: &[u8]) -> (r: Option<Address>)
    ensures
        r is Some == names_programdata(data@),
        r is Some ==> r->0@ == data@.subrange(4, 36),
{
    match bincode::deserialize(data) {
        Ok(UpgradeableLoaderState::Program {
            programdata_address,
        }) => Some(programdata_address.to_bytes()),
        _ => None,
    }
}

/// Whether account data is the record of an upgradeable program: the tag 2
/// as a little-endian 32-bit number, then a 32-byte address.
pub open spec fn names_programdata(data: Seq<u8>) -> bool {
    &&& data.len() >= 36
    &&& data[0] == 2
    &&& data[1] == 0
    &&& data[2] == 0
    &&& data[3] == 0
}

/// Calls `solana_sdk::sysvar::instructions::construct_instructions_data` on
/// the instructions, each handed over with its program address, its
/// accounts and its data as they stand: the data of the instructions
/// system variable, which depends on those values alone.
#[verifier::external_body]
pub(crate) fn instructions_account_data(instructions: &Vec<DecompiledInstruction>) -> (r: Vec<u8>)
    ensures
        r@ == instructions_sysvar_data(decompiled_view(instructions@)),
{
    let keys: Vec<(Pubkey, Vec<Pubkey>)> = instructions.iter().map(|ix| (
        Pubkey::new_from_array(ix.program_id),
        ix.accounts.iter().map(|m| Pubkey::new_from_array(m.pubkey)).collect(),
    )).collect();
    let borrowed: Vec<BorrowedInstruction> = instructions.iter().zip(keys.iter()).map(|(ix, k)| BorrowedInstruction {
        program_id: &k.0,
        accounts: ix.accounts.iter().zip(k.1.iter()).map(|(m, pubkey)| BorrowedAccountMeta {
            pubkey,
            is_signer: m.is_signer,
            is_writable: m.is_writable,
        }).collect(),
        data: &ix.data,
    }).collect();
    solana_sdk::sysvar::instructions::construct_instructions_data(&borrowed)
}

/// Calls `Rent::minimum_balance` of `solana_sdk` on `Rent::default()`. The
/// SDK multiplies the data length plus 128 by 3480 in 64 bits, so the
/// product must fit; it then doubles the product as a 64-bit float and
/// turns it back into an integer, which is exact while the product is
/// below 2 to the 53rd.
#[verifier::external_body]
pub(crate) fn rent_minimum_balance(data_len: usize) -> (r: u64)
    requires
        (data_len + 128) * 3480 <= u64::MAX,
    ensures
        r == default_rent_minimum_balance(data_len),
        (data_len + 128) * 3480 < 0x20_0000_0000_0000 ==> r == 2 * ((data_len + 128) * 3480),
{
    solana_sdk::rent::Rent::default().minimum_balance(data_len)
}

/// Calls `bincode::serialize` on `Clock::default()` of `solana_sdk`: five
/// 64-bit fields, all zero.
#[verifier::external_body]
pub(crate) fn default_clock_data() -> (r: Vec<u8>)
    ensures
        r@ == Seq::new(40, |i: int| 0u8),
{
    bincode::serialize(&solana_sdk::clock::Clock::default()).unwrap_or_default()
}

/// Calls `bincode::serialize` on `Rent::default()` of `solana_sdk`: 3480
/// lamports per byte-year, the exemption threshold 2.0 as a 64-bit float,
/// and a burn of 50 percent, each little-endian.
#[verifier::external_body]
pub(crate) fn default_rent_data() -> (r: Vec<u8>)
    ensures
        r@ == seq![0x98u8, 0x0d, 0, 0, 0, 0, 0, 0, 0, 0, 0, 0, 0, 0, 0, 0x40, 50],
{
    bincode::serialize(&solana_sdk::rent::Rent::default()).unwrap_or_default()
}

} // verus!
