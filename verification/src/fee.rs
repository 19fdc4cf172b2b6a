//! The fee of a message.

use crate::address::{same_address, ED25519_PROGRAM_ID, SECP256K1_PROGRAM_ID};
use crate::bank::PgBank;
use crate::message::{MessageView, SanitizedMessage};
use crate::sdk::{compute_budget_outcome, process_compute_budget};
use vstd::prelude::*;

verus! {

/// The congestion that leaves a fee unscaled.
pub const BASE_CONGESTION: u64 = 5000;

/// A fee and the compute-unit limit up to which it is charged.
#[derive(Clone, Copy, Debug, PartialEq, Eq, Structural)]
pub struct FeeBin {
    /// The largest compute-unit limit that this fee covers.
    pub limit: u64,
    /// The fee in lamports.
    pub fee: u64,
}

/// What a signature, a write lock and compute units cost.
#[derive(Clone, Debug, PartialEq, Eq)]
pub struct FeeStructure {
    pub lamports_per_signature: u64,
    pub lamports_per_write_lock: u64,
    pub compute_fee_bins: Vec<FeeBin>,
}

impl Default for FeeStructure {
    /// 5000 lamports per signature, nothing per write lock, and one bin
    /// that charges nothing up to 1,400,000 compute units.
    fn default() -> (r: Self)
        ensures
            r.lamports_per_signature == 5000,
            r.lamports_per_write_lock == 0,
            r.compute_fee_bins@ == seq![FeeBin { limit: 1_400_000, fee: 0 }],
    {
        let mut bins: Vec<FeeBin> = Vec::new();
        bins.push(FeeBin { limit: 1_400_000, fee: 0 });
        assert(bins@ =~= seq![FeeBin { limit: 1_400_000, fee: 0 }]);
        FeeStructure { lamports_per_signature: 5000, lamports_per_write_lock: 0, compute_fee_bins: bins }
    }
}

/// The sum, or the largest value where the sum does not fit.
pub open spec fn sat_add(a: u64, b: u64) -> u64 {
    if a + b > u64::MAX {
        u64::MAX
    } else {
        (a + b) as u64
    }
}

/// The product, or the largest value where the product does not fit.
pub open spec fn sat_mul(a: u64, b: u64) -> u64 {
    if a * b > u64::MAX {
        u64::MAX
    } else {
        (a * b) as u64
    }
}

/// The product, or the largest value where the product does not fit.
pub fn saturating_product(a: u64, b: u64) -> (r: u64)
    ensures
        r == sat_mul(a, b),
{
    match a.checked_mul(b) {
        Some(p) => p,
        None => u64::MAX,
    }
}

/// What instruction `i` adds to the number of signatures: where its program
/// is a signature-verification precompile and it has data, its first byte.
pub open spec fn verifications(msg: MessageView, i: int) -> u64 {
    if (msg.program_id(i) == SECP256K1_PROGRAM_ID || msg.program_id(i) == ED25519_PROGRAM_ID)
        && msg.instructions[i].data.len() > 0 {
        msg.instructions[i].data[0] as u64
    } else {
        0
    }
}

/// The required signatures plus the verifications of the first `n`
/// instructions.
pub open spec fn signatures_of_prefix(msg: MessageView, n: nat) -> u64
    decreases n,
{
    if n == 0 {
        msg.header.num_required_signatures as u64
    } else {
        sat_add(signatures_of_prefix(msg, (n - 1) as nat), verifications(msg, n - 1))
    }
}

/// The number of signatures that a message is charged for.
pub open spec fn num_signatures(msg: MessageView) -> u64 {
    signatures_of_prefix(msg, msg.instructions.len())
}

/// The number of keys that a message locks for writing.
pub open spec fn num_write_locks(msg: MessageView) -> u64 {
    if msg.account_keys.len() >= msg.num_readonly_accounts() {
        (msg.account_keys.len() - msg.num_readonly_accounts()) as u64
    } else {
        0
    }
}

/// Whether bin `i` is the first whose limit covers `limit`.
pub open spec fn is_first_cover(bins: Seq<FeeBin>, limit: u64, i: int) -> bool {
    &&& 0 <= i < bins.len()
    &&& limit <= bins[i].limit
    &&& forall|j: int| 0 <= j < i ==> limit > (#[trigger] bins[j]).limit
}

/// The fee for a compute-unit limit: that of the first bin that covers it;
/// where none does, that of the last bin; with no bins, nothing.
pub open spec fn compute_fee(bins: Seq<FeeBin>, limit: u64) -> u64 {
    if exists|i: int| is_first_cover(bins, limit, i) {
        bins[choose|i: int| is_first_cover(bins, limit, i)].fee
    } else if bins.len() > 0 {
        bins[bins.len() - 1].fee
    } else {
        0
    }
}

/// The fee before congestion: prioritization, signatures, write locks and
/// compute units, added in that order without overflow.
pub open spec fn base_fee(
    msg: MessageView,
    lamports_per_signature: u64,
    lamports_per_write_lock: u64,
    bins: Seq<FeeBin>,
    prioritization_fee: u64,
    compute_unit_limit: u64,
) -> u64 {
    sat_add(
        sat_add(
            sat_add(prioritization_fee, sat_mul(num_signatures(msg), lamports_per_signature)),
            sat_mul(num_write_locks(msg), lamports_per_write_lock),
        ),
        compute_fee(bins, compute_unit_limit),
    )
}

/// A fee scaled by congestion: nothing where a signature costs nothing;
/// else `total` times 5000 over the larger of 5000 and the cost of a
/// signature, rounded to the nearest integer, a half upwards.
pub open spec fn congestion_scaled(total: u64, lamports_per_signature: u64) -> u64 {
    if lamports_per_signature == 0 {
        0
    } else {
        let congestion: int = if lamports_per_signature > BASE_CONGESTION {
            lamports_per_signature as int
        } else {
            BASE_CONGESTION as int
        };
        ((2 * BASE_CONGESTION * total + congestion) / (2 * congestion)) as u64
    }
}

/// The fee of a message, given what its compute-budget instructions ask
/// for.
pub open spec fn fee_of(
    msg: MessageView,
    lamports_per_signature: u64,
    structure: FeeStructure,
    prioritization_fee: u64,
    compute_unit_limit: u64,
) -> u64 {
    congestion_scaled(
        base_fee(
            msg,
            structure.lamports_per_signature,
            structure.lamports_per_write_lock,
            structure.compute_fee_bins@,
            prioritization_fee,
            compute_unit_limit,
        ),
        lamports_per_signature,
    )
}

/// The prioritization fee that a compute-budget outcome stands for: nothing
/// where the instructions were refused.
pub open spec fn prioritization_of(outcome: (Option<u64>, u64)) -> u64 {
    match outcome.0 {
        Some(fee) => fee,
        None => 0,
    }
}

/// A scaled fee never exceeds the fee it was scaled from.
pub proof fn lemma_scaled_at_most_total(total: u64, lamports_per_signature: u64)
    ensures
        congestion_scaled(total, lamports_per_signature) <= total,
        0 < lamports_per_signature <= BASE_CONGESTION ==> congestion_scaled(
            total,
            lamports_per_signature,
        ) == total,
{
    if lamports_per_signature != 0 {
        let c: int = if lamports_per_signature > BASE_CONGESTION {
            lamports_per_signature as int
        } else {
            BASE_CONGESTION as int
        };
        let t = total as int;
        assert((10000 * t + c) / (2 * c) <= t) by (nonlinear_arith)
            requires
                c >= 5000,
                t >= 0,
        ;
        assert((10000 * t + c) / (2 * c) >= 0) by (nonlinear_arith)
            requires
                c >= 5000,
                t >= 0,
        ;
        if c == 5000 {
            assert((10000 * t + 5000) / 10000 == t);
        }
    }
}

/// With a signature that costs nothing, every fee is nothing.
pub proof fn lemma_zero_fee_mode(
    msg: MessageView,
    structure: FeeStructure,
    prioritization_fee: u64,
    compute_unit_limit: u64,
)
    ensures
        fee_of(msg, 0, structure, prioritization_fee, compute_unit_limit) == 0,
{
}

/// The number of signatures that a message is charged for.
pub fn get_num_signatures_in_message(message: &SanitizedMessage) -> (r: u64)
    ensures
        r == num_signatures(message@),
{
    let keys = message.account_keys();
    let instructions = message.instructions();
    let mut count: u64 = message.header().num_required_signatures as u64;
    let mut i: usize = 0;
    while i < instructions.len()
        invariant
            message@.sanitized(),
            keys@ == message@.account_keys,
            crate::message::instruction_views(instructions@) == message@.instructions,
            i <= instructions@.len(),
            count == signatures_of_prefix(message@, i as nat),
        decreases instructions@.len() - i,
    {
        let ix = &instructions[i];
        assert(message@.instructions[i as int] == ix@);
        let program_id = &keys[ix.program_id_index as usize];
        if same_address(program_id, &SECP256K1_PROGRAM_ID) || same_address(
            program_id,
            &ED25519_PROGRAM_ID,
        ) {
            if ix.data.len() > 0 {
                count = count.saturating_add(ix.data[0] as u64);
            }
        }
        i += 1;
    }
    count
}

/// The number of keys that a message locks for writing.
pub fn get_num_write_locks_in_message(message: &SanitizedMessage) -> (r: u64)
    ensures
        r == num_write_locks(message@),
{
    let n = message.account_keys().len();
    let readonly = message.num_readonly_accounts();
    proof {
        assert(n - readonly >= 0);
    }
    n.saturating_sub(readonly) as u64
}

/// The fee for a compute-unit limit.
pub fn compute_fee_for_limit(bins: &Vec<FeeBin>, limit: u64) -> (r: u64)
    ensures
        r == compute_fee(bins@, limit),
{
    let mut i: usize = 0;
    while i < bins.len()
        invariant
            i <= bins@.len(),
            forall|j: int| 0 <= j < i ==> limit > (#[trigger] bins@[j]).limit,
        decreases bins@.len() - i,
    {
        if limit <= bins[i].limit {
            proof {
                assert(is_first_cover(bins@, limit, i as int));
                let c = choose|c: int| is_first_cover(bins@, limit, c);
                if c < i {
                    assert(limit > bins@[c].limit);
                } else if i < c {
                    assert(limit > bins@[i as int].limit);
                }
            }
            return bins[i].fee;
        }
        i += 1;
    }
    proof {
        if exists|c: int| is_first_cover(bins@, limit, c) {
            let c = choose|c: int| is_first_cover(bins@, limit, c);
            assert(limit > bins@[c].limit);
        }
    }
    if bins.len() > 0 {
        bins[bins.len() - 1].fee
    } else {
        0
    }
}

/// Scales a fee by congestion.
pub fn scale_by_congestion(total: u64, lamports_per_signature: u64) -> (r: u64)
    ensures
        r == congestion_scaled(total, lamports_per_signature),
{
    if lamports_per_signature == 0 {
        return 0;
    }
    let congestion: u128 = if lamports_per_signature > BASE_CONGESTION {
        lamports_per_signature as u128
    } else {
        BASE_CONGESTION as u128
    };
    proof {
        lemma_scaled_at_most_total(total, lamports_per_signature);
    }
    let scaled: u128 = (10000 * (total as u128) + congestion) / (2 * congestion);
    assert(scaled == (2 * BASE_CONGESTION * total + congestion) / (2 * congestion));
    assert(scaled <= total) by {
        let c = congestion as int;
        let t = total as int;
        assert((10000 * t + c) / (2 * c) <= t) by (nonlinear_arith)
            requires
                c >= 5000,
                t >= 0,
        ;
    }
    scaled as u64
}

/// The fee of a message, given the prioritization fee and the compute-unit
/// limit that its compute-budget instructions ask for.
pub fn fee_for_budget(
    message: &SanitizedMessage,
    lamports_per_signature: u64,
    fee_structure: &FeeStructure,
    prioritization_fee: u64,
    compute_unit_limit: u64,
) -> (r: u64)
    ensures
        r == fee_of(
            message@,
            lamports_per_signature,
            *fee_structure,
            prioritization_fee,
            compute_unit_limit,
        ),
{
    let signature_fee = saturating_product(
        get_num_signatures_in_message(message),
        fee_structure.lamports_per_signature,
    );
    let write_lock_fee = saturating_product(
        get_num_write_locks_in_message(message),
        fee_structure.lamports_per_write_lock,
    );
    let compute = compute_fee_for_limit(&fee_structure.compute_fee_bins, compute_unit_limit);
    let total = prioritization_fee.saturating_add(signature_fee).saturating_add(
        write_lock_fee,
    ).saturating_add(compute);
    scale_by_congestion(total, lamports_per_signature)
}

impl PgBank {
    /// The fee of a message.
    ///
    /// The message's compute-budget instructions are read by the program
    /// runtime; the fee follows from what it finds and from the message,
    /// the cost of a signature and the fee structure alone. Where a
    /// signature costs nothing, the fee is nothing.
    pub fn calculate_fee(
        message: &SanitizedMessage,
        lamports_per_signature: u64,
        fee_structure: &FeeStructure,
        support_set_compute_unit_price_ix: bool,
        use_default_units_per_instruction: bool,
    ) -> (r: u64)
        ensures
            r == fee_of(
                message@,
                lamports_per_signature,
                *fee_structure,
                prioritization_of(
                    compute_budget_outcome(
                        message@.calls(),
                        use_default_units_per_instruction,
                        support_set_compute_unit_price_ix,
                    ),
                ),
                compute_budget_outcome(
                    message@.calls(),
                    use_default_units_per_instruction,
                    support_set_compute_unit_price_ix,
                ).1,
            ),
            lamports_per_signature == 0 ==> r == 0,
    {
        let calls = message.program_instructions();
        let outcome = process_compute_budget(
            &calls,
            use_default_units_per_instruction,
            support_set_compute_unit_price_ix,
        );
        let prioritization_fee = match outcome.0 {
            Some(fee) => fee,
            None => 0,
        };
        fee_for_budget(message, lamports_per_signature, fee_structure, prioritization_fee, outcome.1)
    }
}

} // verus!
