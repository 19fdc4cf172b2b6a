use playnet::address::{ED25519_PROGRAM_ID, SECP256K1_PROGRAM_ID};
use playnet::bank::PgBank;
use playnet::fee::{
    compute_fee_for_limit, fee_for_budget, get_num_signatures_in_message,
    get_num_write_locks_in_message, saturating_product, scale_by_congestion, FeeBin,
    FeeStructure, BASE_CONGESTION,
};
use playnet::message::{CompiledInstruction, MessageHeader, SanitizedMessage};
use solana_sdk::compute_budget::ComputeBudgetInstruction;
use solana_sdk::pubkey::Pubkey;

fn header(signers: u8, readonly_signed: u8, readonly_unsigned: u8) -> MessageHeader {
    MessageHeader {
        num_required_signatures: signers,
        num_readonly_signed_accounts: readonly_signed,
        num_readonly_unsigned_accounts: readonly_unsigned,
    }
}

fn instruction(program: u8, accounts: Vec<u8>, data: Vec<u8>) -> CompiledInstruction {
    CompiledInstruction {
        program_id_index: program,
        accounts,
        data,
    }
}

fn message(
    header: MessageHeader,
    keys: &[[u8; 32]],
    instructions: &[CompiledInstruction],
) -> SanitizedMessage {
    SanitizedMessage::try_new(header, keys.to_vec(), [0u8; 32], instructions.to_vec()).unwrap()
}

fn sdk_message(
    header: MessageHeader,
    keys: &[[u8; 32]],
    instructions: &[CompiledInstruction],
) -> solana_sdk::message::SanitizedMessage {
    let legacy = solana_sdk::message::legacy::Message {
        header: solana_sdk::message::MessageHeader {
            num_required_signatures: header.num_required_signatures,
            num_readonly_signed_accounts: header.num_readonly_signed_accounts,
            num_readonly_unsigned_accounts: header.num_readonly_unsigned_accounts,
        },
        account_keys: keys.iter().map(|k| Pubkey::new_from_array(*k)).collect(),
        recent_blockhash: solana_sdk::hash::Hash::default(),
        instructions: instructions
            .iter()
            .map(|ix| {
                solana_sdk::instruction::CompiledInstruction::new_from_raw_parts(
                    ix.program_id_index,
                    ix.data.clone(),
                    ix.accounts.clone(),
                )
            })
            .collect(),
    };
    solana_sdk::message::SanitizedMessage::try_from(legacy).unwrap()
}

fn sdk_structure(structure: &FeeStructure) -> solana_sdk::fee::FeeStructure {
    solana_sdk::fee::FeeStructure {
        lamports_per_signature: structure.lamports_per_signature,
        lamports_per_write_lock: structure.lamports_per_write_lock,
        compute_fee_bins: structure
            .compute_fee_bins
            .iter()
            .map(|bin| solana_sdk::fee::FeeBin {
                limit: bin.limit,
                fee: bin.fee,
            })
            .collect(),
    }
}

fn bins(list: &[(u64, u64)]) -> Vec<FeeBin> {
    list.iter()
        .map(|(limit, fee)| FeeBin {
            limit: *limit,
            fee: *fee,
        })
        .collect()
}

fn structure(per_signature: u64, per_write_lock: u64, list: &[(u64, u64)]) -> FeeStructure {
    FeeStructure {
        lamports_per_signature: per_signature,
        lamports_per_write_lock: per_write_lock,
        compute_fee_bins: bins(list),
    }
}

fn transfer_parts() -> (MessageHeader, Vec<[u8; 32]>, Vec<CompiledInstruction>) {
    (
        header(1, 0, 1),
        vec![[1u8; 32], [2u8; 32], [3u8; 32]],
        vec![instruction(2, vec![0, 1], vec![0, 0, 0, 0, 5])],
    )
}

fn budget_parts(limit: u32, price: u64) -> (MessageHeader, Vec<[u8; 32]>, Vec<CompiledInstruction>) {
    (
        header(1, 0, 2),
        vec![
            [1u8; 32],
            [2u8; 32],
            [3u8; 32],
            solana_sdk::compute_budget::id().to_bytes(),
        ],
        vec![
            instruction(
                3,
                vec![],
                ComputeBudgetInstruction::set_compute_unit_limit(limit).data,
            ),
            instruction(
                3,
                vec![],
                ComputeBudgetInstruction::set_compute_unit_price(price).data,
            ),
            instruction(2, vec![0, 1], vec![7]),
        ],
    )
}

#[test]
fn default_fee_structure_is_that_of_the_sdk() {
    let ours = FeeStructure::default();
    let theirs = solana_sdk::fee::FeeStructure::default();
    assert_eq!(ours.lamports_per_signature, theirs.lamports_per_signature);
    assert_eq!(ours.lamports_per_write_lock, theirs.lamports_per_write_lock);
    assert_eq!(ours.compute_fee_bins.len(), theirs.compute_fee_bins.len());
    assert_eq!(ours.compute_fee_bins[0].limit, theirs.compute_fee_bins[0].limit);
    assert_eq!(ours.compute_fee_bins[0].fee, theirs.compute_fee_bins[0].fee);
    assert_eq!(ours.lamports_per_signature, 5000);
    assert_eq!(ours.lamports_per_write_lock, 0);
    assert_eq!(ours.compute_fee_bins, bins(&[(1_400_000, 0)]));
}

#[test]
fn base_congestion_is_five_thousand() {
    assert_eq!(BASE_CONGESTION, 5000);
}

#[test]
fn fee_of_one_signature_at_base_congestion() {
    let (h, keys, ixs) = transfer_parts();
    let fee = PgBank::calculate_fee(
        &message(h, &keys, &ixs),
        5000,
        &FeeStructure::default(),
        true,
        true,
    );
    assert_eq!(fee, 5000);
}

#[test]
fn zero_cost_of_a_signature_gives_zero_fee() {
    let (h, keys, ixs) = transfer_parts();
    let dear = structure(u64::MAX, u64::MAX, &[(0, u64::MAX)]);
    assert_eq!(
        PgBank::calculate_fee(&message(h, &keys, &ixs), 0, &dear, true, true),
        0
    );
    assert_eq!(
        PgBank::calculate_fee(&message(h, &keys, &ixs), 0, &FeeStructure::default(), false, false),
        0
    );
    let (h, keys, ixs) = budget_parts(1000, 5_000_000);
    assert_eq!(
        PgBank::calculate_fee(&message(h, &keys, &ixs), 0, &dear, true, true),
        0
    );
    assert_eq!(
        PgBank::calculate_fee(
            &message(header(1, 0, 0), &[[1u8; 32]], &[]),
            0,
            &FeeStructure::default(),
            true,
            true
        ),
        0
    );
}

#[test]
fn fee_is_the_same_each_time() {
    let (h, keys, ixs) = budget_parts(300_000, 1234);
    let m = message(h, &keys, &ixs);
    let fs = structure(5000, 3, &[(100, 1), (400_000, 20), (1_400_000, 300)]);
    let first = PgBank::calculate_fee(&m, 7000, &fs, true, true);
    for _ in 0..5 {
        assert_eq!(PgBank::calculate_fee(&m, 7000, &fs, true, true), first);
    }
    assert_eq!(m, message(h, &keys, &ixs));
}

#[test]
fn congestion_above_base_scales_the_fee_down() {
    let (h, keys, ixs) = transfer_parts();
    let m = message(h, &keys, &ixs);
    let fs = FeeStructure::default();
    assert_eq!(PgBank::calculate_fee(&m, 10_000, &fs, true, true), 2500);
    assert_eq!(PgBank::calculate_fee(&m, 15_000, &fs, true, true), 1667);
    assert_eq!(PgBank::calculate_fee(&m, 20_000, &fs, true, true), 1250);
    assert_eq!(PgBank::calculate_fee(&m, 1, &fs, true, true), 5000);
    assert_eq!(PgBank::calculate_fee(&m, 4999, &fs, true, true), 5000);
}

#[test]
fn scaling_rounds_to_the_nearest_and_a_half_up() {
    assert_eq!(scale_by_congestion(5, 10_000), 3);
    assert_eq!(scale_by_congestion(4, 10_000), 2);
    assert_eq!(scale_by_congestion(1, 10_000), 1);
    assert_eq!(scale_by_congestion(1, 10_001), 0);
    assert_eq!(scale_by_congestion(1, 15_000), 0);
    assert_eq!(scale_by_congestion(2, 15_000), 1);
    assert_eq!(scale_by_congestion(0, 15_000), 0);
    assert_eq!(scale_by_congestion(123, 0), 0);
    assert_eq!(scale_by_congestion(123, 5000), 123);
    assert_eq!(scale_by_congestion(u64::MAX, 1), u64::MAX);
    assert_eq!(scale_by_congestion(u64::MAX, 10_000), 1 << 63);
    assert_eq!(scale_by_congestion(u64::MAX, u64::MAX), 5000);
}

#[test]
fn write_locks_are_the_keys_that_are_not_readonly() {
    let (h, keys, ixs) = transfer_parts();
    let m = message(h, &keys, &ixs);
    assert_eq!(get_num_write_locks_in_message(&m), 2);
    let fs = structure(0, 7, &[]);
    assert_eq!(PgBank::calculate_fee(&m, 5000, &fs, true, true), 14);
    let all_writable = message(header(2, 0, 0), &keys, &[]);
    assert_eq!(get_num_write_locks_in_message(&all_writable), 3);
    let mostly_readonly = message(header(2, 1, 1), &keys, &[]);
    assert_eq!(get_num_write_locks_in_message(&mostly_readonly), 1);
}

#[test]
fn precompile_verifications_count_as_signatures() {
    let keys = vec![
        [1u8; 32],
        [2u8; 32],
        SECP256K1_PROGRAM_ID,
        ED25519_PROGRAM_ID,
    ];
    let ixs = vec![
        instruction(2, vec![], vec![3, 9, 9]),
        instruction(3, vec![], vec![2]),
        instruction(2, vec![], vec![]),
        instruction(1, vec![0], vec![200]),
    ];
    let m = message(header(1, 0, 3), &keys, &ixs);
    assert_eq!(get_num_signatures_in_message(&m), 6);
    assert_eq!(
        PgBank::calculate_fee(&m, 5000, &FeeStructure::default(), true, true),
        30_000
    );
    let plain = message(header(2, 0, 0), &keys, &[]);
    assert_eq!(get_num_signatures_in_message(&plain), 2);
}

#[test]
fn compute_fee_is_that_of_the_first_bin_that_covers() {
    let list = bins(&[(100, 1), (300_000, 2), (1_000_000, 3)]);
    assert_eq!(compute_fee_for_limit(&list, 0), 1);
    assert_eq!(compute_fee_for_limit(&list, 100), 1);
    assert_eq!(compute_fee_for_limit(&list, 101), 2);
    assert_eq!(compute_fee_for_limit(&list, 300_000), 2);
    assert_eq!(compute_fee_for_limit(&list, 1_000_000), 3);
    assert_eq!(compute_fee_for_limit(&list, 1_000_001), 3);
    assert_eq!(compute_fee_for_limit(&list, u64::MAX), 3);
    assert_eq!(compute_fee_for_limit(&vec![], 5), 0);
    let unsorted = bins(&[(500, 9), (100, 1)]);
    assert_eq!(compute_fee_for_limit(&unsorted, 50), 9);
    assert_eq!(compute_fee_for_limit(&unsorted, 600), 1);
}

#[test]
fn compute_fee_follows_the_budget_of_the_message() {
    let (h, keys, ixs) = transfer_parts();
    let m = message(h, &keys, &ixs);
    let fs = structure(0, 0, &[(100, 1), (300_000, 2), (1_000_000, 3)]);
    assert_eq!(PgBank::calculate_fee(&m, 5000, &fs, true, true), 2);
    assert_eq!(PgBank::calculate_fee(&m, 5000, &fs, true, false), 3);
    let (h, keys, ixs) = budget_parts(50, 0);
    assert_eq!(
        PgBank::calculate_fee(&message(h, &keys, &ixs), 5000, &fs, true, true),
        1
    );
}

#[test]
fn prioritization_fee_is_price_times_units() {
    let (h, keys, ixs) = budget_parts(1000, 5_000_000);
    let m = message(h, &keys, &ixs);
    let fs = FeeStructure::default();
    assert_eq!(PgBank::calculate_fee(&m, 5000, &fs, true, true), 10_000);
    assert_eq!(PgBank::calculate_fee(&m, 10_000, &fs, true, true), 5000);
    let (h, keys, ixs) = budget_parts(1000, 1);
    assert_eq!(
        PgBank::calculate_fee(&message(h, &keys, &ixs), 5000, &fs, true, true),
        5001
    );
}

#[test]
fn refused_budget_instructions_give_no_prioritization_fee() {
    let keys = vec![
        [1u8; 32],
        [2u8; 32],
        solana_sdk::compute_budget::id().to_bytes(),
    ];
    let ixs = vec![
        instruction(
            2,
            vec![],
            ComputeBudgetInstruction::set_compute_unit_price(9_000_000).data,
        ),
        instruction(
            2,
            vec![],
            ComputeBudgetInstruction::set_compute_unit_price(9_000_000).data,
        ),
    ];
    let m = message(header(1, 0, 1), &keys, &ixs);
    let fs = structure(5000, 0, &[(1_400_000, 11), (2_000_000, 22)]);
    assert_eq!(PgBank::calculate_fee(&m, 5000, &fs, true, true), 5011);
}

#[test]
fn fee_for_budget_adds_the_four_parts() {
    let (h, keys, ixs) = transfer_parts();
    let m = message(h, &keys, &ixs);
    let fs = structure(10, 100, &[(50, 1000), (500, 2000)]);
    assert_eq!(fee_for_budget(&m, 5000, &fs, 7, 40), 7 + 10 + 200 + 1000);
    assert_eq!(fee_for_budget(&m, 5000, &fs, 0, 400), 10 + 200 + 2000);
    assert_eq!(fee_for_budget(&m, 10_000, &fs, 0, 400), 1105);
    assert_eq!(fee_for_budget(&m, 0, &fs, 7, 40), 0);
}

#[test]
fn fee_parts_saturate() {
    let (h, keys, ixs) = transfer_parts();
    let m = message(h, &keys, &ixs);
    let fs = structure(u64::MAX, u64::MAX, &[(u64::MAX, u64::MAX)]);
    assert_eq!(fee_for_budget(&m, 5000, &fs, u64::MAX, 0), u64::MAX);
    assert_eq!(saturating_product(u64::MAX, 2), u64::MAX);
    assert_eq!(saturating_product(1 << 32, 1 << 32), u64::MAX);
    assert_eq!(saturating_product(1 << 32, (1 << 32) - 1), ((1u64 << 32) - 1) << 32);
    assert_eq!(saturating_product(0, u64::MAX), 0);
    assert_eq!(saturating_product(6, 7), 42);
}

#[test]
fn fee_agrees_with_the_runtime() {
    let structures = vec![
        FeeStructure::default(),
        structure(5000, 3, &[(100, 1), (400_000, 20), (1_400_000, 300)]),
        structure(1, 1, &[]),
        structure(123_456, 789, &[(1_000, 5)]),
    ];
    let messages = vec![
        transfer_parts(),
        budget_parts(1000, 5_000_000),
        budget_parts(300_000, 1234),
        budget_parts(2_000_000, 1),
        (header(1, 0, 0), vec![[1u8; 32]], vec![]),
        (
            header(1, 0, 1),
            vec![[1u8; 32], SECP256K1_PROGRAM_ID],
            vec![instruction(1, vec![], vec![4])],
        ),
    ];
    let costs = vec![0u64, 1, 4999, 5000, 5001, 10_000, 15_000, 1_000_000];
    for (h, keys, ixs) in &messages {
        let ours = message(*h, keys, ixs);
        let theirs = sdk_message(*h, keys, ixs);
        for fs in &structures {
            for cost in &costs {
                for flags in [(true, true), (true, false), (false, true), (false, false)] {
                    assert_eq!(
                        PgBank::calculate_fee(&ours, *cost, fs, flags.0, flags.1),
                        solana_runtime::bank::Bank::calculate_fee(
                            &theirs,
                            *cost,
                            &sdk_structure(fs),
                            flags.0,
                            flags.1,
                            true,
                        )
                    );
                }
            }
        }
    }
}
