use frenscan::block::{BalanceChange, Block, BlockHeader, Call, TransactionTrace};
use frenscan::records::{
    ValueTransfer, REASON_GAS_BUY, REASON_GAS_REFUND, REASON_REWARD_MINE_BLOCK,
    REASON_REWARD_MINE_UNCLE, REASON_REWARD_TRANSACTION_FEE, REASON_TRANSFER, REASON_WITHDRAWAL,
};
use frenscan::registry::AddressRegistry;
use frenscan::value::{
    new_gas_transfer_from_call, new_value_transfer_block_rewards_from_block,
    new_value_transfer_from_call,
};

const TREASURY: [u8; 20] = [0xaa; 20];
const OTHER_TREASURY: [u8; 20] = [0xab; 20];
const STRANGER: [u8; 20] = [0x11; 20];

fn registry() -> AddressRegistry {
    AddressRegistry { treasury_addresses: vec![TREASURY, OTHER_TREASURY], tokens_issued: vec![] }
}

fn hex40(byte: &str) -> String {
    byte.repeat(20)
}

fn be(n: u64) -> Option<Vec<u8>> {
    Some(n.to_be_bytes().to_vec())
}

fn change(address: &[u8; 20], old: u64, new: u64, reason: i32, ordinal: u64) -> BalanceChange {
    BalanceChange { address: address.to_vec(), old_value: be(old), new_value: be(new), reason, ordinal }
}

fn call(caller: &[u8; 20], address: &[u8; 20], changes: Vec<BalanceChange>) -> Call {
    Call {
        index: 1,
        parent_index: 0,
        depth: 0,
        call_type: 1,
        caller: caller.to_vec(),
        address: address.to_vec(),
        value: None,
        gas_limit: 0,
        gas_consumed: 0,
        return_data: vec![],
        input: vec![],
        executed_code: false,
        suicide: false,
        status_failed: false,
        status_reverted: false,
        failure_reason: String::new(),
        state_reverted: false,
        balance_changes: changes,
        logs: vec![],
    }
}

fn trace(index: u32, calls: Vec<Call>) -> TransactionTrace {
    TransactionTrace { hash: vec![0x77, index as u8], index, end_ordinal: 900, calls }
}

fn block(changes: Vec<BalanceChange>, traces: Vec<TransactionTrace>) -> Block {
    Block {
        hash: vec![0xb1, 0x0c],
        number: 12,
        header: Some(BlockHeader { timestamp: Some(1_700_000_000) }),
        balance_changes: changes,
        transaction_traces: traces,
    }
}

fn block_level(to: &str, value: &str, reason: i32) -> ValueTransfer {
    ValueTransfer {
        hash: "b10c".to_string(),
        tx_index: 0,
        call_index: 0,
        from: String::new(),
        to: to.to_string(),
        value: value.to_string(),
        input: String::new(),
        reason,
    }
}

#[test]
fn withdrawal_gives_a_record_to_the_changed_address() {
    let blk = block(vec![change(&TREASURY, 1000, 1500, REASON_WITHDRAWAL, 1)], vec![]);
    assert_eq!(
        new_value_transfer_block_rewards_from_block(&registry(), &blk),
        Some(vec![block_level(&hex40("aa"), "01f4", REASON_WITHDRAWAL)])
    );
}

#[test]
fn withdrawal_value_is_the_magnitude_of_old_less_new() {
    let blk = block(vec![change(&TREASURY, 1500, 1000, REASON_WITHDRAWAL, 1)], vec![]);
    assert_eq!(
        new_value_transfer_block_rewards_from_block(&registry(), &blk),
        Some(vec![block_level(&hex40("aa"), "01f4", REASON_WITHDRAWAL)])
    );
}

#[test]
fn withdrawal_without_movement_has_the_value_zero() {
    let blk = block(vec![change(&TREASURY, 7, 7, REASON_WITHDRAWAL, 1)], vec![]);
    assert_eq!(
        new_value_transfer_block_rewards_from_block(&registry(), &blk),
        Some(vec![block_level(&hex40("aa"), "00", REASON_WITHDRAWAL)])
    );
}

#[test]
fn withdrawal_of_a_stranger_gives_nothing() {
    let blk = block(vec![change(&STRANGER, 1000, 1500, REASON_WITHDRAWAL, 1)], vec![]);
    assert_eq!(new_value_transfer_block_rewards_from_block(&registry(), &blk), None);
}

#[test]
fn absent_balances_count_as_zero() {
    let mut c = change(&TREASURY, 0, 0, REASON_WITHDRAWAL, 1);
    c.old_value = None;
    c.new_value = be(258);
    let blk = block(vec![c], vec![]);
    assert_eq!(
        new_value_transfer_block_rewards_from_block(&registry(), &blk),
        Some(vec![block_level(&hex40("aa"), "0102", REASON_WITHDRAWAL)])
    );
}

#[test]
fn block_rewards_are_netted_into_one_fee_reward_record() {
    let blk = block(
        vec![
            change(&OTHER_TREASURY, 100, 400, REASON_REWARD_MINE_BLOCK, 1),
            change(&STRANGER, 0, 900, REASON_REWARD_MINE_BLOCK, 2),
            change(&TREASURY, 50, 60, REASON_REWARD_MINE_UNCLE, 3),
            change(&TREASURY, 60, 40, REASON_REWARD_TRANSACTION_FEE, 4),
            change(&TREASURY, 0, 5000, REASON_TRANSFER, 5),
        ],
        vec![],
    );
    assert_eq!(
        new_value_transfer_block_rewards_from_block(&registry(), &blk),
        Some(vec![block_level(&hex40("ab"), "0122", REASON_REWARD_TRANSACTION_FEE)])
    );
}

#[test]
fn block_rewards_that_do_not_rise_give_nothing() {
    let blk = block(
        vec![
            change(&TREASURY, 100, 40, REASON_REWARD_MINE_BLOCK, 1),
            change(&TREASURY, 40, 100, REASON_REWARD_TRANSACTION_FEE, 2),
        ],
        vec![],
    );
    assert_eq!(new_value_transfer_block_rewards_from_block(&registry(), &blk), None);
    let falling = block(vec![change(&TREASURY, 100, 40, REASON_REWARD_MINE_BLOCK, 1)], vec![]);
    assert_eq!(new_value_transfer_block_rewards_from_block(&registry(), &falling), None);
}

#[test]
fn fee_rewards_of_root_calls_are_netted_over_the_block() {
    let first = trace(
        0,
        vec![
            call(
                &STRANGER,
                &STRANGER,
                vec![
                    change(&TREASURY, 10, 30, REASON_REWARD_TRANSACTION_FEE, 1),
                    change(&TREASURY, 30, 90, REASON_GAS_REFUND, 2),
                    change(&STRANGER, 0, 1000, REASON_REWARD_TRANSACTION_FEE, 3),
                ],
            ),
            call(&STRANGER, &STRANGER, vec![change(&TREASURY, 0, 7000, REASON_REWARD_TRANSACTION_FEE, 4)]),
        ],
    );
    let second = trace(
        1,
        vec![call(&STRANGER, &STRANGER, vec![change(&OTHER_TREASURY, 5, 15, REASON_REWARD_TRANSACTION_FEE, 5)])],
    );
    let blk = block(vec![], vec![first, second]);
    assert_eq!(
        new_value_transfer_block_rewards_from_block(&registry(), &blk),
        Some(vec![block_level(&hex40("aa"), "1e", REASON_REWARD_TRANSACTION_FEE)])
    );
}

#[test]
fn withdrawals_come_before_the_two_netted_rewards() {
    let tx = trace(
        0,
        vec![call(&STRANGER, &STRANGER, vec![change(&TREASURY, 0, 2, REASON_REWARD_TRANSACTION_FEE, 1)])],
    );
    let blk = block(
        vec![
            change(&TREASURY, 0, 1, REASON_REWARD_MINE_BLOCK, 1),
            change(&TREASURY, 0, 16, REASON_WITHDRAWAL, 2),
            change(&OTHER_TREASURY, 0, 32, REASON_WITHDRAWAL, 3),
        ],
        vec![tx],
    );
    assert_eq!(
        new_value_transfer_block_rewards_from_block(&registry(), &blk),
        Some(vec![
            block_level(&hex40("aa"), "10", REASON_WITHDRAWAL),
            block_level(&hex40("ab"), "20", REASON_WITHDRAWAL),
            block_level(&hex40("aa"), "01", REASON_REWARD_TRANSACTION_FEE),
            block_level(&hex40("aa"), "02", REASON_REWARD_TRANSACTION_FEE),
        ])
    );
}

#[test]
fn every_block_level_record_has_no_sender() {
    let blk = block(
        vec![
            change(&TREASURY, 0, 1, REASON_REWARD_MINE_BLOCK, 1),
            change(&TREASURY, 0, 16, REASON_WITHDRAWAL, 2),
        ],
        vec![],
    );
    let records = new_value_transfer_block_rewards_from_block(&registry(), &blk).unwrap();
    assert_eq!(records.len(), 2);
    for record in records {
        assert_eq!(record.from, "");
        assert_eq!(record.to, hex40("aa"));
    }
}

#[test]
fn an_empty_block_gives_no_block_level_record() {
    assert_eq!(new_value_transfer_block_rewards_from_block(&registry(), &block(vec![], vec![])), None);
}

#[test]
fn two_gas_purchases_give_one_netted_purchase() {
    let root = call(
        &TREASURY,
        &STRANGER,
        vec![
            change(&TREASURY, 100_000, 90_000, REASON_GAS_BUY, 3),
            change(&TREASURY, 90_000, 79_000, REASON_GAS_BUY, 4),
        ],
    );
    let tx = trace(5, vec![root.clone()]);
    assert_eq!(
        new_gas_transfer_from_call(&registry(), &tx, &root),
        Some(vec![ValueTransfer {
            hash: "7705".to_string(),
            tx_index: 5,
            call_index: 900,
            from: hex40("aa"),
            to: String::new(),
            value: "5208".to_string(),
            input: String::new(),
            reason: REASON_GAS_BUY,
        }])
    );
}

#[test]
fn a_refund_above_the_purchase_gives_a_netted_refund() {
    let root = call(
        &TREASURY,
        &STRANGER,
        vec![
            change(&OTHER_TREASURY, 500, 400, REASON_GAS_BUY, 3),
            change(&TREASURY, 400, 700, REASON_GAS_REFUND, 4),
        ],
    );
    let tx = trace(5, vec![root.clone()]);
    assert_eq!(
        new_gas_transfer_from_call(&registry(), &tx, &root),
        Some(vec![ValueTransfer {
            hash: "7705".to_string(),
            tx_index: 5,
            call_index: 900,
            from: String::new(),
            to: hex40("ab"),
            value: "c8".to_string(),
            input: String::new(),
            reason: REASON_GAS_REFUND,
        }])
    );
}

#[test]
fn gas_that_nets_to_zero_gives_nothing() {
    let root = call(
        &TREASURY,
        &STRANGER,
        vec![
            change(&TREASURY, 500, 400, REASON_GAS_BUY, 3),
            change(&TREASURY, 400, 500, REASON_GAS_REFUND, 4),
        ],
    );
    let tx = trace(5, vec![root.clone()]);
    assert_eq!(new_gas_transfer_from_call(&registry(), &tx, &root), Some(vec![]));
}

#[test]
fn other_reasons_are_reported_alone_before_the_gas() {
    let suicide_refund = 11;
    let burn = 15;
    let root = call(
        &TREASURY,
        &STRANGER,
        vec![
            change(&TREASURY, 500, 400, REASON_GAS_BUY, 3),
            change(&TREASURY, 10, 300, suicide_refund, (1u64 << 32) + 6),
            change(&TREASURY, 0, 99, REASON_TRANSFER, 7),
            change(&TREASURY, 0, 99, REASON_REWARD_TRANSACTION_FEE, 8),
            change(&STRANGER, 0, 99, burn, 9),
            change(&OTHER_TREASURY, 300, 44, burn, 10),
            change(&OTHER_TREASURY, 5, 5, burn, 11),
            change(&TREASURY, 0, 99, 19, 12),
            change(&TREASURY, 0, 99, -1, 13),
        ],
    );
    let tx = trace(5, vec![root.clone()]);
    let record = |call_index: u32, from: &str, to: &str, value: &str, reason: i32| ValueTransfer {
        hash: "7705".to_string(),
        tx_index: 5,
        call_index,
        from: from.to_string(),
        to: to.to_string(),
        value: value.to_string(),
        input: String::new(),
        reason,
    };
    assert_eq!(
        new_gas_transfer_from_call(&registry(), &tx, &root),
        Some(vec![
            record(6, "", &hex40("aa"), "0122", suicide_refund),
            record(10, &hex40("ab"), "", "0100", burn),
            record(11, &hex40("ab"), "", "00", burn),
            record(900, &hex40("aa"), "", "64", REASON_GAS_BUY),
        ])
    );
}

#[test]
fn the_last_defined_reason_is_reported_and_the_next_code_is_not() {
    let root = call(&TREASURY, &STRANGER, vec![change(&TREASURY, 0, 1, 18, 1), change(&TREASURY, 0, 1, 19, 2)]);
    let tx = trace(5, vec![root.clone()]);
    let records = new_gas_transfer_from_call(&registry(), &tx, &root).unwrap();
    assert_eq!(records.len(), 1);
    assert_eq!(records[0].reason, 18);
    let zero = call(&TREASURY, &STRANGER, vec![change(&TREASURY, 0, 1, 0, 1)]);
    assert_eq!(new_gas_transfer_from_call(&registry(), &tx, &zero).unwrap().len(), 1);
}

#[test]
fn the_gas_record_stands_at_the_low_bits_of_the_end_ordinal() {
    let root = call(&TREASURY, &STRANGER, vec![change(&TREASURY, 2, 1, REASON_GAS_BUY, 1)]);
    let mut tx = trace(5, vec![root.clone()]);
    tx.end_ordinal = (7u64 << 32) + 3;
    let records = new_gas_transfer_from_call(&registry(), &tx, &root).unwrap();
    assert_eq!(records[0].call_index, 3);
}

#[test]
fn balances_beyond_sixty_four_bits_are_netted_exactly() {
    let old = vec![1, 0, 0, 0, 0, 0, 0, 0, 0, 0];
    let new = vec![1, 0, 0, 0, 0, 0, 0, 0, 0, 1];
    let c = BalanceChange {
        address: TREASURY.to_vec(),
        old_value: Some(new),
        new_value: Some(old),
        reason: REASON_GAS_BUY,
        ordinal: 1,
    };
    let big = BalanceChange {
        address: TREASURY.to_vec(),
        old_value: Some(vec![0xff; 33]),
        new_value: Some(vec![0]),
        reason: REASON_GAS_BUY,
        ordinal: 2,
    };
    let root = call(&TREASURY, &STRANGER, vec![c, big]);
    let tx = trace(5, vec![root.clone()]);
    let records = new_gas_transfer_from_call(&registry(), &tx, &root).unwrap();
    assert_eq!(records.len(), 1);
    assert_eq!(records[0].value, format!("01{}", "00".repeat(33)));
    assert_eq!(records[0].reason, REASON_GAS_BUY);
}

#[test]
fn a_call_with_value_gives_a_transfer_from_caller_to_address() {
    let mut c = call(&TREASURY, &STRANGER, vec![]);
    c.index = 4;
    c.value = Some(vec![0x00, 0x03, 0xe8]);
    c.input = vec![0xde, 0xad];
    let tx = trace(2, vec![c.clone()]);
    assert_eq!(
        new_value_transfer_from_call(&tx, &c),
        Some(ValueTransfer {
            hash: "7702".to_string(),
            tx_index: 2,
            call_index: 4,
            from: hex40("aa"),
            to: hex40("11"),
            value: "0003e8".to_string(),
            input: "dead".to_string(),
            reason: REASON_TRANSFER,
        })
    );
}

#[test]
fn a_call_without_value_or_with_an_empty_one_gives_nothing() {
    let mut c = call(&TREASURY, &STRANGER, vec![]);
    let tx = trace(2, vec![c.clone()]);
    assert_eq!(new_value_transfer_from_call(&tx, &c), None);
    c.value = Some(vec![]);
    assert_eq!(new_value_transfer_from_call(&tx, &c), None);
}

#[test]
fn calls_are_eligible_unless_delegate_or_reverted() {
    let mut c = call(&TREASURY, &STRANGER, vec![]);
    assert!(c.eligible());
    c.call_type = 3;
    assert!(!c.eligible());
    c.call_type = 4;
    c.state_reverted = true;
    assert!(!c.eligible());
    c.state_reverted = false;
    c.status_reverted = true;
    c.status_failed = true;
    assert!(c.eligible());
}

#[test]
fn tallies_net_their_own_reasons_and_keep_the_first_address() {
    let changes = vec![
        change(&STRANGER, 0, 9, REASON_GAS_BUY, 1),
        change(&OTHER_TREASURY, 9, 4, REASON_GAS_BUY, 2),
        change(&TREASURY, 4, 5, REASON_GAS_REFUND, 3),
        change(&TREASURY, 0, 100, REASON_REWARD_TRANSACTION_FEE, 4),
        change(&TREASURY, 0, 1000, REASON_REWARD_MINE_BLOCK, 5),
    ];
    let mut total = frenscan::amount::SignedTotal::zero();
    let mut address = Vec::new();
    frenscan::value::tally_changes(&registry(), &frenscan::value::Tally::Gas, &changes, &mut total, &mut address);
    assert!(total.is_negative());
    assert_eq!(total.magnitude_bytes(), vec![4]);
    assert_eq!(address, OTHER_TREASURY.to_vec());

    let mut fees = frenscan::amount::SignedTotal::zero();
    frenscan::value::tally_changes(
        &registry(),
        &frenscan::value::Tally::TransactionFee,
        &changes,
        &mut fees,
        &mut address,
    );
    assert_eq!(fees.magnitude_bytes(), vec![100]);
    assert_eq!(address, OTHER_TREASURY.to_vec());

    let mut rewards = frenscan::amount::SignedTotal::zero();
    let mut first = Vec::new();
    frenscan::value::tally_changes(
        &registry(),
        &frenscan::value::Tally::BlockReward,
        &changes,
        &mut rewards,
        &mut first,
    );
    assert_eq!(rewards.magnitude_bytes(), vec![0x04, 0x4c]);
    assert_eq!(first, TREASURY.to_vec());
}
