use frenscan::block::Log;
use frenscan::events::{
    TokenEvent, DEPOSIT_TOPIC, TRANSFER_BATCH_TOPIC, TRANSFER_SINGLE_TOPIC, TRANSFER_TOPIC,
    WITHDRAWAL_TOPIC,
};
use frenscan::frensfile::TokenIssued;
use frenscan::records::TokenTransfer;
use frenscan::registry::AddressRegistry;
use frenscan::tokens::{
    event_transfers, get_erc_issued_transfers_from_logs, get_erc_transfers_from_logs,
    is_treasury_relevant, new_erc1155_batch_transfer, new_erc20_transfer, new_erc721_transfer,
    new_weth_deposit, new_weth_withdrawal,
};

const TREASURY: [u8; 20] = [0xaa; 20];
const OTHER_TREASURY: [u8; 20] = [0xab; 20];
const STRANGER: [u8; 20] = [0x11; 20];
const OTHER_STRANGER: [u8; 20] = [0x12; 20];
const ISSUED: [u8; 20] = [0xc1; 20];
const CONTRACT: [u8; 20] = [0xc0; 20];

fn issued_token() -> TokenIssued {
    TokenIssued {
        name: "issued".to_string(),
        address: "0xc1".to_string(),
        token_address: ISSUED,
        token_id: None,
        network: None,
        schema: None,
        initial_block: 0,
    }
}

fn registry() -> AddressRegistry {
    AddressRegistry {
        treasury_addresses: vec![TREASURY, OTHER_TREASURY],
        tokens_issued: vec![issued_token()],
    }
}

fn hex40(byte: &str) -> String {
    byte.repeat(20)
}

fn word(n: u64) -> Vec<u8> {
    let mut out = vec![0u8; 24];
    out.extend_from_slice(&n.to_be_bytes());
    out
}

fn address_topic(address: &[u8; 20]) -> Vec<u8> {
    let mut topic = vec![0u8; 12];
    topic.extend_from_slice(address);
    topic
}

fn log(emitter: &[u8; 20], block_index: u32, topics: Vec<Vec<u8>>, data: Vec<u8>) -> Log {
    Log { address: emitter.to_vec(), topics, data, index: 1, block_index }
}

fn erc20_log(emitter: &[u8; 20], block_index: u32, from: &[u8; 20], to: &[u8; 20], value: u64) -> Log {
    log(
        emitter,
        block_index,
        vec![TRANSFER_TOPIC.to_vec(), address_topic(from), address_topic(to)],
        word(value),
    )
}

fn erc721_log(emitter: &[u8; 20], block_index: u32, from: &[u8; 20], to: &[u8; 20], id: u64) -> Log {
    log(
        emitter,
        block_index,
        vec![TRANSFER_TOPIC.to_vec(), address_topic(from), address_topic(to), word(id)],
        vec![],
    )
}

fn single_log(emitter: &[u8; 20], block_index: u32, from: &[u8; 20], to: &[u8; 20], id: u64, value: u64) -> Log {
    let mut data = word(id);
    data.extend(word(value));
    log(
        emitter,
        block_index,
        vec![
            TRANSFER_SINGLE_TOPIC.to_vec(),
            address_topic(&STRANGER),
            address_topic(from),
            address_topic(to),
        ],
        data,
    )
}

fn batch_data(ids: &[u64], values: &[u64]) -> Vec<u8> {
    let mut data = word(64);
    data.extend(word(64 + 32 + 32 * ids.len() as u64));
    data.extend(word(ids.len() as u64));
    for id in ids {
        data.extend(word(*id));
    }
    data.extend(word(values.len() as u64));
    for value in values {
        data.extend(word(*value));
    }
    data
}

fn batch_log(emitter: &[u8; 20], block_index: u32, from: &[u8; 20], to: &[u8; 20], ids: &[u64], values: &[u64]) -> Log {
    log(
        emitter,
        block_index,
        vec![
            TRANSFER_BATCH_TOPIC.to_vec(),
            address_topic(&STRANGER),
            address_topic(from),
            address_topic(to),
        ],
        batch_data(ids, values),
    )
}

fn deposit_log(block_index: u32, dst: &[u8; 20], wad: u64) -> Log {
    log(&CONTRACT, block_index, vec![DEPOSIT_TOPIC.to_vec(), address_topic(dst)], word(wad))
}

fn withdrawal_log(block_index: u32, src: &[u8; 20], wad: u64) -> Log {
    log(&CONTRACT, block_index, vec![WITHDRAWAL_TOPIC.to_vec(), address_topic(src)], word(wad))
}

fn record(log_index: u64, from: &str, to: &str, value: &str, token: &str, token_id: &str) -> TokenTransfer {
    TokenTransfer {
        tx_hash: "beef".to_string(),
        call_index: 3,
        log_index,
        from: from.to_string(),
        to: to.to_string(),
        value: value.to_string(),
        token_address: token.to_string(),
        token_id: token_id.to_string(),
    }
}

fn treasury_transfers(logs: Vec<Log>) -> Vec<TokenTransfer> {
    get_erc_transfers_from_logs(&registry(), &logs, &vec![0xbe, 0xef], 3)
}

fn issued_transfers(logs: Vec<Log>) -> Vec<TokenTransfer> {
    get_erc_issued_transfers_from_logs(&registry(), &logs, &vec![0xbe, 0xef], 3)
}

#[test]
fn erc20_transfer_to_the_treasury_gives_one_record() {
    let logs = vec![erc20_log(&CONTRACT, 42, &STRANGER, &TREASURY, 1000)];
    assert_eq!(
        treasury_transfers(logs),
        vec![record(42, &hex40("11"), &hex40("aa"), "03e8", &hex40("c0"), "")]
    );
}

#[test]
fn erc20_transfer_from_the_treasury_gives_one_record() {
    let logs = vec![erc20_log(&CONTRACT, 42, &OTHER_TREASURY, &STRANGER, 255)];
    assert_eq!(
        treasury_transfers(logs),
        vec![record(42, &hex40("ab"), &hex40("11"), "ff", &hex40("c0"), "")]
    );
}

#[test]
fn erc20_transfer_of_nothing_has_the_value_zero() {
    let logs = vec![erc20_log(&CONTRACT, 42, &STRANGER, &TREASURY, 0)];
    assert_eq!(treasury_transfers(logs)[0].value, "00");
}

#[test]
fn erc20_transfer_of_the_largest_quantity() {
    let l = log(
        &CONTRACT,
        1,
        vec![TRANSFER_TOPIC.to_vec(), address_topic(&STRANGER), address_topic(&TREASURY)],
        vec![0xff; 32],
    );
    assert_eq!(treasury_transfers(vec![l])[0].value, "ff".repeat(32));
}

#[test]
fn transfer_between_strangers_gives_nothing() {
    let logs = vec![
        erc20_log(&CONTRACT, 1, &STRANGER, &OTHER_STRANGER, 5),
        erc721_log(&CONTRACT, 2, &STRANGER, &OTHER_STRANGER, 5),
        single_log(&CONTRACT, 3, &STRANGER, &OTHER_STRANGER, 5, 6),
        batch_log(&CONTRACT, 4, &STRANGER, &OTHER_STRANGER, &[1], &[2]),
        deposit_log(5, &STRANGER, 5),
        withdrawal_log(6, &STRANGER, 5),
    ];
    assert_eq!(treasury_transfers(logs), vec![]);
}

#[test]
fn transfer_of_the_treasury_to_itself_gives_nothing() {
    let logs = vec![
        erc20_log(&CONTRACT, 1, &TREASURY, &TREASURY, 5),
        erc721_log(&CONTRACT, 2, &TREASURY, &TREASURY, 5),
        single_log(&CONTRACT, 3, &TREASURY, &TREASURY, 5, 6),
        batch_log(&CONTRACT, 4, &TREASURY, &TREASURY, &[1], &[2]),
    ];
    assert_eq!(treasury_transfers(logs), vec![]);
}

#[test]
fn transfer_between_two_treasury_addresses_gives_a_record() {
    let logs = vec![erc20_log(&CONTRACT, 1, &TREASURY, &OTHER_TREASURY, 5)];
    assert_eq!(treasury_transfers(logs).len(), 1);
}

#[test]
fn erc721_transfer_has_the_value_one_and_the_token_id_in_decimal() {
    let logs = vec![erc721_log(&CONTRACT, 9, &TREASURY, &STRANGER, 123_456_789)];
    assert_eq!(
        treasury_transfers(logs),
        vec![record(9, &hex40("aa"), &hex40("11"), "01", &hex40("c0"), "123456789")]
    );
}

#[test]
fn erc721_token_id_beyond_sixty_four_bits() {
    let mut id = vec![0u8; 32];
    id[23] = 1;
    let l = log(
        &CONTRACT,
        9,
        vec![TRANSFER_TOPIC.to_vec(), address_topic(&TREASURY), address_topic(&STRANGER), id],
        vec![],
    );
    assert_eq!(treasury_transfers(vec![l])[0].token_id, "18446744073709551616");
}

#[test]
fn erc1155_single_transfer_has_quantity_and_token_id() {
    let logs = vec![single_log(&CONTRACT, 9, &TREASURY, &STRANGER, 0, 4096)];
    assert_eq!(
        treasury_transfers(logs),
        vec![record(9, &hex40("aa"), &hex40("11"), "1000", &hex40("c0"), "0")]
    );
}

#[test]
fn erc1155_batch_transfer_gives_a_record_for_every_pair() {
    let logs = vec![batch_log(&CONTRACT, 9, &TREASURY, &OTHER_TREASURY, &[1, 2], &[10, 20])];
    assert_eq!(
        treasury_transfers(logs),
        vec![
            record(9, &hex40("aa"), &hex40("ab"), "0a", &hex40("c0"), "1"),
            record(9, &hex40("aa"), &hex40("ab"), "14", &hex40("c0"), "2"),
        ]
    );
}

#[test]
fn erc1155_batch_transfer_of_lists_that_differ_in_length_gives_nothing() {
    let malformed = batch_log(&CONTRACT, 9, &TREASURY, &STRANGER, &[1, 2], &[10]);
    assert_eq!(treasury_transfers(vec![malformed.clone()]), vec![]);
    let before = erc20_log(&CONTRACT, 8, &STRANGER, &TREASURY, 1);
    let after = erc20_log(&CONTRACT, 10, &STRANGER, &TREASURY, 2);
    let with = treasury_transfers(vec![before.clone(), malformed, after.clone()]);
    let without = treasury_transfers(vec![before, after]);
    assert_eq!(with.len(), 2);
    assert_eq!(with, without);
}

#[test]
fn erc1155_batch_records_are_empty_for_lists_that_differ_in_length() {
    let l = batch_log(&CONTRACT, 9, &TREASURY, &STRANGER, &[1, 2], &[10]);
    let records = new_erc1155_batch_transfer(
        &vec![0xbe, 0xef],
        3,
        &l,
        &TREASURY.to_vec(),
        &STRANGER.to_vec(),
        &vec![word(1), word(2)],
        &vec![word(10)],
    );
    assert_eq!(records, vec![]);
    let none = new_erc1155_batch_transfer(
        &vec![0xbe, 0xef],
        3,
        &l,
        &TREASURY.to_vec(),
        &STRANGER.to_vec(),
        &vec![],
        &vec![],
    );
    assert_eq!(none, vec![]);
}

#[test]
fn deposit_to_the_treasury_comes_from_the_null_address() {
    let logs = vec![deposit_log(4, &TREASURY, 500)];
    assert_eq!(
        treasury_transfers(logs),
        vec![record(4, &hex40("00"), &hex40("aa"), "01f4", &hex40("c0"), "")]
    );
}

#[test]
fn withdrawal_by_the_treasury_goes_to_the_null_address() {
    let logs = vec![withdrawal_log(4, &TREASURY, 500)];
    assert_eq!(
        treasury_transfers(logs),
        vec![record(4, &hex40("aa"), &hex40("00"), "01f4", &hex40("c0"), "")]
    );
}

#[test]
fn records_stand_in_the_order_of_the_logs() {
    let logs = vec![
        erc20_log(&CONTRACT, 30, &STRANGER, &TREASURY, 1),
        log(&CONTRACT, 31, vec![vec![1; 32]], vec![]),
        deposit_log(10, &TREASURY, 2),
        erc721_log(&CONTRACT, 20, &TREASURY, &STRANGER, 3),
    ];
    let indexes: Vec<u64> = treasury_transfers(logs).iter().map(|t| t.log_index).collect();
    assert_eq!(indexes, vec![30, 10, 20]);
}

#[test]
fn issued_token_transfers_do_not_ask_for_the_treasury() {
    let logs = vec![
        erc20_log(&ISSUED, 1, &STRANGER, &OTHER_STRANGER, 1000),
        erc20_log(&CONTRACT, 2, &STRANGER, &OTHER_STRANGER, 1000),
        erc721_log(&ISSUED, 3, &STRANGER, &STRANGER, 7),
        single_log(&ISSUED, 4, &STRANGER, &OTHER_STRANGER, 8, 9),
        batch_log(&ISSUED, 5, &STRANGER, &OTHER_STRANGER, &[1, 2], &[3, 4]),
    ];
    assert_eq!(
        issued_transfers(logs),
        vec![
            record(1, &hex40("11"), &hex40("12"), "03e8", &hex40("c1"), ""),
            record(3, &hex40("11"), &hex40("11"), "01", &hex40("c1"), "7"),
            record(4, &hex40("11"), &hex40("12"), "09", &hex40("c1"), "8"),
            record(5, &hex40("11"), &hex40("12"), "03", &hex40("c1"), "1"),
            record(5, &hex40("11"), &hex40("12"), "04", &hex40("c1"), "2"),
        ]
    );
}

#[test]
fn issued_tokens_give_nothing_for_deposits_and_withdrawals() {
    let deposit = log(&ISSUED, 1, vec![DEPOSIT_TOPIC.to_vec(), address_topic(&TREASURY)], word(5));
    let withdrawal = log(&ISSUED, 2, vec![WITHDRAWAL_TOPIC.to_vec(), address_topic(&TREASURY)], word(5));
    assert_eq!(issued_transfers(vec![deposit.clone(), withdrawal.clone()]), vec![]);
    assert_eq!(treasury_transfers(vec![deposit, withdrawal]).len(), 2);
}

#[test]
fn issued_token_is_known_by_the_first_twenty_bytes_of_the_emitter() {
    let mut long = erc20_log(&ISSUED, 1, &STRANGER, &OTHER_STRANGER, 1);
    long.address.push(0x99);
    assert_eq!(issued_transfers(vec![long]).len(), 1);
    let mut short = erc20_log(&ISSUED, 1, &STRANGER, &OTHER_STRANGER, 1);
    short.address.truncate(19);
    assert_eq!(issued_transfers(vec![short]), vec![]);
}

#[test]
fn issued_batch_of_lists_that_differ_in_length_gives_nothing() {
    let logs = vec![batch_log(&ISSUED, 5, &STRANGER, &OTHER_STRANGER, &[1, 2, 3], &[3, 4])];
    assert_eq!(issued_transfers(logs), vec![]);
}

#[test]
fn single_record_builders_fill_the_common_schema() {
    let l = erc20_log(&CONTRACT, 6, &STRANGER, &TREASURY, 1);
    let hash = vec![0xbe, 0xef];
    let from = STRANGER.to_vec();
    let to = TREASURY.to_vec();
    assert_eq!(
        new_erc20_transfer(&hash, 3, &l, &from, &to, &word(257)),
        record(6, &hex40("11"), &hex40("aa"), "0101", &hex40("c0"), "")
    );
    assert_eq!(
        new_erc721_transfer(&hash, 3, &l, &from, &to, &word(257)),
        record(6, &hex40("11"), &hex40("aa"), "01", &hex40("c0"), "257")
    );
    assert_eq!(
        new_weth_deposit(&hash, 3, &l, &to, &word(257)),
        record(6, &hex40("00"), &hex40("aa"), "0101", &hex40("c0"), "")
    );
    assert_eq!(
        new_weth_withdrawal(&hash, 3, &l, &from, &word(257)),
        record(6, &hex40("11"), &hex40("00"), "0101", &hex40("c0"), "")
    );
}

#[test]
fn event_records_and_relevance_follow_the_event() {
    let l = erc20_log(&CONTRACT, 6, &STRANGER, &TREASURY, 1);
    let event = TokenEvent::WethDeposit { dst: STRANGER.to_vec(), wad: word(1) };
    assert!(!is_treasury_relevant(&registry(), &event));
    assert_eq!(
        event_transfers(&vec![0xbe, 0xef], 3, &l, &event),
        vec![record(6, &hex40("00"), &hex40("11"), "01", &hex40("c0"), "")]
    );
    let own = TokenEvent::Erc20Transfer { from: TREASURY.to_vec(), to: TREASURY.to_vec(), value: word(1) };
    assert!(!is_treasury_relevant(&registry(), &own));
    let out = TokenEvent::Erc20Transfer { from: TREASURY.to_vec(), to: STRANGER.to_vec(), value: word(1) };
    assert!(is_treasury_relevant(&registry(), &out));
}
