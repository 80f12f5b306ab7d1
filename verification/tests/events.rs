use ethabi::{Event, EventParam, ParamType, Token, Uint};
use frenscan::block::Log;
use frenscan::events::{
    decode_event, TokenEvent, DEPOSIT_TOPIC, TRANSFER_BATCH_TOPIC, TRANSFER_SINGLE_TOPIC,
    TRANSFER_TOPIC, WITHDRAWAL_TOPIC,
};

fn param(name: &str, kind: ParamType, indexed: bool) -> EventParam {
    EventParam { name: name.to_string(), kind, indexed }
}

fn signature(name: &str, inputs: Vec<EventParam>) -> Vec<u8> {
    Event { name: name.to_string(), inputs, anonymous: false }.signature().as_bytes().to_vec()
}

fn address_topic(address: &[u8; 20]) -> Vec<u8> {
    let mut topic = vec![0u8; 12];
    topic.extend_from_slice(address);
    topic
}

fn word(n: u64) -> Vec<u8> {
    let mut out = [0u8; 32];
    Uint::from(n).to_big_endian(&mut out);
    out.to_vec()
}

fn log(topics: Vec<Vec<u8>>, data: Vec<u8>) -> Log {
    Log { address: vec![0xc0; 20], topics, data, index: 0, block_index: 7 }
}

fn uints(values: &[u64]) -> Token {
    Token::Array(values.iter().map(|v| Token::Uint(Uint::from(*v))).collect())
}

/// What the two arrays of a batch decode to with ethabi.
fn ethabi_batch(data: &[u8]) -> Option<(Vec<Vec<u8>>, Vec<Vec<u8>>)> {
    let kinds = [
        ParamType::Array(Box::new(ParamType::Uint(256))),
        ParamType::Array(Box::new(ParamType::Uint(256))),
    ];
    let mut tokens = ethabi::decode(&kinds, data).ok()?;
    let values = tokens.pop()?.into_array()?;
    let ids = tokens.pop()?.into_array()?;
    let words = |list: Vec<Token>| -> Vec<Vec<u8>> {
        list.into_iter()
            .map(|t| {
                let mut out = [0u8; 32];
                t.into_uint().unwrap().to_big_endian(&mut out);
                out.to_vec()
            })
            .collect()
    };
    Some((words(ids), words(values)))
}

fn batch_log(data: Vec<u8>) -> Log {
    log(
        vec![
            TRANSFER_BATCH_TOPIC.to_vec(),
            address_topic(&[1; 20]),
            address_topic(&[2; 20]),
            address_topic(&[3; 20]),
        ],
        data,
    )
}

#[test]
fn signature_hashes_are_those_of_the_event_declarations() {
    let transfer = signature(
        "Transfer",
        vec![
            param("from", ParamType::Address, true),
            param("to", ParamType::Address, true),
            param("value", ParamType::Uint(256), false),
        ],
    );
    assert_eq!(transfer, TRANSFER_TOPIC.to_vec());
    let single = signature(
        "TransferSingle",
        vec![
            param("operator", ParamType::Address, true),
            param("from", ParamType::Address, true),
            param("to", ParamType::Address, true),
            param("id", ParamType::Uint(256), false),
            param("value", ParamType::Uint(256), false),
        ],
    );
    assert_eq!(single, TRANSFER_SINGLE_TOPIC.to_vec());
    let batch = signature(
        "TransferBatch",
        vec![
            param("operator", ParamType::Address, true),
            param("from", ParamType::Address, true),
            param("to", ParamType::Address, true),
            param("ids", ParamType::Array(Box::new(ParamType::Uint(256))), false),
            param("values", ParamType::Array(Box::new(ParamType::Uint(256))), false),
        ],
    );
    assert_eq!(batch, TRANSFER_BATCH_TOPIC.to_vec());
    let deposit = signature(
        "Deposit",
        vec![param("dst", ParamType::Address, true), param("wad", ParamType::Uint(256), false)],
    );
    assert_eq!(deposit, DEPOSIT_TOPIC.to_vec());
    let withdrawal = signature(
        "Withdrawal",
        vec![param("src", ParamType::Address, true), param("wad", ParamType::Uint(256), false)],
    );
    assert_eq!(withdrawal, WITHDRAWAL_TOPIC.to_vec());
}

#[test]
fn erc20_transfer_is_three_topics_and_one_word() {
    let l = log(
        vec![TRANSFER_TOPIC.to_vec(), address_topic(&[1; 20]), address_topic(&[2; 20])],
        word(1000),
    );
    assert_eq!(
        decode_event(&l),
        Some(TokenEvent::Erc20Transfer { from: vec![1; 20], to: vec![2; 20], value: word(1000) })
    );
}

#[test]
fn erc721_transfer_is_four_topics_and_no_data() {
    let l = log(
        vec![TRANSFER_TOPIC.to_vec(), address_topic(&[1; 20]), address_topic(&[2; 20]), word(77)],
        vec![],
    );
    assert_eq!(
        decode_event(&l),
        Some(TokenEvent::Erc721Transfer { from: vec![1; 20], to: vec![2; 20], token_id: word(77) })
    );
}

#[test]
fn erc1155_single_transfer_is_four_topics_and_two_words() {
    let mut data = word(5);
    data.extend(word(9));
    let l = log(
        vec![
            TRANSFER_SINGLE_TOPIC.to_vec(),
            address_topic(&[1; 20]),
            address_topic(&[2; 20]),
            address_topic(&[3; 20]),
        ],
        data,
    );
    assert_eq!(
        decode_event(&l),
        Some(TokenEvent::Erc1155TransferSingle {
            operator: vec![1; 20],
            from: vec![2; 20],
            to: vec![3; 20],
            id: word(5),
            value: word(9),
        })
    );
}

#[test]
fn erc1155_batch_transfer_decodes_both_arrays() {
    let data = ethabi::encode(&[uints(&[1, 2]), uints(&[10, 20])]);
    assert_eq!(
        decode_event(&batch_log(data)),
        Some(TokenEvent::Erc1155TransferBatch {
            operator: vec![1; 20],
            from: vec![2; 20],
            to: vec![3; 20],
            ids: vec![word(1), word(2)],
            values: vec![word(10), word(20)],
        })
    );
}

#[test]
fn erc1155_batch_transfer_keeps_lists_of_different_length() {
    let data = ethabi::encode(&[uints(&[1, 2, 3]), uints(&[10])]);
    match decode_event(&batch_log(data)) {
        Some(TokenEvent::Erc1155TransferBatch { ids, values, .. }) => {
            assert_eq!(ids, vec![word(1), word(2), word(3)]);
            assert_eq!(values, vec![word(10)]);
        }
        other => panic!("not a batch: {:?}", other),
    }
}

#[test]
fn erc1155_batch_transfer_of_empty_lists() {
    let data = ethabi::encode(&[uints(&[]), uints(&[])]);
    assert_eq!(data.len(), 128);
    assert_eq!(
        decode_event(&batch_log(data)),
        Some(TokenEvent::Erc1155TransferBatch {
            operator: vec![1; 20],
            from: vec![2; 20],
            to: vec![3; 20],
            ids: vec![],
            values: vec![],
        })
    );
}

#[test]
fn erc1155_batch_transfer_needs_128_bytes_of_data() {
    let data = ethabi::encode(&[uints(&[]), uints(&[])]);
    assert_eq!(decode_event(&batch_log(data[..127].to_vec())), None);
    assert_eq!(decode_event(&batch_log(vec![])), None);
}

#[test]
fn erc1155_batch_transfer_with_a_count_beyond_the_data_is_no_event() {
    let mut data = ethabi::encode(&[uints(&[1, 2]), uints(&[10, 20])]);
    let last = data.len() - 1;
    data.truncate(last);
    assert_eq!(ethabi_batch(&data), None);
    assert_eq!(decode_event(&batch_log(data)), None);
}

#[test]
fn erc1155_batch_transfer_with_an_offset_that_is_no_index_is_no_event() {
    let mut data = ethabi::encode(&[uints(&[1, 2]), uints(&[10, 20])]);
    data[3] = 1;
    assert_eq!(ethabi_batch(&data), None);
    assert_eq!(decode_event(&batch_log(data)), None);
}

#[test]
fn erc1155_batch_decoding_agrees_with_ethabi_on_altered_data() {
    let base = ethabi::encode(&[uints(&[1, 2, 3]), uints(&[10, 20, 30])]);
    let mut state: u64 = 0x9e37_79b9_7f4a_7c15;
    let mut agreed_some = 0;
    let mut agreed_none = 0;
    for round in 0..4000 {
        state = state.wrapping_mul(6364136223846793005).wrapping_add(1442695040888963407);
        let mut data = base.clone();
        let at = ((state >> 33) as usize) % data.len();
        let head_word = [31usize, 63, 95, 127, 223][round % 5];
        let target = if round % 3 == 0 { head_word } else { at };
        data[target] = (state >> 12) as u8;
        if round % 7 == 0 {
            let keep = 128 + ((state >> 20) as usize) % (data.len() - 127);
            data.truncate(keep);
        }
        let expected = ethabi_batch(&data);
        match decode_event(&batch_log(data)) {
            Some(TokenEvent::Erc1155TransferBatch { ids, values, .. }) => {
                assert_eq!(expected, Some((ids, values)));
                agreed_some += 1;
            }
            None => {
                assert_eq!(expected, None);
                agreed_none += 1;
            }
            other => panic!("not a batch: {:?}", other),
        }
    }
    assert!(agreed_some > 100);
    assert!(agreed_none > 100);
}

#[test]
fn deposit_and_withdrawal_are_two_topics_and_one_word() {
    let deposit = log(vec![DEPOSIT_TOPIC.to_vec(), address_topic(&[4; 20])], word(500));
    assert_eq!(
        decode_event(&deposit),
        Some(TokenEvent::WethDeposit { dst: vec![4; 20], wad: word(500) })
    );
    let withdrawal = log(vec![WITHDRAWAL_TOPIC.to_vec(), address_topic(&[4; 20])], word(500));
    assert_eq!(
        decode_event(&withdrawal),
        Some(TokenEvent::WethWithdrawal { src: vec![4; 20], wad: word(500) })
    );
}

#[test]
fn address_is_the_last_twenty_bytes_of_the_topic_word() {
    let mut topic = vec![0xee; 12];
    topic.extend_from_slice(&[5; 20]);
    let expected = ethabi::decode(&[ParamType::Address], &topic).unwrap()[0]
        .clone()
        .into_address()
        .unwrap()
        .as_bytes()
        .to_vec();
    let l = log(vec![DEPOSIT_TOPIC.to_vec(), topic], word(1));
    assert_eq!(decode_event(&l), Some(TokenEvent::WethDeposit { dst: expected, wad: word(1) }));
}

#[test]
fn a_topic_longer_than_a_word_counts_by_its_first_word() {
    let mut topic = address_topic(&[5; 20]);
    topic.extend_from_slice(&[9, 9, 9]);
    assert!(ethabi::decode(&[ParamType::Address], &topic).is_ok());
    let l = log(vec![DEPOSIT_TOPIC.to_vec(), topic], word(1));
    assert_eq!(decode_event(&l), Some(TokenEvent::WethDeposit { dst: vec![5; 20], wad: word(1) }));
}

#[test]
fn a_short_topic_is_no_event() {
    let short = vec![0u8; 31];
    assert!(ethabi::decode(&[ParamType::Address], &short).is_err());
    let l = log(vec![DEPOSIT_TOPIC.to_vec(), short], word(1));
    assert_eq!(decode_event(&l), None);
}

#[test]
fn other_shapes_are_no_event() {
    assert_eq!(decode_event(&log(vec![], vec![])), None);
    assert_eq!(decode_event(&log(vec![TRANSFER_TOPIC.to_vec()], word(1))), None);
    let two_topics = vec![TRANSFER_TOPIC.to_vec(), address_topic(&[1; 20])];
    assert_eq!(decode_event(&log(two_topics, word(1))), None);
    let wrong_data =
        log(vec![TRANSFER_TOPIC.to_vec(), address_topic(&[1; 20]), address_topic(&[2; 20])], vec![0; 31]);
    assert_eq!(decode_event(&wrong_data), None);
    let mut unknown = TRANSFER_TOPIC.to_vec();
    unknown[31] ^= 1;
    let wrong_signature = log(vec![unknown, address_topic(&[1; 20]), address_topic(&[2; 20])], word(1));
    assert_eq!(decode_event(&wrong_signature), None);
    let five = log(
        vec![
            TRANSFER_TOPIC.to_vec(),
            address_topic(&[1; 20]),
            address_topic(&[2; 20]),
            word(1),
            word(2),
        ],
        vec![],
    );
    assert_eq!(decode_event(&five), None);
}
