//! Recognition of the six token events among log entries.
//!
//! A log entry has at most one of six shapes, told apart by the number of
//! its topics, the signature hash in its first topic and the length of its
//! data. Indexed parameters sit one per topic in 32-byte words; the others
//! are ABI-encoded in the data.

use crate::block::Log;
use vstd::prelude::*;

verus! {

/// Signature hash of `Transfer(address,address,uint256)`.
pub const TRANSFER_TOPIC: [u8; 32] = [
    221, 242, 82, 173, 27, 226, 200, 155, 105, 194, 176, 104, 252, 55, 141, 170,
    149, 43, 167, 241, 99, 196, 161, 22, 40, 245, 90, 77, 245, 35, 179, 239,
];

/// Signature hash of `TransferSingle(address,address,address,uint256,uint256)`.
pub const TRANSFER_SINGLE_TOPIC: [u8; 32] = [
    195, 213, 129, 104, 197, 174, 115, 151, 115, 29, 6, 61, 91, 191, 61, 101,
    120, 84, 66, 115, 67, 244, 192, 131, 36, 15, 122, 172, 170, 45, 15, 98,
];

/// Signature hash of `TransferBatch(address,address,address,uint256[],uint256[])`.
pub const TRANSFER_BATCH_TOPIC: [u8; 32] = [
    74, 57, 220, 6, 212, 192, 219, 198, 75, 112, 175, 144, 253, 105, 138, 35,
    58, 81, 138, 165, 208, 126, 89, 93, 152, 59, 140, 5, 38, 200, 247, 251,
];

/// Signature hash of `Deposit(address,uint256)`.
pub const DEPOSIT_TOPIC: [u8; 32] = [
    225, 255, 252, 196, 146, 61, 4, 181, 89, 244, 210, 154, 139, 252, 108, 218,
    4, 235, 91, 13, 60, 70, 7, 81, 194, 64, 44, 92, 92, 201, 16, 156,
];

/// Signature hash of `Withdrawal(address,uint256)`.
pub const WITHDRAWAL_TOPIC: [u8; 32] = [
    127, 207, 83, 44, 21, 240, 166, 219, 11, 214, 208, 224, 56, 190, 167, 29,
    48, 216, 8, 199, 217, 140, 179, 191, 114, 104, 169, 91, 245, 8, 27, 101,
];

/// A decoded token event. Addresses are twenty bytes; quantities and token
/// ids are 32-byte big-endian words.
#[derive(Debug, Clone, PartialEq)]
pub enum TokenEvent {
    Erc20Transfer { from: Vec<u8>, to: Vec<u8>, value: Vec<u8> },
    Erc721Transfer { from: Vec<u8>, to: Vec<u8>, token_id: Vec<u8> },
    Erc1155TransferSingle { operator: Vec<u8>, from: Vec<u8>, to: Vec<u8>, id: Vec<u8>, value: Vec<u8> },
    Erc1155TransferBatch {
        operator: Vec<u8>,
        from: Vec<u8>,
        to: Vec<u8>,
        ids: Vec<Vec<u8>>,
        values: Vec<Vec<u8>>,
    },
    WethDeposit { dst: Vec<u8>, wad: Vec<u8> },
    WethWithdrawal { src: Vec<u8>, wad: Vec<u8> },
}

/// What a `TokenEvent` holds, as plain values.
pub enum TokenEventView {
    Erc20Transfer { from: Seq<u8>, to: Seq<u8>, value: Seq<u8> },
    Erc721Transfer { from: Seq<u8>, to: Seq<u8>, token_id: Seq<u8> },
    Erc1155TransferSingle { operator: Seq<u8>, from: Seq<u8>, to: Seq<u8>, id: Seq<u8>, value: Seq<u8> },
    Erc1155TransferBatch {
        operator: Seq<u8>,
        from: Seq<u8>,
        to: Seq<u8>,
        ids: Seq<Seq<u8>>,
        values: Seq<Seq<u8>>,
    },
    WethDeposit { dst: Seq<u8>, wad: Seq<u8> },
    WethWithdrawal { src: Seq<u8>, wad: Seq<u8> },
}

impl View for TokenEvent {
    type V = TokenEventView;

    open spec fn view(&self) -> TokenEventView {
        match *self {
            TokenEvent::Erc20Transfer { from, to, value } => TokenEventView::Erc20Transfer {
                from: from@,
                to: to@,
                value: value@,
            },
            TokenEvent::Erc721Transfer { from, to, token_id } => TokenEventView::Erc721Transfer {
                from: from@,
                to: to@,
                token_id: token_id@,
            },
            TokenEvent::Erc1155TransferSingle {
                operator,
                from,
                to,
                id,
                value,
            } => TokenEventView::Erc1155TransferSingle {
                operator: operator@,
                from: from@,
                to: to@,
                id: id@,
                value: value@,
            },
            TokenEvent::Erc1155TransferBatch {
                operator,
                from,
                to,
                ids,
                values,
            } => TokenEventView::Erc1155TransferBatch {
                operator: operator@,
                from: from@,
                to: to@,
                ids: ids.deep_view(),
                values: values.deep_view(),
            },
            TokenEvent::WethDeposit { dst, wad } => TokenEventView::WethDeposit {
                dst: dst@,
                wad: wad@,
            },
            TokenEvent::WethWithdrawal { src, wad } => TokenEventView::WethWithdrawal {
                src: src@,
                wad: wad@,
            },
        }
    }
}

/// Whether the log has the given number of topics, the first of them being
/// the signature hash `id`.
pub open spec fn has_signature(log: Log, topics: nat, id: Seq<u8>) -> bool {
    log.topics@.len() == topics && log.topics@[0]@ == id
}

/// Whether every topic after the first holds at least one 32-byte word.
pub open spec fn topics_hold_words(log: Log) -> bool {
    forall|k: int| 1 <= k < log.topics@.len() ==> (#[trigger] log.topics@[k])@.len() >= 32
}

/// The address in a topic: the last twenty bytes of its 32-byte word.
pub open spec fn topic_address(log: Log, k: int) -> Seq<u8> {
    log.topics@[k]@.subrange(12, 32)
}

/// The 32-byte word of a topic.
pub open spec fn topic_word(log: Log, k: int) -> Seq<u8> {
    log.topics@[k]@.subrange(0, 32)
}

/// The 32-byte word of `data` at `offset`, where it lies within the data.
pub open spec fn word_at(data: Seq<u8>, offset: int) -> Option<Seq<u8>> {
    if 0 <= offset && offset + 32 <= data.len() {
        Some(data.subrange(offset, offset + 32))
    } else {
        None
    }
}

/// A 32-byte word read as an offset or a count: its first 28 bytes must be
/// zero, and its last four are the number, big-endian.
pub open spec fn word_as_index(word: Seq<u8>) -> Option<int> {
    if forall|k: int| 0 <= k < 28 ==> word[k] == 0 {
        Some(word[28] * 0x100_0000 + word[29] * 0x1_0000 + word[30] * 0x100 + word[31])
    } else {
        None
    }
}

/// The index held in the word of `data` at `offset`.
pub open spec fn index_at(data: Seq<u8>, offset: int) -> Option<int> {
    match word_at(data, offset) {
        Some(word) => word_as_index(word),
        None => None,
    }
}

/// The ABI-encoded array of 32-byte words whose offset stands in the head
/// word at `head`: the offset leads to the count, and the words follow it.
/// None where offset or count is no index or anything lies outside the data.
pub open spec fn word_array_at(data: Seq<u8>, head: int) -> Option<Seq<Seq<u8>>> {
    match index_at(data, head) {
        Some(start) => match index_at(data, start) {
            Some(count) => if start + 32 + 32 * count <= data.len() {
                Some(
                    Seq::new(
                        count as nat,
                        |k: int| data.subrange(start + 32 + 32 * k, start + 64 + 32 * k),
                    ),
                )
            } else {
                None
            },
            None => None,
        },
        None => None,
    }
}

/// The ERC20 transfer that the log encodes, if it has that shape.
pub open spec fn erc20_transfer(log: Log) -> Option<TokenEventView> {
    if has_signature(log, 3, TRANSFER_TOPIC@) && log.data@.len() == 32 && topics_hold_words(log) {
        Some(
            TokenEventView::Erc20Transfer {
                from: topic_address(log, 1),
                to: topic_address(log, 2),
                value: log.data@,
            },
        )
    } else {
        None
    }
}

/// The ERC721 transfer that the log encodes, if it has that shape.
pub open spec fn erc721_transfer(log: Log) -> Option<TokenEventView> {
    if has_signature(log, 4, TRANSFER_TOPIC@) && log.data@.len() == 0 && topics_hold_words(log) {
        Some(
            TokenEventView::Erc721Transfer {
                from: topic_address(log, 1),
                to: topic_address(log, 2),
                token_id: topic_word(log, 3),
            },
        )
    } else {
        None
    }
}

/// The ERC1155 single transfer that the log encodes, if it has that shape.
pub open spec fn erc1155_transfer_single(log: Log) -> Option<TokenEventView> {
    if has_signature(log, 4, TRANSFER_SINGLE_TOPIC@) && log.data@.len() == 64 && topics_hold_words(
        log,
    ) {
        Some(
            TokenEventView::Erc1155TransferSingle {
                operator: topic_address(log, 1),
                from: topic_address(log, 2),
                to: topic_address(log, 3),
                id: log.data@.subrange(0, 32),
                value: log.data@.subrange(32, 64),
            },
        )
    } else {
        None
    }
}

/// The ERC1155 batch transfer that the log encodes, if it has that shape.
pub open spec fn erc1155_transfer_batch(log: Log) -> Option<TokenEventView> {
    if has_signature(log, 4, TRANSFER_BATCH_TOPIC@) && log.data@.len() >= 128 && topics_hold_words(
        log,
    ) {
        match (word_array_at(log.data@, 0), word_array_at(log.data@, 32)) {
            (Some(ids), Some(values)) => Some(
                TokenEventView::Erc1155TransferBatch {
                    operator: topic_address(log, 1),
                    from: topic_address(log, 2),
                    to: topic_address(log, 3),
                    ids,
                    values,
                },
            ),
            _ => None,
        }
    } else {
        None
    }
}

/// The wrapped-native deposit that the log encodes, if it has that shape.
pub open spec fn weth_deposit(log: Log) -> Option<TokenEventView> {
    if has_signature(log, 2, DEPOSIT_TOPIC@) && log.data@.len() == 32 && topics_hold_words(log) {
        Some(TokenEventView::WethDeposit { dst: topic_address(log, 1), wad: log.data@ })
    } else {
        None
    }
}

/// The wrapped-native withdrawal that the log encodes, if it has that shape.
pub open spec fn weth_withdrawal(log: Log) -> Option<TokenEventView> {
    if has_signature(log, 2, WITHDRAWAL_TOPIC@) && log.data@.len() == 32 && topics_hold_words(
        log,
    ) {
        Some(TokenEventView::WethWithdrawal { src: topic_address(log, 1), wad: log.data@ })
    } else {
        None
    }
}

/// The event that the log encodes: the first of the six shapes, in this
/// order, that it has.
pub open spec fn event_of(log: Log) -> Option<TokenEventView> {
    if erc20_transfer(log) is Some {
        erc20_transfer(log)
    } else if erc721_transfer(log) is Some {
        erc721_transfer(log)
    } else if erc1155_transfer_single(log) is Some {
        erc1155_transfer_single(log)
    } else if erc1155_transfer_batch(log) is Some {
        erc1155_transfer_batch(log)
    } else if weth_deposit(log) is Some {
        weth_deposit(log)
    } else {
        weth_withdrawal(log)
    }
}

/// Whether the bytes are exactly the 32 bytes of `id`.
fn is_signature(bytes: &Vec<u8>, id: &[u8; 32]) -> (same: bool)
    ensures
        same == (bytes@ == id@),
{
    if bytes.len() != 32 {
        return false;
    }
    let mut i: usize = 0;
    while i < 32
        invariant
            i <= 32,
            bytes@.len() == 32,
            forall|k: int| 0 <= k < i ==> bytes@[k] == id@[k],
        decreases 32 - i,
    {
        if bytes[i] != id[i] {
            return false;
        }
        i += 1;
    }
    assert(bytes@ =~= id@);
    true
}

/// A copy of the bytes from `start` up to `end`.
fn copy_range(bytes: &Vec<u8>, start: usize, end: usize) -> (copy: Vec<u8>)
    requires
        start <= end <= bytes@.len(),
    ensures
        copy@ == bytes@.subrange(start as int, end as int),
{
    let mut copy: Vec<u8> = Vec::new();
    let mut i: usize = start;
    while i < end
        invariant
            start <= i <= end <= bytes@.len(),
            copy@ == bytes@.subrange(start as int, i as int),
        decreases end - i,
    {
        copy.push(bytes[i]);
        i += 1;
        assert(copy@ =~= bytes@.subrange(start as int, i as int));
    }
    copy
}

/// Whether every topic after the first holds at least one 32-byte word.
fn topics_are_words(log: &Log) -> (all: bool)
    ensures
        all == topics_hold_words(*log),
{
    let mut k: usize = 1;
    while k < log.topics.len()
        invariant
            1 <= k,
            forall|j: int| 1 <= j < k && j < log.topics@.len() ==> (#[trigger] log.topics@[j])@.len() >= 32,
        decreases log.topics@.len() - k,
    {
        if log.topics[k].len() < 32 {
            return false;
        }
        k += 1;
    }
    true
}

/// Whether the log has `topics` topics, the first being the signature hash `id`.
fn signed_by(log: &Log, topics: usize, id: &[u8; 32]) -> (signed: bool)
    requires
        topics >= 1,
    ensures
        signed == has_signature(*log, topics as nat, id@),
{
    log.topics.len() == topics && is_signature(&log.topics[0], id)
}

/// The index held in the word of `data` at `offset`.
#[verifier::loop_isolation(false)]
fn read_index(data: &Vec<u8>, offset: u64) -> (index: Option<u64>)
    ensures
        match index {
            Some(n) => index_at(data@, offset as int) == Some(n as int) && n < 0x1_0000_0000,
            None => index_at(data@, offset as int) is None,
        },
{
    let len = data.len() as u64;
    if offset > len || len - offset < 32 {
        return None;
    }
    let at = offset as usize;
    let ghost word = data@.subrange(at as int, at + 32);
    let mut i: usize = 0;
    while i < 28
        invariant
            i <= 28,
            at + 32 <= data@.len(),
            word == data@.subrange(at as int, at + 32),
            forall|k: int| 0 <= k < i ==> word[k] == 0,
        decreases 28 - i,
    {
        if data[at + i] != 0 {
            assert(word[i as int] != 0);
            return None;
        }
        i += 1;
    }
    let b28 = data[at + 28] as u64;
    let b29 = data[at + 29] as u64;
    let b30 = data[at + 30] as u64;
    let b31 = data[at + 31] as u64;
    assert(word[28] == b28 && word[29] == b29 && word[30] == b30 && word[31] == b31);
    Some(b28 * 0x100_0000 + b29 * 0x1_0000 + b30 * 0x100 + b31)
}

/// The ABI-encoded array of 32-byte words whose offset stands at `head`.
#[verifier::loop_isolation(false)]
fn read_word_array(data: &Vec<u8>, head: u64) -> (words: Option<Vec<Vec<u8>>>)
    ensures
        match words {
            Some(list) => word_array_at(data@, head as int) == Some(list.deep_view()),
            None => word_array_at(data@, head as int) is None,
        },
{
    let start = match read_index(data, head) {
        Some(n) => n,
        None => {
            return None;
        },
    };
    let count = match read_index(data, start) {
        Some(n) => n,
        None => {
            return None;
        },
    };
    if start + 32 + 32 * count > data.len() as u64 {
        return None;
    }
    let ghost expected = Seq::new(
        count as nat,
        |k: int| data@.subrange(start + 32 + 32 * k, start + 64 + 32 * k),
    );
    let mut list: Vec<Vec<u8>> = Vec::new();
    let mut k: u64 = 0;
    while k < count
        invariant
            k <= count,
            start + 32 + 32 * count <= data@.len(),
            expected == Seq::new(
                count as nat,
                |k: int| data@.subrange(start + 32 + 32 * k, start + 64 + 32 * k),
            ),
            list.deep_view() == expected.take(k as int),
        decreases count - k,
    {
        let from = (start + 32 + 32 * k) as usize;
        let ghost before = list.deep_view();
        let word = copy_range(data, from, from + 32);
        list.push(word);
        assert(word.deep_view() =~= word@);
        assert(list.deep_view() =~= before.push(word@));
        k += 1;
        assert(before.push(word@) =~= expected.take(k as int));
    }
    assert(expected.take(k as int) =~= expected);
    Some(list)
}

/// Decodes the log as the first of the six event shapes that it has, tried
/// in the order ERC20 transfer, ERC721 transfer, ERC1155 single transfer,
/// ERC1155 batch transfer, deposit, withdrawal. `None` where it has none.
pub fn decode_event(log: &Log) -> (event: Option<TokenEvent>)
    ensures
        match event {
            Some(e) => event_of(*log) == Some(e@),
            None => event_of(*log) is None,
        },
{
    if log.topics.len() < 2 || log.topics.len() > 4 || !topics_are_words(log) {
        return None;
    }
    let data_len = log.data.len();
    if signed_by(log, 3, &TRANSFER_TOPIC) && data_len == 32 {
        assert(log.data@.subrange(0, 32) =~= log.data@);
        return Some(
            TokenEvent::Erc20Transfer {
                from: copy_range(&log.topics[1], 12, 32),
                to: copy_range(&log.topics[2], 12, 32),
                value: copy_range(&log.data, 0, 32),
            },
        );
    }
    if signed_by(log, 4, &TRANSFER_TOPIC) && data_len == 0 {
        return Some(
            TokenEvent::Erc721Transfer {
                from: copy_range(&log.topics[1], 12, 32),
                to: copy_range(&log.topics[2], 12, 32),
                token_id: copy_range(&log.topics[3], 0, 32),
            },
        );
    }
    if signed_by(log, 4, &TRANSFER_SINGLE_TOPIC) && data_len == 64 {
        return Some(
            TokenEvent::Erc1155TransferSingle {
                operator: copy_range(&log.topics[1], 12, 32),
                from: copy_range(&log.topics[2], 12, 32),
                to: copy_range(&log.topics[3], 12, 32),
                id: copy_range(&log.data, 0, 32),
                value: copy_range(&log.data, 32, 64),
            },
        );
    }
    if signed_by(log, 4, &TRANSFER_BATCH_TOPIC) && data_len >= 128 {
        let ids = read_word_array(&log.data, 0);
        let values = read_word_array(&log.data, 32);
        return match (ids, values) {
            (Some(ids), Some(values)) => Some(
                TokenEvent::Erc1155TransferBatch {
                    operator: copy_range(&log.topics[1], 12, 32),
                    from: copy_range(&log.topics[2], 12, 32),
                    to: copy_range(&log.topics[3], 12, 32),
                    ids,
                    values,
                },
            ),
            _ => {
                proof {
                    lemma_signatures_differ();
                }
                None
            },
        };
    }
    if signed_by(log, 2, &DEPOSIT_TOPIC) && data_len == 32 {
        assert(log.data@.subrange(0, 32) =~= log.data@);
        return Some(
            TokenEvent::WethDeposit {
                dst: copy_range(&log.topics[1], 12, 32),
                wad: copy_range(&log.data, 0, 32),
            },
        );
    }
    if signed_by(log, 2, &WITHDRAWAL_TOPIC) && data_len == 32 {
        assert(log.data@.subrange(0, 32) =~= log.data@);
        return Some(
            TokenEvent::WethWithdrawal {
                src: copy_range(&log.topics[1], 12, 32),
                wad: copy_range(&log.data, 0, 32),
            },
        );
    }
    None
}

/// The signature hashes of the deposit and of the withdrawal differ.
pub proof fn lemma_signatures_differ()
    ensures
        DEPOSIT_TOPIC@ != WITHDRAWAL_TOPIC@,
{
    assert(DEPOSIT_TOPIC@[0] == 225);
    assert(WITHDRAWAL_TOPIC@[0] == 127);
}

/// A log has at most one of the six shapes.
pub proof fn lemma_shapes_exclude_each_other(log: Log)
    ensures
        erc20_transfer(log) is Some ==> erc721_transfer(log) is None && erc1155_transfer_single(
            log,
        ) is None && erc1155_transfer_batch(log) is None && weth_deposit(log) is None
            && weth_withdrawal(log) is None,
        erc721_transfer(log) is Some ==> erc1155_transfer_single(log) is None
            && erc1155_transfer_batch(log) is None && weth_deposit(log) is None && weth_withdrawal(
            log,
        ) is None,
        erc1155_transfer_single(log) is Some ==> erc1155_transfer_batch(log) is None
            && weth_deposit(log) is None && weth_withdrawal(log) is None,
        erc1155_transfer_batch(log) is Some ==> weth_deposit(log) is None && weth_withdrawal(log)
            is None,
        weth_deposit(log) is Some ==> weth_withdrawal(log) is None,
{
    lemma_signatures_differ();
}

} // verus!
