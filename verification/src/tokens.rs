//! Token transfers: the six token events in one schema, selected by the
//! treasury addresses or by the issued tokens.

use crate::amount::{amount_to_decimal, be_value, magnitude_bytes, normalize_amount};
use crate::block::Log;
use crate::encoding::{bytes_to_hex, decimal_chars, hex_chars, hex_encode};
use crate::events::{decode_event, event_of, TokenEvent, TokenEventView};
use crate::records::{TokenTransfer, TokenTransferView};
use crate::registry::AddressRegistry;
use substreams_ethereum::NULL_ADDRESS;
use vstd::prelude::*;

verus! {

/// The null address: twenty zero bytes.
pub open spec fn null_address_bytes() -> Seq<u8> {
    Seq::new(20, |i: int| 0u8)
}

/// Hexadecimal text of the shortest form of the quantity in a word.
pub open spec fn quantity_text(word: Seq<u8>) -> Seq<char> {
    hex_chars(magnitude_bytes(be_value(word)))
}

/// Decimal text of the token id in a word.
pub open spec fn token_id_text(word: Seq<u8>) -> Seq<char> {
    decimal_chars(be_value(word))
}

/// The value of the transfer of a single non-fungible token: `"01"`.
pub open spec fn single_unit_text() -> Seq<char> {
    seq!['0', '1']
}

/// A token-transfer record of a log of the call `call_index` of the
/// transaction `hash`.
pub open spec fn token_record(
    hash: Seq<u8>,
    call_index: u32,
    log: Log,
    from: Seq<u8>,
    to: Seq<u8>,
    value: Seq<char>,
    token_id: Seq<char>,
) -> TokenTransferView {
    TokenTransferView {
        tx_hash: hex_chars(hash),
        call_index,
        log_index: log.block_index as u64,
        from: hex_chars(from),
        to: hex_chars(to),
        value,
        token_address: hex_chars(log.address@),
        token_id,
    }
}

/// The records of a batch transfer: one for every pair of id and quantity,
/// and none at all where the two lists differ in length.
pub open spec fn batch_records(
    hash: Seq<u8>,
    call_index: u32,
    log: Log,
    from: Seq<u8>,
    to: Seq<u8>,
    ids: Seq<Seq<u8>>,
    values: Seq<Seq<u8>>,
) -> Seq<TokenTransferView> {
    if ids.len() != values.len() {
        Seq::empty()
    } else {
        Seq::new(
            ids.len(),
            |i: int|
                token_record(
                    hash,
                    call_index,
                    log,
                    from,
                    to,
                    quantity_text(values[i]),
                    token_id_text(ids[i]),
                ),
        )
    }
}

/// The records that an event gives.
pub open spec fn event_records(hash: Seq<u8>, call_index: u32, log: Log, event: TokenEventView) -> Seq<
    TokenTransferView,
> {
    match event {
        TokenEventView::Erc20Transfer { from, to, value } => seq![
            token_record(hash, call_index, log, from, to, quantity_text(value), Seq::empty()),
        ],
        TokenEventView::Erc721Transfer { from, to, token_id } => seq![
            token_record(
                hash,
                call_index,
                log,
                from,
                to,
                single_unit_text(),
                token_id_text(token_id),
            ),
        ],
        TokenEventView::Erc1155TransferSingle { operator, from, to, id, value } => seq![
            token_record(
                hash,
                call_index,
                log,
                from,
                to,
                quantity_text(value),
                token_id_text(id),
            ),
        ],
        TokenEventView::Erc1155TransferBatch {
            operator,
            from,
            to,
            ids,
            values,
        } => batch_records(hash, call_index, log, from, to, ids, values),
        TokenEventView::WethDeposit { dst, wad } => seq![
            token_record(
                hash,
                call_index,
                log,
                null_address_bytes(),
                dst,
                quantity_text(wad),
                Seq::empty(),
            ),
        ],
        TokenEventView::WethWithdrawal { src, wad } => seq![
            token_record(
                hash,
                call_index,
                log,
                src,
                null_address_bytes(),
                quantity_text(wad),
                Seq::empty(),
            ),
        ],
    }
}

/// Whether an event concerns the treasury: a transfer with a treasury
/// address at either end and two different ends, a deposit to a treasury
/// address, or a withdrawal by one.
pub open spec fn treasury_relevant(reg: AddressRegistry, event: TokenEventView) -> bool {
    match event {
        TokenEventView::Erc20Transfer { from, to, value } => (reg.is_treasury(to)
            || reg.is_treasury(from)) && to != from,
        TokenEventView::Erc721Transfer { from, to, token_id } => (reg.is_treasury(to)
            || reg.is_treasury(from)) && to != from,
        TokenEventView::Erc1155TransferSingle { operator, from, to, id, value } => (reg.is_treasury(
            to,
        ) || reg.is_treasury(from)) && to != from,
        TokenEventView::Erc1155TransferBatch { operator, from, to, ids, values } => (
        reg.is_treasury(to) || reg.is_treasury(from)) && to != from,
        TokenEventView::WethDeposit { dst, wad } => reg.is_treasury(dst),
        TokenEventView::WethWithdrawal { src, wad } => reg.is_treasury(src),
    }
}

/// Whether an event counts for issued tokens: every transfer does, deposits
/// and withdrawals do not.
pub open spec fn issued_relevant(event: TokenEventView) -> bool {
    !(event is WethDeposit) && !(event is WethWithdrawal)
}

/// The treasury-relevant records of one log.
pub open spec fn log_treasury_records(reg: AddressRegistry, hash: Seq<u8>, call_index: u32, log: Log) -> Seq<
    TokenTransferView,
> {
    match event_of(log) {
        Some(event) => if treasury_relevant(reg, event) {
            event_records(hash, call_index, log, event)
        } else {
            Seq::empty()
        },
        None => Seq::empty(),
    }
}

/// The issued-token records of one log.
pub open spec fn log_issued_records(reg: AddressRegistry, hash: Seq<u8>, call_index: u32, log: Log) -> Seq<
    TokenTransferView,
> {
    match event_of(log) {
        Some(event) => if reg.is_issued_token(log.address@) && issued_relevant(event) {
            event_records(hash, call_index, log, event)
        } else {
            Seq::empty()
        },
        None => Seq::empty(),
    }
}

/// The treasury-relevant records of the logs, log after log.
pub open spec fn treasury_token_records(
    reg: AddressRegistry,
    hash: Seq<u8>,
    call_index: u32,
    logs: Seq<Log>,
) -> Seq<TokenTransferView>
    decreases logs.len(),
{
    if logs.len() == 0 {
        Seq::empty()
    } else {
        treasury_token_records(reg, hash, call_index, logs.drop_last()) + log_treasury_records(
            reg,
            hash,
            call_index,
            logs.last(),
        )
    }
}

/// The issued-token records of the logs, log after log.
pub open spec fn issued_token_records(
    reg: AddressRegistry,
    hash: Seq<u8>,
    call_index: u32,
    logs: Seq<Log>,
) -> Seq<TokenTransferView>
    decreases logs.len(),
{
    if logs.len() == 0 {
        Seq::empty()
    } else {
        issued_token_records(reg, hash, call_index, logs.drop_last()) + log_issued_records(
            reg,
            hash,
            call_index,
            logs.last(),
        )
    }
}

/// The constant `NULL_ADDRESS` of substreams-ethereum: twenty zero bytes.
#[verifier::external_body]
pub(crate) fn null_address() -> (address: Vec<u8>)
    ensures
        address@ == null_address_bytes(),
{
    NULL_ADDRESS.to_vec()
}

/// A record of a log of the call `call_index` of the transaction `hash`.
fn new_token_transfer(
    hash: &Vec<u8>,
    call_index: u32,
    log: &Log,
    from: &Vec<u8>,
    to: &Vec<u8>,
    value: String,
    token_id: String,
) -> (record: TokenTransfer)
    ensures
        record@ == token_record(hash@, call_index, *log, from@, to@, value@, token_id@),
{
    TokenTransfer {
        from: hex_encode(from.as_slice()),
        to: hex_encode(to.as_slice()),
        value,
        tx_hash: hex_encode(hash.as_slice()),
        call_index,
        log_index: log.block_index as u64,
        token_address: hex_encode(log.address.as_slice()),
        token_id,
    }
}

/// Hexadecimal text of the shortest form of the quantity in `word`.
fn quantity_hex(word: &Vec<u8>) -> (text: String)
    ensures
        text@ == quantity_text(word@),
{
    let val_bytes = normalize_amount(word);
    bytes_to_hex(&val_bytes)
}

/// The record of an ERC20 transfer: the quantity as value, no token id.
pub fn new_erc20_transfer(
    hash: &Vec<u8>,
    call_index: u32,
    log: &Log,
    from: &Vec<u8>,
    to: &Vec<u8>,
    value: &Vec<u8>,
) -> (record: TokenTransfer)
    ensures
        record@ == token_record(
            hash@,
            call_index,
            *log,
            from@,
            to@,
            quantity_text(value@),
            Seq::empty(),
        ),
{
    new_token_transfer(hash, call_index, log, from, to, quantity_hex(value), String::new())
}

/// The record of an ERC721 transfer: the value `"01"`, the token id in decimal.
pub fn new_erc721_transfer(
    hash: &Vec<u8>,
    call_index: u32,
    log: &Log,
    from: &Vec<u8>,
    to: &Vec<u8>,
    token_id: &Vec<u8>,
) -> (record: TokenTransfer)
    ensures
        record@ == token_record(
            hash@,
            call_index,
            *log,
            from@,
            to@,
            single_unit_text(),
            token_id_text(token_id@),
        ),
{
    proof {
        reveal_strlit("01");
    }
    let one = String::from_str("01");
    assert(one@ =~= single_unit_text());
    new_token_transfer(hash, call_index, log, from, to, one, amount_to_decimal(token_id))
}

/// The record of one id and quantity of an ERC1155 transfer.
pub fn new_erc1155_transfer(
    hash: &Vec<u8>,
    call_index: u32,
    log: &Log,
    from: &Vec<u8>,
    to: &Vec<u8>,
    id: &Vec<u8>,
    value: &Vec<u8>,
) -> (record: TokenTransfer)
    ensures
        record@ == token_record(
            hash@,
            call_index,
            *log,
            from@,
            to@,
            quantity_text(value@),
            token_id_text(id@),
        ),
{
    new_token_transfer(
        hash,
        call_index,
        log,
        from,
        to,
        quantity_hex(value),
        amount_to_decimal(id),
    )
}

/// The record of an ERC1155 single transfer.
pub fn new_erc1155_single_transfer(
    hash: &Vec<u8>,
    call_index: u32,
    log: &Log,
    from: &Vec<u8>,
    to: &Vec<u8>,
    id: &Vec<u8>,
    value: &Vec<u8>,
) -> (record: TokenTransfer)
    ensures
        record@ == token_record(
            hash@,
            call_index,
            *log,
            from@,
            to@,
            quantity_text(value@),
            token_id_text(id@),
        ),
{
    new_erc1155_transfer(hash, call_index, log, from, to, id, value)
}

/// The records of an ERC1155 batch transfer: one for every pair of id and
/// quantity, in order. Where the lists of ids and of quantities differ in
/// length the log gives no record at all.
pub fn new_erc1155_batch_transfer(
    hash: &Vec<u8>,
    call_index: u32,
    log: &Log,
    from: &Vec<u8>,
    to: &Vec<u8>,
    ids: &Vec<Vec<u8>>,
    values: &Vec<Vec<u8>>,
) -> (records: Vec<TokenTransfer>)
    ensures
        records.deep_view() == batch_records(
            hash@,
            call_index,
            *log,
            from@,
            to@,
            ids.deep_view(),
            values.deep_view(),
        ),
        ids@.len() != values@.len() ==> records@.len() == 0,
{
    let mut records: Vec<TokenTransfer> = Vec::new();
    if ids.len() != values.len() {
        assert(records.deep_view() =~= Seq::empty());
        return records;
    }
    let ghost expected = batch_records(
        hash@,
        call_index,
        *log,
        from@,
        to@,
        ids.deep_view(),
        values.deep_view(),
    );
    let mut i: usize = 0;
    while i < ids.len()
        invariant
            i <= ids@.len(),
            ids@.len() == values@.len(),
            expected == batch_records(
                hash@,
                call_index,
                *log,
                from@,
                to@,
                ids.deep_view(),
                values.deep_view(),
            ),
            records.deep_view() == expected.take(i as int),
        decreases ids@.len() - i,
    {
        let ghost before = records.deep_view();
        let record = new_erc1155_transfer(hash, call_index, log, from, to, &ids[i], &values[i]);
        records.push(record);
        assert(ids@[i as int].deep_view() =~= ids@[i as int]@);
        assert(values@[i as int].deep_view() =~= values@[i as int]@);
        assert(records.deep_view() =~= before.push(record@));
        i += 1;
        assert(before.push(record@) =~= expected.take(i as int));
    }
    assert(expected.take(i as int) =~= expected);
    records
}

/// The record of a wrapped-native deposit: from the null address to `dst`.
pub fn new_weth_deposit(hash: &Vec<u8>, call_index: u32, log: &Log, dst: &Vec<u8>, wad: &Vec<u8>) -> (record:
    TokenTransfer)
    ensures
        record@ == token_record(
            hash@,
            call_index,
            *log,
            null_address_bytes(),
            dst@,
            quantity_text(wad@),
            Seq::empty(),
        ),
{
    let null = null_address();
    new_token_transfer(hash, call_index, log, &null, dst, quantity_hex(wad), String::new())
}

/// The record of a wrapped-native withdrawal: from `src` to the null address.
pub fn new_weth_withdrawal(
    hash: &Vec<u8>,
    call_index: u32,
    log: &Log,
    src: &Vec<u8>,
    wad: &Vec<u8>,
) -> (record: TokenTransfer)
    ensures
        record@ == token_record(
            hash@,
            call_index,
            *log,
            src@,
            null_address_bytes(),
            quantity_text(wad@),
            Seq::empty(),
        ),
{
    let null = null_address();
    new_token_transfer(hash, call_index, log, src, &null, quantity_hex(wad), String::new())
}

/// A vector with the one record.
fn single(record: TokenTransfer) -> (records: Vec<TokenTransfer>)
    ensures
        records.deep_view() == seq![record@],
{
    let mut records: Vec<TokenTransfer> = Vec::new();
    records.push(record);
    assert(records.deep_view() =~= seq![record@]);
    records
}

/// The records that a decoded event gives.
pub fn event_transfers(hash: &Vec<u8>, call_index: u32, log: &Log, event: &TokenEvent) -> (records:
    Vec<TokenTransfer>)
    ensures
        records.deep_view() == event_records(hash@, call_index, *log, event@),
{
    match event {
        TokenEvent::Erc20Transfer { from, to, value } => single(
            new_erc20_transfer(hash, call_index, log, from, to, value),
        ),
        TokenEvent::Erc721Transfer { from, to, token_id } => single(
            new_erc721_transfer(hash, call_index, log, from, to, token_id),
        ),
        TokenEvent::Erc1155TransferSingle { operator, from, to, id, value } => single(
            new_erc1155_single_transfer(hash, call_index, log, from, to, id, value),
        ),
        TokenEvent::Erc1155TransferBatch {
            operator,
            from,
            to,
            ids,
            values,
        } => new_erc1155_batch_transfer(hash, call_index, log, from, to, ids, values),
        TokenEvent::WethDeposit { dst, wad } => single(
            new_weth_deposit(hash, call_index, log, dst, wad),
        ),
        TokenEvent::WethWithdrawal { src, wad } => single(
            new_weth_withdrawal(hash, call_index, log, src, wad),
        ),
    }
}

/// Whether the two byte strings are equal.
fn same_bytes(a: &Vec<u8>, b: &Vec<u8>) -> (same: bool)
    ensures
        same == (a@ == b@),
{
    if a.len() != b.len() {
        return false;
    }
    let mut i: usize = 0;
    while i < a.len()
        invariant
            i <= a@.len(),
            a@.len() == b@.len(),
            forall|k: int| 0 <= k < i ==> a@[k] == b@[k],
        decreases a@.len() - i,
    {
        if a[i] != b[i] {
            return false;
        }
        i += 1;
    }
    assert(a@ =~= b@);
    true
}

/// Whether a transfer between the two addresses concerns the treasury.
fn ends_touch_treasury(reg: &AddressRegistry, from: &Vec<u8>, to: &Vec<u8>) -> (touches: bool)
    ensures
        touches == ((reg.is_treasury(to@) || reg.is_treasury(from@)) && to@ != from@),
{
    (reg.contains_treasury(to) || reg.contains_treasury(from)) && !same_bytes(to, from)
}

/// Whether an event concerns the treasury.
pub fn is_treasury_relevant(reg: &AddressRegistry, event: &TokenEvent) -> (relevant: bool)
    ensures
        relevant == treasury_relevant(*reg, event@),
{
    match event {
        TokenEvent::Erc20Transfer { from, to, value } => ends_touch_treasury(reg, from, to),
        TokenEvent::Erc721Transfer { from, to, token_id } => ends_touch_treasury(reg, from, to),
        TokenEvent::Erc1155TransferSingle { operator, from, to, id, value } => ends_touch_treasury(
            reg,
            from,
            to,
        ),
        TokenEvent::Erc1155TransferBatch { operator, from, to, ids, values } => ends_touch_treasury(
            reg,
            from,
            to,
        ),
        TokenEvent::WethDeposit { dst, wad } => reg.contains_treasury(dst),
        TokenEvent::WethWithdrawal { src, wad } => reg.contains_treasury(src),
    }
}

/// The token transfers of the logs of one call that concern the treasury.
/// A log gives the records of the event it encodes where that event has a
/// treasury address at one end, and nothing otherwise; the records stand in
/// the order of the logs.
pub fn get_erc_transfers_from_logs(
    reg: &AddressRegistry,
    logs: &Vec<Log>,
    hash: &Vec<u8>,
    call_index: u32,
) -> (transfers: Vec<TokenTransfer>)
    ensures
        transfers.deep_view() == treasury_token_records(*reg, hash@, call_index, logs@),
{
    let mut transfers: Vec<TokenTransfer> = Vec::new();
    let mut i: usize = 0;
    while i < logs.len()
        invariant
            i <= logs@.len(),
            transfers.deep_view() == treasury_token_records(
                *reg,
                hash@,
                call_index,
                logs@.take(i as int),
            ),
        decreases logs@.len() - i,
    {
        let log = &logs[i];
        assert(logs@.take(i + 1).drop_last() =~= logs@.take(i as int));
        let ghost before = transfers.deep_view();
        match decode_event(log) {
            Some(event) => {
                if is_treasury_relevant(reg, &event) {
                    let mut records = event_transfers(hash, call_index, log, &event);
                    let ghost added = records.deep_view();
                    transfers.append(&mut records);
                    assert(transfers.deep_view() =~= before + added);
                }
            },
            None => {},
        }
        assert(transfers.deep_view() =~= before + log_treasury_records(
            *reg,
            hash@,
            call_index,
            *log,
        ));
        i += 1;
    }
    assert(logs@.take(i as int) =~= logs@);
    transfers
}

/// The token transfers of the logs of one call that issued tokens emitted.
/// A log of an issued token gives the records of the transfer it encodes,
/// whoever the counterparties are; deposits and withdrawals give nothing.
pub fn get_erc_issued_transfers_from_logs(
    reg: &AddressRegistry,
    logs: &Vec<Log>,
    hash: &Vec<u8>,
    call_index: u32,
) -> (transfers: Vec<TokenTransfer>)
    ensures
        transfers.deep_view() == issued_token_records(*reg, hash@, call_index, logs@),
{
    let mut transfers: Vec<TokenTransfer> = Vec::new();
    let mut i: usize = 0;
    while i < logs.len()
        invariant
            i <= logs@.len(),
            transfers.deep_view() == issued_token_records(
                *reg,
                hash@,
                call_index,
                logs@.take(i as int),
            ),
        decreases logs@.len() - i,
    {
        let log = &logs[i];
        assert(logs@.take(i + 1).drop_last() =~= logs@.take(i as int));
        let ghost before = transfers.deep_view();
        if reg.contains_issued_token(&log.address) {
            match decode_event(log) {
                Some(event) => {
                    let applies = match event {
                        TokenEvent::WethDeposit { .. } => false,
                        TokenEvent::WethWithdrawal { .. } => false,
                        _ => true,
                    };
                    if applies {
                        let mut records = event_transfers(hash, call_index, log, &event);
                        let ghost added = records.deep_view();
                        transfers.append(&mut records);
                        assert(transfers.deep_view() =~= before + added);
                    }
                },
                None => {},
            }
        }
        assert(transfers.deep_view() =~= before + log_issued_records(
            *reg,
            hash@,
            call_index,
            *log,
        ));
        i += 1;
    }
    assert(logs@.take(i as int) =~= logs@);
    transfers
}

/// Whether the log encodes a batch transfer whose lists of ids and of
/// quantities differ in length.
pub open spec fn is_mismatched_batch(log: Log) -> bool {
    event_of(log) matches Some(TokenEventView::Erc1155TransferBatch { ids, values, .. })
        && ids.len() != values.len()
}

/// A log without treasury records can be left out: the records of the
/// other logs stay as they are.
pub proof fn lemma_treasury_records_without(
    reg: AddressRegistry,
    hash: Seq<u8>,
    call_index: u32,
    logs: Seq<Log>,
    i: int,
)
    requires
        0 <= i < logs.len(),
        log_treasury_records(reg, hash, call_index, logs[i]).len() == 0,
    ensures
        treasury_token_records(reg, hash, call_index, logs.remove(i)) == treasury_token_records(
            reg,
            hash,
            call_index,
            logs,
        ),
    decreases logs.len(),
{
    let all = treasury_token_records(reg, hash, call_index, logs);
    let rest = treasury_token_records(reg, hash, call_index, logs.drop_last());
    if i == logs.len() - 1 {
        assert(logs.remove(i) =~= logs.drop_last());
        assert(all =~= rest);
    } else {
        lemma_treasury_records_without(reg, hash, call_index, logs.drop_last(), i);
        assert(logs.remove(i).drop_last() =~= logs.drop_last().remove(i));
        assert(logs.remove(i).last() == logs.last());
    }
}

/// A log without issued-token records can be left out: the records of the
/// other logs stay as they are.
pub proof fn lemma_issued_records_without(
    reg: AddressRegistry,
    hash: Seq<u8>,
    call_index: u32,
    logs: Seq<Log>,
    i: int,
)
    requires
        0 <= i < logs.len(),
        log_issued_records(reg, hash, call_index, logs[i]).len() == 0,
    ensures
        issued_token_records(reg, hash, call_index, logs.remove(i)) == issued_token_records(
            reg,
            hash,
            call_index,
            logs,
        ),
    decreases logs.len(),
{
    let all = issued_token_records(reg, hash, call_index, logs);
    let rest = issued_token_records(reg, hash, call_index, logs.drop_last());
    if i == logs.len() - 1 {
        assert(logs.remove(i) =~= logs.drop_last());
        assert(all =~= rest);
    } else {
        lemma_issued_records_without(reg, hash, call_index, logs.drop_last(), i);
        assert(logs.remove(i).drop_last() =~= logs.drop_last().remove(i));
        assert(logs.remove(i).last() == logs.last());
    }
}

/// A batch transfer whose lists of ids and of quantities differ in length
/// gives no token transfer, under either selection, and the token transfers
/// of the other logs of the call are what they are without it.
pub proof fn lemma_mismatched_batch_gives_nothing(
    reg: AddressRegistry,
    hash: Seq<u8>,
    call_index: u32,
    logs: Seq<Log>,
    i: int,
)
    requires
        0 <= i < logs.len(),
        is_mismatched_batch(logs[i]),
    ensures
        log_treasury_records(reg, hash, call_index, logs[i]).len() == 0,
        log_issued_records(reg, hash, call_index, logs[i]).len() == 0,
        treasury_token_records(reg, hash, call_index, logs) == treasury_token_records(
            reg,
            hash,
            call_index,
            logs.remove(i),
        ),
        issued_token_records(reg, hash, call_index, logs) == issued_token_records(
            reg,
            hash,
            call_index,
            logs.remove(i),
        ),
{
    lemma_treasury_records_without(reg, hash, call_index, logs, i);
    lemma_issued_records_without(reg, hash, call_index, logs, i);
}

} // verus!
