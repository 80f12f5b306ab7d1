//! The change set: one keyed "create" row for every extracted record.
//!
//! Rows are collected in a `DatabaseChanges` of substreams-database-change.
//! What it holds is named by `table_changes`, and what one of its table
//! changes holds by `table_change`; the calls that fill them are stated over
//! those two names.

use crate::encoding::{decimal_chars, i64_to_decimal, signed_decimal_chars, u64_to_decimal};
use crate::records::{CallTraceRecord, TokenTransfer, Transfers, ValueTransfer};
use crate::records::{CallTraceRecordView, TokenTransferView, TransfersView, ValueTransferView};
use std::collections::HashMap;
use substreams::errors::Error;
use substreams_database_change::pb::database::table_change::Operation;
use substreams_database_change::pb::database::{DatabaseChanges, TableChange};
use vstd::prelude::*;

verus! {

/// The change set of substreams-database-change: a list of table changes.
#[verifier::external_type_specification]
#[verifier::external_body]
pub struct ExDatabaseChanges(DatabaseChanges);

/// One table change of a change set.
#[verifier::external_type_specification]
#[verifier::external_body]
pub struct ExTableChange(TableChange);

/// The error of a Substreams handler.
#[verifier::external_type_specification]
#[verifier::external_body]
pub struct ExError(Error);

/// The operation code of a row that is created.
pub const OPERATION_CREATE: i32 = 1;

/// The primary key of a table change.
pub enum PrimaryKeyView {
    Absent,
    Single(Seq<char>),
    /// Column names with their values.
    Composite(Map<Seq<char>, Seq<char>>),
}

/// One column of a table change.
pub struct FieldView {
    pub name: Seq<char>,
    pub new_value: Seq<char>,
    pub old_value: Seq<char>,
}

/// One table change.
pub struct TableChangeView {
    pub table: Seq<char>,
    pub primary_key: PrimaryKeyView,
    pub ordinal: u64,
    pub operation: i32,
    pub fields: Seq<FieldView>,
}

/// The table changes that a change set holds, in order.
pub uninterp spec fn table_changes(changes: DatabaseChanges) -> Seq<TableChangeView>;

/// What a table change holds.
pub uninterp spec fn table_change(change: TableChange) -> TableChangeView;

/// A created row without columns, keyed by two columns.
pub open spec fn created_row(
    table: Seq<char>,
    first_key: Seq<char>,
    first_value: Seq<char>,
    second_key: Seq<char>,
    second_value: Seq<char>,
    ordinal: u64,
) -> TableChangeView {
    TableChangeView {
        table,
        primary_key: PrimaryKeyView::Composite(
            Map::empty().insert(first_key, first_value).insert(second_key, second_value),
        ),
        ordinal,
        operation: OPERATION_CREATE,
        fields: Seq::empty(),
    }
}

/// A column with a new value and no old one.
pub open spec fn new_field(name: Seq<char>, value: Seq<char>) -> FieldView {
    FieldView { name, new_value: value, old_value: Seq::empty() }
}

/// The row with one more column at the end.
pub open spec fn row_with_field(
    row: TableChangeView,
    name: Seq<char>,
    value: Seq<char>,
) -> TableChangeView {
    TableChangeView {
        table: row.table,
        primary_key: row.primary_key,
        ordinal: row.ordinal,
        operation: row.operation,
        fields: row.fields.push(new_field(name, value)),
    }
}

/// `DatabaseChanges::default`: a change set without table changes.
#[verifier::external_body]
pub(crate) fn empty_changes() -> (changes: DatabaseChanges)
    ensures
        table_changes(changes) == Seq::<TableChangeView>::empty(),
{
    DatabaseChanges::default()
}

/// `DatabaseChanges::push_change_composite` with the operation Create: adds
/// at the end a table change of the table, keyed by the two columns, with
/// the ordinal and without fields, and hands it out to be filled.
#[verifier::external_body]
pub(crate) fn push_create<'a>(
    changes: &'a mut DatabaseChanges,
    table: &str,
    first_key: &str,
    first_value: &str,
    second_key: &str,
    second_value: &str,
    ordinal: u64,
) -> (row: &'a mut TableChange)
    ensures
        table_change(*row) == created_row(
            table@,
            first_key@,
            first_value@,
            second_key@,
            second_value@,
            ordinal,
        ),
        table_changes(*final(changes)) == table_changes(*old(changes)).push(
            table_change(*final(row)),
        ),
{
    let pk: HashMap<String, String> = HashMap::from(
        [
            (first_key.to_string(), first_value.to_string()),
            (second_key.to_string(), second_value.to_string()),
        ],
    );
    changes.push_change_composite(table, pk, ordinal, Operation::Create)
}

/// `TableChange::change` with no old value: adds at the end of the fields
/// one with the name and the new value.
#[verifier::external_body]
pub(crate) fn set_field(row: &mut TableChange, name: &str, value: &str)
    ensures
        table_change(*final(row)) == row_with_field(table_change(*old(row)), name@, value@),
{
    row.change(name, (None, value));
}

/// The row of a token transfer in `table`.
pub open spec fn token_transfer_row(
    table: Seq<char>,
    transfer: TokenTransferView,
    block_number: u64,
    block_timestamp: i64,
) -> TableChangeView {
    TableChangeView {
        table,
        primary_key: PrimaryKeyView::Composite(
            Map::empty().insert("tx_hash"@, transfer.tx_hash).insert(
                "log_index"@,
                decimal_chars(transfer.log_index as nat),
            ),
        ),
        ordinal: transfer.log_index,
        operation: OPERATION_CREATE,
        fields: seq![
            new_field("call_index"@, decimal_chars(transfer.call_index as nat)),
            new_field("from_address"@, transfer.from),
            new_field("to_address"@, transfer.to),
            new_field("block_number"@, decimal_chars(block_number as nat)),
            new_field("value"@, transfer.value),
            new_field("token_address"@, transfer.token_address),
            new_field("token_id"@, transfer.token_id),
            new_field("timestamp"@, signed_decimal_chars(block_timestamp as int)),
        ],
    }
}

/// The row of a value transfer.
pub open spec fn value_transfer_row(
    transfer: ValueTransferView,
    block_number: u64,
    block_timestamp: i64,
) -> TableChangeView {
    TableChangeView {
        table: "value_transfers"@,
        primary_key: PrimaryKeyView::Composite(
            Map::empty().insert("hash"@, transfer.hash).insert(
                "call_index"@,
                decimal_chars(transfer.call_index as nat),
            ),
        ),
        ordinal: transfer.call_index as u64,
        operation: OPERATION_CREATE,
        fields: seq![
            new_field("tx_index"@, decimal_chars(transfer.tx_index as nat)),
            new_field("from_address"@, transfer.from),
            new_field("to_address"@, transfer.to),
            new_field("block_number"@, decimal_chars(block_number as nat)),
            new_field("value"@, transfer.value),
            new_field("timestamp"@, signed_decimal_chars(block_timestamp as int)),
            new_field("reason"@, signed_decimal_chars(transfer.reason as int)),
        ],
    }
}

/// The row of a call-trace record.
pub open spec fn call_trace_row(record: CallTraceRecordView) -> TableChangeView {
    TableChangeView {
        table: "call_traces"@,
        primary_key: PrimaryKeyView::Composite(
            Map::empty().insert("tx_hash"@, record.hash).insert(
                "index"@,
                decimal_chars(record.index as nat),
            ),
        ),
        ordinal: record.index as u64,
        operation: OPERATION_CREATE,
        fields: seq![new_field("trace"@, record.traces)],
    }
}

/// The rows of the token transfers in `table`, in order.
pub open spec fn token_transfer_rows(
    table: Seq<char>,
    transfers: Seq<TokenTransferView>,
    block_number: u64,
    block_timestamp: i64,
) -> Seq<TableChangeView> {
    Seq::new(
        transfers.len(),
        |i: int| token_transfer_row(table, transfers[i], block_number, block_timestamp),
    )
}

/// The rows of the value transfers, in order.
pub open spec fn value_transfer_rows(
    transfers: Seq<ValueTransferView>,
    block_number: u64,
    block_timestamp: i64,
) -> Seq<TableChangeView> {
    Seq::new(
        transfers.len(),
        |i: int| value_transfer_row(transfers[i], block_number, block_timestamp),
    )
}

/// The rows of the call-trace records, in order.
pub open spec fn call_trace_rows(records: Seq<CallTraceRecordView>) -> Seq<TableChangeView> {
    Seq::new(records.len(), |i: int| call_trace_row(records[i]))
}

/// The rows of everything extracted from a block: value transfers, token
/// transfers, issued-token transfers, call traces.
pub open spec fn change_rows(transfers: TransfersView) -> Seq<TableChangeView> {
    value_transfer_rows(
        transfers.value_transfers,
        transfers.block_number,
        transfers.block_timestamp,
    ) + token_transfer_rows(
        "token_transfers"@,
        transfers.token_transfers,
        transfers.block_number,
        transfers.block_timestamp,
    ) + token_transfer_rows(
        "tokens_issued_transfers"@,
        transfers.issued_token_transfers,
        transfers.block_number,
        transfers.block_timestamp,
    ) + call_trace_rows(transfers.call_traces)
}

/// Adds the row of one token transfer in `table`.
fn push_token_transfer_row(
    changes: &mut DatabaseChanges,
    table: &str,
    transfer: &TokenTransfer,
    block_number: u64,
    block_timestamp: i64,
)
    ensures
        table_changes(*final(changes)) == table_changes(*old(changes)).push(
            token_transfer_row(table@, transfer@, block_number, block_timestamp),
        ),
{
    let row = push_create(
        changes,
        table,
        "tx_hash",
        transfer.tx_hash.as_str(),
        "log_index",
        u64_to_decimal(transfer.log_index).as_str(),
        transfer.log_index,
    );
    set_field(row, "call_index", u64_to_decimal(transfer.call_index as u64).as_str());
    set_field(row, "from_address", transfer.from.as_str());
    set_field(row, "to_address", transfer.to.as_str());
    set_field(row, "block_number", u64_to_decimal(block_number).as_str());
    set_field(row, "value", transfer.value.as_str());
    set_field(row, "token_address", transfer.token_address.as_str());
    set_field(row, "token_id", transfer.token_id.as_str());
    set_field(row, "timestamp", i64_to_decimal(block_timestamp).as_str());
    assert(table_change(*row).fields =~= token_transfer_row(
        table@,
        transfer@,
        block_number,
        block_timestamp,
    ).fields);
}

/// Adds one row to `table` for every token transfer, in order.
fn push_token_transfer_rows(
    changes: &mut DatabaseChanges,
    table: &str,
    transfers: &Vec<TokenTransfer>,
    block_number: u64,
    block_timestamp: i64,
)
    ensures
        table_changes(*final(changes)) == table_changes(*old(changes)) + token_transfer_rows(
            table@,
            transfers.deep_view(),
            block_number,
            block_timestamp,
        ),
{
    let ghost before = table_changes(*changes);
    let ghost rows = token_transfer_rows(
        table@,
        transfers.deep_view(),
        block_number,
        block_timestamp,
    );
    let mut i: usize = 0;
    assert(before + rows.take(0) =~= before);
    while i < transfers.len()
        invariant
            i <= transfers@.len(),
            rows == token_transfer_rows(
                table@,
                transfers.deep_view(),
                block_number,
                block_timestamp,
            ),
            table_changes(*changes) == before + rows.take(i as int),
        decreases transfers@.len() - i,
    {
        push_token_transfer_row(changes, table, &transfers[i], block_number, block_timestamp);
        assert(transfers.deep_view()[i as int] == transfers@[i as int]@);
        i += 1;
        assert((before + rows.take(i - 1)).push(rows[i - 1]) =~= before + rows.take(i as int));
    }
    assert(rows.take(i as int) =~= rows);
}

/// Adds one row to `token_transfers` for every token transfer, keyed by
/// transaction hash and log index.
pub fn push_create_token_transfers(
    changes: &mut DatabaseChanges,
    transfers: &Vec<TokenTransfer>,
    block_number: u64,
    block_timestamp: i64,
)
    ensures
        table_changes(*final(changes)) == table_changes(*old(changes)) + token_transfer_rows(
            "token_transfers"@,
            transfers.deep_view(),
            block_number,
            block_timestamp,
        ),
{
    push_token_transfer_rows(
        changes,
        "token_transfers",
        transfers,
        block_number,
        block_timestamp,
    );
}

/// Adds one row to `tokens_issued_transfers` for every issued-token
/// transfer, keyed by transaction hash and log index.
pub fn push_create_issued_token_transfers(
    changes: &mut DatabaseChanges,
    transfers: &Vec<TokenTransfer>,
    block_number: u64,
    block_timestamp: i64,
)
    ensures
        table_changes(*final(changes)) == table_changes(*old(changes)) + token_transfer_rows(
            "tokens_issued_transfers"@,
            transfers.deep_view(),
            block_number,
            block_timestamp,
        ),
{
    push_token_transfer_rows(
        changes,
        "tokens_issued_transfers",
        transfers,
        block_number,
        block_timestamp,
    );
}

/// Adds one row to `value_transfers` for every value transfer, keyed by
/// hash and call index.
pub fn push_create_value_transfers(
    changes: &mut DatabaseChanges,
    transfers: &Vec<ValueTransfer>,
    block_number: u64,
    block_timestamp: i64,
)
    ensures
        table_changes(*final(changes)) == table_changes(*old(changes)) + value_transfer_rows(
            transfers.deep_view(),
            block_number,
            block_timestamp,
        ),
{
    let ghost before = table_changes(*changes);
    let ghost rows = value_transfer_rows(transfers.deep_view(), block_number, block_timestamp);
    let mut i: usize = 0;
    assert(before + rows.take(0) =~= before);
    while i < transfers.len()
        invariant
            i <= transfers@.len(),
            rows == value_transfer_rows(transfers.deep_view(), block_number, block_timestamp),
            table_changes(*changes) == before + rows.take(i as int),
        decreases transfers@.len() - i,
    {
        let transfer = &transfers[i];
        let row = push_create(
            changes,
            "value_transfers",
            "hash",
            transfer.hash.as_str(),
            "call_index",
            u64_to_decimal(transfer.call_index as u64).as_str(),
            transfer.call_index as u64,
        );
        set_field(row, "tx_index", u64_to_decimal(transfer.tx_index as u64).as_str());
        set_field(row, "from_address", transfer.from.as_str());
        set_field(row, "to_address", transfer.to.as_str());
        set_field(row, "block_number", u64_to_decimal(block_number).as_str());
        set_field(row, "value", transfer.value.as_str());
        set_field(row, "timestamp", i64_to_decimal(block_timestamp).as_str());
        set_field(row, "reason", i64_to_decimal(transfer.reason as i64).as_str());
        assert(transfers.deep_view()[i as int] == transfer@);
        assert(table_change(*row).fields =~= rows[i as int].fields);
        i += 1;
        assert((before + rows.take(i - 1)).push(rows[i - 1]) =~= before + rows.take(i as int));
    }
    assert(rows.take(i as int) =~= rows);
}

/// Adds one row to `call_traces` for every call-trace record, keyed by
/// transaction hash and index, with the trace as its one column.
pub fn push_create_call_traces(changes: &mut DatabaseChanges, call_traces: &Vec<CallTraceRecord>)
    ensures
        table_changes(*final(changes)) == table_changes(*old(changes)) + call_trace_rows(
            call_traces.deep_view(),
        ),
{
    let ghost before = table_changes(*changes);
    let ghost rows = call_trace_rows(call_traces.deep_view());
    let mut i: usize = 0;
    assert(before + rows.take(0) =~= before);
    while i < call_traces.len()
        invariant
            i <= call_traces@.len(),
            rows == call_trace_rows(call_traces.deep_view()),
            table_changes(*changes) == before + rows.take(i as int),
        decreases call_traces@.len() - i,
    {
        let call = &call_traces[i];
        let row = push_create(
            changes,
            "call_traces",
            "tx_hash",
            call.hash.as_str(),
            "index",
            u64_to_decimal(call.index as u64).as_str(),
            call.index as u64,
        );
        set_field(row, "trace", call.traces.as_str());
        assert(call_traces.deep_view()[i as int] == call@);
        assert(table_change(*row).fields =~= rows[i as int].fields);
        i += 1;
        assert((before + rows.take(i - 1)).push(rows[i - 1]) =~= before + rows.take(i as int));
    }
    assert(rows.take(i as int) =~= rows);
}

/// Adds to the change set one "create" row for every record of
/// `transfers`: the value transfers, then the token transfers, then the
/// issued-token transfers, then the call traces, each group in its order.
pub fn transfers_to_database_changes(changes: &mut DatabaseChanges, transfers: Transfers)
    ensures
        table_changes(*final(changes)) == table_changes(*old(changes)) + change_rows(transfers@),
{
    let ghost before = table_changes(*changes);
    push_create_value_transfers(
        changes,
        &transfers.value_transfers,
        transfers.block_number,
        transfers.block_timestamp,
    );
    push_create_token_transfers(
        changes,
        &transfers.token_transfers,
        transfers.block_number,
        transfers.block_timestamp,
    );
    push_create_issued_token_transfers(
        changes,
        &transfers.issued_token_transfers,
        transfers.block_number,
        transfers.block_timestamp,
    );
    push_create_call_traces(changes, &transfers.call_traces);
    assert(table_changes(*changes) =~= before + change_rows(transfers@));
}

/// The change set of everything extracted from a block.
pub fn db_out(transfers: Transfers) -> (result: Result<DatabaseChanges, Error>)
    ensures
        result matches Ok(changes) && table_changes(changes) == change_rows(transfers@),
{
    let mut database_changes: DatabaseChanges = empty_changes();
    let ghost rows = change_rows(transfers@);
    transfers_to_database_changes(&mut database_changes, transfers);
    assert(table_changes(database_changes) =~= rows);
    Ok(database_changes)
}

} // verus!
