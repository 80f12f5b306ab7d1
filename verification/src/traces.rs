//! Call traces: the call tree of a transaction as one line of JSON.

use crate::block::{Call, TransactionTrace};
use crate::encoding::{decimal_chars, is_hex_text, signed_decimal_chars};
use crate::encoding::{hex_chars, hex_encode, i64_to_decimal, u64_to_decimal};
use crate::records::{CallTrace, CallTraceRecord, CallTraceRecordView, CallTraceView};
use vstd::prelude::*;
use vstd::utf8::encode_utf8;

verus! {

/// The bytes of an optional amount; none where it is absent.
pub open spec fn amount_or_empty(amount: Option<Vec<u8>>) -> Seq<u8> {
    match amount {
        Some(bytes) => bytes@,
        None => Seq::empty(),
    }
}

/// The trace row of a call: numbers and flags as they are, byte fields as
/// hexadecimal text, an absent value as no bytes.
pub open spec fn call_trace_of(call: Call) -> CallTraceView {
    CallTraceView {
        index: call.index,
        parent_index: call.parent_index,
        depth: call.depth,
        call_type: call.call_type,
        caller: hex_chars(call.caller@),
        address: hex_chars(call.address@),
        value: hex_chars(amount_or_empty(call.value)),
        gas_limit: call.gas_limit,
        gas_consumed: call.gas_consumed,
        return_data: hex_chars(call.return_data@),
        input: hex_chars(call.input@),
        executed_code: call.executed_code,
        suicide: call.suicide,
        status_failed: call.status_failed,
        status_reverted: call.status_reverted,
        failure_reason: hex_chars(encode_utf8(call.failure_reason@)),
        state_reverted: call.state_reverted,
    }
}

/// The trace rows of the calls, in order.
pub open spec fn call_traces_of(calls: Seq<Call>) -> Seq<CallTraceView> {
    Seq::new(calls.len(), |i: int| call_trace_of(calls[i]))
}

/// JSON text of a flag.
pub open spec fn bool_text(flag: bool) -> Seq<char> {
    if flag {
        "true"@
    } else {
        "false"@
    }
}

/// JSON text of a member that is written only where its flag is set.
pub open spec fn set_flag_text(flag: bool, member: Seq<char>) -> Seq<char> {
    if flag {
        member
    } else {
        Seq::empty()
    }
}

/// JSON object of one trace row, without spaces. The members stand in the
/// order of the fields; `executed_code` and `suicide` are left out where
/// false; text fields are written between double quotes as they stand.
pub open spec fn call_trace_json(row: CallTraceView) -> Seq<char> {
    "{\"index\":"@ + decimal_chars(row.index as nat) + ",\"parent_index\":"@ + decimal_chars(
        row.parent_index as nat,
    ) + ",\"depth\":"@ + decimal_chars(row.depth as nat) + ",\"call_type\":"@
        + signed_decimal_chars(row.call_type as int) + ",\"caller\":\""@ + row.caller
        + "\",\"address\":\""@ + row.address + "\",\"value\":\""@ + row.value
        + "\",\"gas_limit\":"@ + decimal_chars(row.gas_limit as nat) + ",\"gas_consumed\":"@
        + decimal_chars(row.gas_consumed as nat) + ",\"return_data\":\""@ + row.return_data
        + "\",\"input\":\""@ + row.input + "\""@ + set_flag_text(
        row.executed_code,
        ",\"executed_code\":true"@,
    ) + set_flag_text(row.suicide, ",\"suicide\":true"@) + ",\"status_failed\":"@ + bool_text(
        row.status_failed,
    ) + ",\"status_reverted\":"@ + bool_text(row.status_reverted) + ",\"failure_reason\":\""@
        + row.failure_reason + "\",\"state_reverted\":"@ + bool_text(row.state_reverted) + "}"@
}

/// The JSON objects of the rows with a comma between neighbours.
pub open spec fn call_traces_json_items(rows: Seq<CallTraceView>) -> Seq<char>
    decreases rows.len(),
{
    if rows.len() == 0 {
        Seq::empty()
    } else if rows.len() == 1 {
        call_trace_json(rows[0])
    } else {
        call_traces_json_items(rows.drop_last()) + ","@ + call_trace_json(rows.last())
    }
}

/// JSON array of the rows.
pub open spec fn call_traces_json(rows: Seq<CallTraceView>) -> Seq<char> {
    "["@ + call_traces_json_items(rows) + "]"@
}

/// The trace record of a transaction: its hash, its index, and the JSON
/// array of all its calls between single quotes.
pub open spec fn call_trace_record(trace: TransactionTrace) -> CallTraceRecordView {
    CallTraceRecordView {
        hash: hex_chars(trace.hash@),
        index: trace.index,
        traces: "'"@ + call_traces_json(call_traces_of(trace.calls@)) + "'"@,
    }
}

/// JSON text of a flag.
fn bool_str(flag: bool) -> (text: &'static str)
    ensures
        text@ == bool_text(flag),
{
    if flag {
        "true"
    } else {
        "false"
    }
}

/// The trace row of a call.
pub fn call_trace_from(call: &Call) -> (row: CallTrace)
    ensures
        row@ == call_trace_of(*call),
{
    let value = match &call.value {
        Some(bytes) => hex_encode(bytes.as_slice()),
        None => {
            assert(hex_chars(Seq::<u8>::empty()) =~= Seq::<char>::empty());
            String::new()
        },
    };
    CallTrace {
        index: call.index,
        parent_index: call.parent_index,
        depth: call.depth,
        call_type: call.call_type,
        caller: hex_encode(call.caller.as_slice()),
        address: hex_encode(call.address.as_slice()),
        value,
        gas_limit: call.gas_limit,
        gas_consumed: call.gas_consumed,
        return_data: hex_encode(call.return_data.as_slice()),
        input: hex_encode(call.input.as_slice()),
        executed_code: call.executed_code,
        suicide: call.suicide,
        status_failed: call.status_failed,
        status_reverted: call.status_reverted,
        failure_reason: hex_encode(call.failure_reason.as_str().as_bytes()),
        state_reverted: call.state_reverted,
    }
}

/// JSON object of one trace row.
pub fn call_trace_to_json(row: &CallTrace) -> (text: String)
    ensures
        text@ == call_trace_json(row@),
{
    let mut text = String::from_str("{\"index\":");
    text.append(u64_to_decimal(row.index as u64).as_str());
    text.append(",\"parent_index\":");
    text.append(u64_to_decimal(row.parent_index as u64).as_str());
    text.append(",\"depth\":");
    text.append(u64_to_decimal(row.depth as u64).as_str());
    text.append(",\"call_type\":");
    text.append(i64_to_decimal(row.call_type as i64).as_str());
    text.append(",\"caller\":\"");
    text.append(row.caller.as_str());
    text.append("\",\"address\":\"");
    text.append(row.address.as_str());
    text.append("\",\"value\":\"");
    text.append(row.value.as_str());
    text.append("\",\"gas_limit\":");
    text.append(u64_to_decimal(row.gas_limit).as_str());
    text.append(",\"gas_consumed\":");
    text.append(u64_to_decimal(row.gas_consumed).as_str());
    text.append(",\"return_data\":\"");
    text.append(row.return_data.as_str());
    text.append("\",\"input\":\"");
    text.append(row.input.as_str());
    text.append("\"");
    let ghost before_code = text@;
    if row.executed_code {
        text.append(",\"executed_code\":true");
    }
    assert(text@ =~= before_code + set_flag_text(row.executed_code, ",\"executed_code\":true"@));
    let ghost before_suicide = text@;
    if row.suicide {
        text.append(",\"suicide\":true");
    }
    assert(text@ =~= before_suicide + set_flag_text(row.suicide, ",\"suicide\":true"@));
    text.append(",\"status_failed\":");
    text.append(bool_str(row.status_failed));
    text.append(",\"status_reverted\":");
    text.append(bool_str(row.status_reverted));
    text.append(",\"failure_reason\":\"");
    text.append(row.failure_reason.as_str());
    text.append("\",\"state_reverted\":");
    text.append(bool_str(row.state_reverted));
    text.append("}");
    text
}

/// JSON array of the trace rows.
pub fn call_traces_to_json(rows: &Vec<CallTrace>) -> (text: String)
    ensures
        text@ == call_traces_json(rows.deep_view()),
{
    let mut items = String::new();
    let mut i: usize = 0;
    while i < rows.len()
        invariant
            i <= rows@.len(),
            items@ == call_traces_json_items(rows.deep_view().take(i as int)),
        decreases rows@.len() - i,
    {
        let object = call_trace_to_json(&rows[i]);
        assert(rows.deep_view().take(i + 1).drop_last() =~= rows.deep_view().take(i as int));
        assert(rows.deep_view().take(i + 1).last() == rows@[i as int]@);
        if i > 0 {
            items.append(",");
            items.append(object.as_str());
        } else {
            items = object;
            assert(rows.deep_view().take(1)[0] == rows@[0]@);
        }
        i += 1;
    }
    assert(rows.deep_view().take(i as int) =~= rows.deep_view());
    let mut text = String::from_str("[");
    text.append(items.as_str());
    text.append("]");
    text
}

/// The trace record of a transaction: every call of it, eligible or not, as
/// a row of the JSON array between single quotes.
pub fn get_call_traces(trace: &TransactionTrace) -> (record: CallTraceRecord)
    ensures
        record@ == call_trace_record(*trace),
{
    let mut traces: Vec<CallTrace> = Vec::new();
    let mut i: usize = 0;
    while i < trace.calls.len()
        invariant
            i <= trace.calls@.len(),
            traces.deep_view() == call_traces_of(trace.calls@).take(i as int),
        decreases trace.calls@.len() - i,
    {
        let ghost before = traces.deep_view();
        let row = call_trace_from(&trace.calls[i]);
        traces.push(row);
        assert(traces.deep_view() =~= before.push(row@));
        i += 1;
        assert(before.push(row@) =~= call_traces_of(trace.calls@).take(i as int));
    }
    assert(call_traces_of(trace.calls@).take(i as int) =~= call_traces_of(trace.calls@));
    let json = call_traces_to_json(&traces);
    let mut text = String::from_str("'");
    text.append(json.as_str());
    text.append("'");
    CallTraceRecord { hash: hex_encode(trace.hash.as_slice()), index: trace.index, traces: text }
}

/// Whether every text field of a trace row holds lowercase hexadecimal
/// digits only, so that it stands in JSON as it is.
pub open spec fn has_hex_text(row: CallTraceView) -> bool {
    &&& is_hex_text(row.caller)
    &&& is_hex_text(row.address)
    &&& is_hex_text(row.value)
    &&& is_hex_text(row.return_data)
    &&& is_hex_text(row.input)
    &&& is_hex_text(row.failure_reason)
}

/// The text fields of the trace row of a call hold hexadecimal digits only:
/// nothing in them needs escaping in JSON.
pub proof fn lemma_call_trace_has_hex_text(call: Call)
    ensures
        has_hex_text(call_trace_of(call)),
{
    crate::encoding::lemma_hex_chars_is_hex_text(call.caller@);
    crate::encoding::lemma_hex_chars_is_hex_text(call.address@);
    crate::encoding::lemma_hex_chars_is_hex_text(amount_or_empty(call.value));
    crate::encoding::lemma_hex_chars_is_hex_text(call.return_data@);
    crate::encoding::lemma_hex_chars_is_hex_text(call.input@);
    crate::encoding::lemma_hex_chars_is_hex_text(encode_utf8(call.failure_reason@));
}

} // verus!
