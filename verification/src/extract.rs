//! The extraction of one block: every record of it, in its final order.

use crate::block::{Block, Call, TransactionTrace};
use crate::encoding::{hex_chars, hex_encode};
use crate::ordering::{ascending, call_position_key, log_index_key, position_le, stable_sort_by};
use crate::ordering::{sort_token_transfers, sort_value_transfers};
use crate::records::{CallTraceRecord, TokenTransfer, Transfers, TransfersView, ValueTransfer};
use crate::records::{CallTraceRecordView, TokenTransferView, ValueTransferView};
use crate::records::{REASON_REWARD_MINE_BLOCK, REASON_REWARD_MINE_UNCLE};
use crate::registry::AddressRegistry;
use crate::tokens::{get_erc_issued_transfers_from_logs, get_erc_transfers_from_logs};
use crate::tokens::{issued_token_records, treasury_token_records};
use crate::traces::{call_trace_record, get_call_traces};
use crate::value::{block_reward_records, call_value_record, gas_records};
use crate::value::{
    new_gas_transfer_from_call, new_value_transfer_block_rewards_from_block,
    new_value_transfer_from_call,
};
use vstd::prelude::*;

verus! {

/// Why a block could not be extracted.
#[derive(Debug, Clone, PartialEq)]
pub enum ExtractError {
    /// A transaction of the block has no call at all, so no root call.
    /// `transaction` is the position of the first such transaction.
    EmptyCallList { block_number: u64, transaction: usize },
}

/// Whether a call touches the treasury: its caller or the called address is
/// a treasury address.
pub open spec fn touches_treasury(reg: AddressRegistry, call: Call) -> bool {
    reg.is_treasury(call.caller@) || reg.is_treasury(call.address@)
}

/// The value transfer of one call: that of the value it carries, where the
/// call is eligible and touches the treasury.
pub open spec fn call_value_records(reg: AddressRegistry, trace: TransactionTrace, call: Call) -> Seq<
    ValueTransferView,
> {
    if call.is_eligible() && touches_treasury(reg, call) {
        match call_value_record(trace, call) {
            Some(record) => seq![record],
            None => Seq::empty(),
        }
    } else {
        Seq::empty()
    }
}

/// The treasury token transfers of one call: those of its logs, where the
/// call is eligible.
pub open spec fn call_token_records(reg: AddressRegistry, trace: TransactionTrace, call: Call) -> Seq<
    TokenTransferView,
> {
    if call.is_eligible() {
        treasury_token_records(reg, trace.hash@, call.index, call.logs@)
    } else {
        Seq::empty()
    }
}

/// The issued-token transfers of one call: those of its logs, where the
/// call is eligible.
pub open spec fn call_issued_records(reg: AddressRegistry, trace: TransactionTrace, call: Call) -> Seq<
    TokenTransferView,
> {
    if call.is_eligible() {
        issued_token_records(reg, trace.hash@, call.index, call.logs@)
    } else {
        Seq::empty()
    }
}

/// The value transfers of the calls, call after call.
pub open spec fn calls_value_records(
    reg: AddressRegistry,
    trace: TransactionTrace,
    calls: Seq<Call>,
) -> Seq<ValueTransferView>
    decreases calls.len(),
{
    if calls.len() == 0 {
        Seq::empty()
    } else {
        calls_value_records(reg, trace, calls.drop_last()) + call_value_records(
            reg,
            trace,
            calls.last(),
        )
    }
}

/// The treasury token transfers of the calls, call after call.
pub open spec fn calls_token_records(
    reg: AddressRegistry,
    trace: TransactionTrace,
    calls: Seq<Call>,
) -> Seq<TokenTransferView>
    decreases calls.len(),
{
    if calls.len() == 0 {
        Seq::empty()
    } else {
        calls_token_records(reg, trace, calls.drop_last()) + call_token_records(
            reg,
            trace,
            calls.last(),
        )
    }
}

/// The issued-token transfers of the calls, call after call.
pub open spec fn calls_issued_records(
    reg: AddressRegistry,
    trace: TransactionTrace,
    calls: Seq<Call>,
) -> Seq<TokenTransferView>
    decreases calls.len(),
{
    if calls.len() == 0 {
        Seq::empty()
    } else {
        calls_issued_records(reg, trace, calls.drop_last()) + call_issued_records(
            reg,
            trace,
            calls.last(),
        )
    }
}

/// The value transfers of a transaction: the records of its root call's
/// balance changes where the root caller is a treasury address, then the
/// value transfers of its calls.
pub open spec fn trace_value_records(reg: AddressRegistry, trace: TransactionTrace) -> Seq<
    ValueTransferView,
> {
    (if reg.is_treasury(trace.calls@[0].caller@) {
        gas_records(reg, trace, trace.calls@[0])
    } else {
        Seq::empty()
    }) + calls_value_records(reg, trace, trace.calls@)
}

/// The value transfers of the transactions, transaction after transaction.
pub open spec fn traces_value_records(reg: AddressRegistry, traces: Seq<TransactionTrace>) -> Seq<
    ValueTransferView,
>
    decreases traces.len(),
{
    if traces.len() == 0 {
        Seq::empty()
    } else {
        traces_value_records(reg, traces.drop_last()) + trace_value_records(reg, traces.last())
    }
}

/// The treasury token transfers of the transactions.
pub open spec fn traces_token_records(reg: AddressRegistry, traces: Seq<TransactionTrace>) -> Seq<
    TokenTransferView,
>
    decreases traces.len(),
{
    if traces.len() == 0 {
        Seq::empty()
    } else {
        traces_token_records(reg, traces.drop_last()) + calls_token_records(
            reg,
            traces.last(),
            traces.last().calls@,
        )
    }
}

/// The issued-token transfers of the transactions.
pub open spec fn traces_issued_records(reg: AddressRegistry, traces: Seq<TransactionTrace>) -> Seq<
    TokenTransferView,
>
    decreases traces.len(),
{
    if traces.len() == 0 {
        Seq::empty()
    } else {
        traces_issued_records(reg, traces.drop_last()) + calls_issued_records(
            reg,
            traces.last(),
            traces.last().calls@,
        )
    }
}

/// The value transfers of a block before ordering: the block-level records,
/// then those of the transactions.
pub open spec fn unsorted_value_records(reg: AddressRegistry, blk: Block) -> Seq<ValueTransferView> {
    block_reward_records(reg, blk) + traces_value_records(reg, blk.transaction_traces@)
}

/// Whether a value transfer counts when call traces are selected: any but a
/// mining reward.
pub open spec fn selects_trace(record: ValueTransferView) -> bool {
    record.reason != REASON_REWARD_MINE_BLOCK && record.reason != REASON_REWARD_MINE_UNCLE
}

/// Whether `hash` is the hash of a token transfer, of an issued-token
/// transfer, or of a value transfer that is no mining reward.
pub open spec fn is_qualifying(
    hash: Seq<char>,
    values: Seq<ValueTransferView>,
    tokens: Seq<TokenTransferView>,
    issued: Seq<TokenTransferView>,
) -> bool {
    ||| exists|i: int| 0 <= i < tokens.len() && (#[trigger] tokens[i]).tx_hash == hash
    ||| exists|i: int| 0 <= i < issued.len() && (#[trigger] issued[i]).tx_hash == hash
    ||| exists|i: int|
        0 <= i < values.len() && (#[trigger] values[i]).hash == hash && selects_trace(values[i])
}

/// The call-trace records of a block: one for every transaction whose hash
/// qualifies, in block order.
pub open spec fn trace_records(
    traces: Seq<TransactionTrace>,
    values: Seq<ValueTransferView>,
    tokens: Seq<TokenTransferView>,
    issued: Seq<TokenTransferView>,
) -> Seq<CallTraceRecordView>
    decreases traces.len(),
{
    if traces.len() == 0 {
        Seq::empty()
    } else {
        let before = trace_records(traces.drop_last(), values, tokens, issued);
        if is_qualifying(hex_chars(traces.last().hash@), values, tokens, issued) {
            before.push(call_trace_record(traces.last()))
        } else {
            before
        }
    }
}

/// Everything that extraction gives for a block.
pub open spec fn extracted(reg: AddressRegistry, blk: Block) -> TransfersView {
    let values = unsorted_value_records(reg, blk);
    let tokens = traces_token_records(reg, blk.transaction_traces@);
    let issued = traces_issued_records(reg, blk.transaction_traces@);
    TransfersView {
        block_number: blk.number,
        block_timestamp: blk.timestamp_seconds(),
        value_transfers: stable_sort_by(values, call_position_key()),
        token_transfers: stable_sort_by(tokens, log_index_key()),
        call_traces: trace_records(blk.transaction_traces@, values, tokens, issued),
        issued_token_transfers: stable_sort_by(issued, log_index_key()),
    }
}

/// Moves the records of `more` to the end of `all`.
fn extend_values(all: &mut Vec<ValueTransfer>, more: Vec<ValueTransfer>)
    ensures
        final(all).deep_view() == old(all).deep_view() + more.deep_view(),
{
    let mut more = more;
    let ghost before = all.deep_view();
    let ghost added = more.deep_view();
    all.append(&mut more);
    assert(all.deep_view() =~= before + added);
}

/// Moves the records of `more` to the end of `all`.
fn extend_tokens(all: &mut Vec<TokenTransfer>, more: Vec<TokenTransfer>)
    ensures
        final(all).deep_view() == old(all).deep_view() + more.deep_view(),
{
    let mut more = more;
    let ghost before = all.deep_view();
    let ghost added = more.deep_view();
    all.append(&mut more);
    assert(all.deep_view() =~= before + added);
}

/// Adds the records of one transaction to the three lists: those of the
/// gas of its root call where the root caller is a treasury address, then
/// for every eligible call the value it carries and the token transfers of
/// its logs.
pub fn collect_trace(
    reg: &AddressRegistry,
    trace: &TransactionTrace,
    value_transfers: &mut Vec<ValueTransfer>,
    token_transfers: &mut Vec<TokenTransfer>,
    issued_transfers: &mut Vec<TokenTransfer>,
)
    requires
        trace.calls@.len() > 0,
    ensures
        final(value_transfers).deep_view() == old(value_transfers).deep_view()
            + trace_value_records(*reg, *trace),
        final(token_transfers).deep_view() == old(token_transfers).deep_view()
            + calls_token_records(*reg, *trace, trace.calls@),
        final(issued_transfers).deep_view() == old(issued_transfers).deep_view()
            + calls_issued_records(*reg, *trace, trace.calls@),
{
    let ghost values_before = value_transfers.deep_view();
    let ghost tokens_before = token_transfers.deep_view();
    let ghost issued_before = issued_transfers.deep_view();
    let root_call = &trace.calls[0];
    if reg.contains_treasury(&root_call.caller) {
        match new_gas_transfer_from_call(reg, trace, root_call) {
            Some(transfer) => {
                extend_values(value_transfers, transfer);
            },
            None => {},
        }
    }
    let ghost gas = if reg.is_treasury(trace.calls@[0].caller@) {
        gas_records(*reg, *trace, trace.calls@[0])
    } else {
        Seq::empty()
    };
    assert(value_transfers.deep_view() =~= values_before + gas);

    let mut c: usize = 0;
    while c < trace.calls.len()
        invariant
            c <= trace.calls@.len(),
            value_transfers.deep_view() == values_before + gas + calls_value_records(
                *reg,
                *trace,
                trace.calls@.take(c as int),
            ),
            token_transfers.deep_view() == tokens_before + calls_token_records(
                *reg,
                *trace,
                trace.calls@.take(c as int),
            ),
            issued_transfers.deep_view() == issued_before + calls_issued_records(
                *reg,
                *trace,
                trace.calls@.take(c as int),
            ),
        decreases trace.calls@.len() - c,
    {
        let call = &trace.calls[c];
        assert(trace.calls@.take(c + 1).drop_last() =~= trace.calls@.take(c as int));
        let ghost values_now = value_transfers.deep_view();
        let ghost tokens_now = token_transfers.deep_view();
        let ghost issued_now = issued_transfers.deep_view();
        if call.eligible() {
            if reg.contains_treasury(&call.caller) || reg.contains_treasury(&call.address) {
                match new_value_transfer_from_call(trace, call) {
                    Some(transfer) => {
                        value_transfers.push(transfer);
                        assert(value_transfers.deep_view() =~= values_now.push(transfer@));
                    },
                    None => {},
                }
            }
            extend_tokens(
                token_transfers,
                get_erc_transfers_from_logs(reg, &call.logs, &trace.hash, call.index),
            );
            extend_tokens(
                issued_transfers,
                get_erc_issued_transfers_from_logs(reg, &call.logs, &trace.hash, call.index),
            );
        }
        assert(value_transfers.deep_view() =~= values_now + call_value_records(
            *reg,
            *trace,
            *call,
        ));
        assert(token_transfers.deep_view() =~= tokens_now + call_token_records(
            *reg,
            *trace,
            *call,
        ));
        assert(issued_transfers.deep_view() =~= issued_now + call_issued_records(
            *reg,
            *trace,
            *call,
        ));
        c += 1;
        assert(value_transfers.deep_view() =~= values_before + gas + calls_value_records(
            *reg,
            *trace,
            trace.calls@.take(c as int),
        ));
        assert(token_transfers.deep_view() =~= tokens_before + calls_token_records(
            *reg,
            *trace,
            trace.calls@.take(c as int),
        ));
        assert(issued_transfers.deep_view() =~= issued_before + calls_issued_records(
            *reg,
            *trace,
            trace.calls@.take(c as int),
        ));
    }
    assert(trace.calls@.take(c as int) =~= trace.calls@);
    assert(value_transfers.deep_view() =~= values_before + trace_value_records(*reg, *trace));
}

/// Whether `hash` is the hash of one of the token transfers.
fn among_token_hashes(transfers: &Vec<TokenTransfer>, hash: &String) -> (found: bool)
    ensures
        found == exists|i: int|
            0 <= i < transfers.deep_view().len() && (#[trigger] transfers.deep_view()[i]).tx_hash
                == hash@,
{
    let mut i: usize = 0;
    while i < transfers.len()
        invariant
            i <= transfers@.len(),
            forall|k: int| 0 <= k < i ==> (#[trigger] transfers.deep_view()[k]).tx_hash != hash@,
        decreases transfers@.len() - i,
    {
        if transfers[i].tx_hash == *hash {
            assert(transfers.deep_view()[i as int].tx_hash == hash@);
            return true;
        }
        assert(transfers.deep_view()[i as int].tx_hash != hash@);
        i += 1;
    }
    false
}

/// Whether `hash` is the hash of one of the value transfers that is no
/// mining reward.
fn among_value_hashes(transfers: &Vec<ValueTransfer>, hash: &String) -> (found: bool)
    ensures
        found == exists|i: int|
            0 <= i < transfers.deep_view().len() && (#[trigger] transfers.deep_view()[i]).hash
                == hash@ && selects_trace(transfers.deep_view()[i]),
{
    let mut i: usize = 0;
    while i < transfers.len()
        invariant
            i <= transfers@.len(),
            forall|k: int|
                0 <= k < i ==> !((#[trigger] transfers.deep_view()[k]).hash == hash@
                    && selects_trace(transfers.deep_view()[k])),
        decreases transfers@.len() - i,
    {
        let transfer = &transfers[i];
        assert(transfers.deep_view()[i as int] == transfer@);
        if transfer.reason != REASON_REWARD_MINE_BLOCK && transfer.reason
            != REASON_REWARD_MINE_UNCLE && transfer.hash == *hash {
            return true;
        }
        i += 1;
    }
    false
}

/// The records of one block.
///
/// Value transfers are the block-level rewards and withdrawals, the gas of
/// every transaction sent from a treasury address and the value carried by
/// every eligible call that touches the treasury, in ascending order of
/// transaction index and call index. Token transfers and issued-token
/// transfers are those of the logs of every eligible call, in ascending
/// order of log index. Both orders keep records of equal position as they
/// came. A call-trace record stands for every transaction that gave a token
/// transfer or a value transfer other than a mining reward. The timestamp
/// is that of the header, zero where there is none.
///
/// A block with a transaction that has no call is refused.
pub fn map_blocks(reg: &AddressRegistry, blk: &Block) -> (result: Result<Transfers, ExtractError>)
    ensures
        match result {
            Ok(transfers) => {
                &&& blk.has_root_calls()
                &&& transfers@ == extracted(*reg, *blk)
                &&& forall|i: int, j: int|
                    0 <= i <= j < transfers.token_transfers@.len()
                        ==> transfers.token_transfers@[i].log_index
                        <= transfers.token_transfers@[j].log_index
                &&& forall|i: int, j: int|
                    0 <= i <= j < transfers.issued_token_transfers@.len()
                        ==> transfers.issued_token_transfers@[i].log_index
                        <= transfers.issued_token_transfers@[j].log_index
                &&& forall|i: int, j: int|
                    0 <= i <= j < transfers.value_transfers@.len() ==> position_le(
                        transfers.value_transfers@[i]@,
                        transfers.value_transfers@[j]@,
                    )
            },
            Err(ExtractError::EmptyCallList { block_number, transaction }) => {
                &&& block_number == blk.number
                &&& transaction < blk.transaction_traces@.len()
                &&& blk.transaction_traces@[transaction as int].calls@.len() == 0
                &&& forall|k: int|
                    0 <= k < transaction ==> (#[trigger] blk.transaction_traces@[k]).calls@.len()
                        > 0
            },
        },
{
    let mut value_transfers: Vec<ValueTransfer> = Vec::new();
    let mut token_transfers: Vec<TokenTransfer> = Vec::new();
    let mut call_traces: Vec<CallTraceRecord> = Vec::new();
    let mut issued_transfers: Vec<TokenTransfer> = Vec::new();

    let mut k: usize = 0;
    while k < blk.transaction_traces.len()
        invariant
            k <= blk.transaction_traces@.len(),
            forall|j: int| 0 <= j < k ==> (#[trigger] blk.transaction_traces@[j]).calls@.len() > 0,
        decreases blk.transaction_traces@.len() - k,
    {
        if blk.transaction_traces[k].calls.len() == 0 {
            return Err(ExtractError::EmptyCallList { block_number: blk.number, transaction: k });
        }
        k += 1;
    }

    match new_value_transfer_block_rewards_from_block(reg, blk) {
        Some(transfers) => {
            extend_values(&mut value_transfers, transfers);
        },
        None => {},
    }
    assert(value_transfers.deep_view() =~= block_reward_records(*reg, *blk));

    let mut t: usize = 0;
    while t < blk.transaction_traces.len()
        invariant
            t <= blk.transaction_traces@.len(),
            blk.has_root_calls(),
            value_transfers.deep_view() == block_reward_records(*reg, *blk)
                + traces_value_records(*reg, blk.transaction_traces@.take(t as int)),
            token_transfers.deep_view() == traces_token_records(
                *reg,
                blk.transaction_traces@.take(t as int),
            ),
            issued_transfers.deep_view() == traces_issued_records(
                *reg,
                blk.transaction_traces@.take(t as int),
            ),
        decreases blk.transaction_traces@.len() - t,
    {
        let trace = &blk.transaction_traces[t];
        assert(blk.transaction_traces@.take(t + 1).drop_last() =~= blk.transaction_traces@.take(
            t as int,
        ));
        collect_trace(
            reg,
            trace,
            &mut value_transfers,
            &mut token_transfers,
            &mut issued_transfers,
        );
        t += 1;
        assert(value_transfers.deep_view() =~= block_reward_records(*reg, *blk)
            + traces_value_records(*reg, blk.transaction_traces@.take(t as int)));
    }
    assert(blk.transaction_traces@.take(t as int) =~= blk.transaction_traces@);
    let ghost values = value_transfers.deep_view();
    let ghost tokens = token_transfers.deep_view();
    let ghost issued = issued_transfers.deep_view();

    let mut n: usize = 0;
    while n < blk.transaction_traces.len()
        invariant
            n <= blk.transaction_traces@.len(),
            values == value_transfers.deep_view(),
            tokens == token_transfers.deep_view(),
            issued == issued_transfers.deep_view(),
            call_traces.deep_view() == trace_records(
                blk.transaction_traces@.take(n as int),
                values,
                tokens,
                issued,
            ),
        decreases blk.transaction_traces@.len() - n,
    {
        let trace = &blk.transaction_traces[n];
        assert(blk.transaction_traces@.take(n + 1).drop_last() =~= blk.transaction_traces@.take(
            n as int,
        ));
        let hash = hex_encode(trace.hash.as_slice());
        if among_token_hashes(&token_transfers, &hash) || among_token_hashes(
            &issued_transfers,
            &hash,
        ) || among_value_hashes(&value_transfers, &hash) {
            let ghost before = call_traces.deep_view();
            let record = get_call_traces(trace);
            call_traces.push(record);
            assert(call_traces.deep_view() =~= before.push(record@));
        }
        n += 1;
    }
    assert(blk.transaction_traces@.take(n as int) =~= blk.transaction_traces@);

    let block_timestamp: i64 = blk.timestamp();
    let token_transfers = sort_token_transfers(token_transfers);
    let issued_transfers = sort_token_transfers(issued_transfers);
    let value_transfers = sort_value_transfers(value_transfers);

    Ok(
        Transfers {
            block_number: blk.number,
            block_timestamp,
            value_transfers,
            token_transfers,
            issued_token_transfers: issued_transfers,
            call_traces,
        },
    )
}

/// A delegate call and a call whose state changes were reverted give no
/// record of their own: neither the value they carry nor a token transfer
/// of their logs. (The gas of a transaction is read from the balance
/// changes of its root call whether that call is eligible or not.)
pub proof fn lemma_ineligible_call_gives_nothing(
    reg: AddressRegistry,
    trace: TransactionTrace,
    call: Call,
)
    requires
        call.call_type == crate::block::CALL_TYPE_DELEGATE || call.state_reverted,
    ensures
        call_value_records(reg, trace, call).len() == 0,
        call_token_records(reg, trace, call).len() == 0,
        call_issued_records(reg, trace, call).len() == 0,
{
}

/// The records of a list of calls are those of the list without a delegate
/// or reverted call.
pub proof fn lemma_calls_records_without_ineligible(
    reg: AddressRegistry,
    trace: TransactionTrace,
    calls: Seq<Call>,
    i: int,
)
    requires
        0 <= i < calls.len(),
        !calls[i].is_eligible(),
    ensures
        calls_value_records(reg, trace, calls.remove(i)) == calls_value_records(reg, trace, calls),
        calls_token_records(reg, trace, calls.remove(i)) == calls_token_records(reg, trace, calls),
        calls_issued_records(reg, trace, calls.remove(i)) == calls_issued_records(
            reg,
            trace,
            calls,
        ),
    decreases calls.len(),
{
    if i == calls.len() - 1 {
        assert(calls.remove(i) =~= calls.drop_last());
        assert(calls_value_records(reg, trace, calls) =~= calls_value_records(
            reg,
            trace,
            calls.drop_last(),
        ));
        assert(calls_token_records(reg, trace, calls) =~= calls_token_records(
            reg,
            trace,
            calls.drop_last(),
        ));
        assert(calls_issued_records(reg, trace, calls) =~= calls_issued_records(
            reg,
            trace,
            calls.drop_last(),
        ));
    } else {
        lemma_calls_records_without_ineligible(reg, trace, calls.drop_last(), i);
        assert(calls.remove(i).drop_last() =~= calls.drop_last().remove(i));
        assert(calls.remove(i).last() == calls.last());
    }
}

/// The token transfers of an extraction never fall in log index, and its
/// value transfers never fall in transaction index, then call index.
pub proof fn lemma_extracted_is_ordered(reg: AddressRegistry, blk: Block)
    ensures
        ascending(extracted(reg, blk).token_transfers, log_index_key()),
        ascending(extracted(reg, blk).issued_token_transfers, log_index_key()),
        ascending(extracted(reg, blk).value_transfers, call_position_key()),
        forall|i: int, j: int|
            0 <= i <= j < extracted(reg, blk).token_transfers.len() ==> extracted(
                reg,
                blk,
            ).token_transfers[i].log_index <= extracted(reg, blk).token_transfers[j].log_index,
        forall|i: int, j: int|
            0 <= i <= j < extracted(reg, blk).value_transfers.len() ==> position_le(
                extracted(reg, blk).value_transfers[i],
                extracted(reg, blk).value_transfers[j],
            ),
{
    let out = extracted(reg, blk);
    crate::ordering::lemma_stable_sort_ascending(
        traces_token_records(reg, blk.transaction_traces@),
        log_index_key(),
    );
    crate::ordering::lemma_stable_sort_ascending(
        traces_issued_records(reg, blk.transaction_traces@),
        log_index_key(),
    );
    crate::ordering::lemma_stable_sort_ascending(
        unsorted_value_records(reg, blk),
        call_position_key(),
    );
    assert forall|i: int, j: int| 0 <= i <= j < out.token_transfers.len() implies out.token_transfers[i].log_index
        <= out.token_transfers[j].log_index by {
        assert(log_index_key()(out.token_transfers[i]) <= log_index_key()(out.token_transfers[j]));
    }
    assert forall|i: int, j: int| 0 <= i <= j < out.value_transfers.len() implies position_le(
        out.value_transfers[i],
        out.value_transfers[j],
    ) by {
        assert(call_position_key()(out.value_transfers[i]) <= call_position_key()(
            out.value_transfers[j],
        ));
    }
}

/// Extraction is a function of the registry and the block: two runs on the
/// same block give the same records, text for text.
pub proof fn lemma_extraction_repeats(
    reg: AddressRegistry,
    blk: Block,
    first: Transfers,
    second: Transfers,
)
    requires
        first@ == extracted(reg, blk),
        second@ == extracted(reg, blk),
    ensures
        first@ == second@,
        first.value_transfers.deep_view() == second.value_transfers.deep_view(),
        first.token_transfers.deep_view() == second.token_transfers.deep_view(),
        first.issued_token_transfers.deep_view() == second.issued_token_transfers.deep_view(),
        first.call_traces.deep_view() == second.call_traces.deep_view(),
{
}

/// Whether `record` is the call-trace record of one of the transactions
/// whose hash qualifies.
pub open spec fn records_a_qualifying(
    record: CallTraceRecordView,
    traces: Seq<TransactionTrace>,
    values: Seq<ValueTransferView>,
    tokens: Seq<TokenTransferView>,
    issued: Seq<TokenTransferView>,
) -> bool {
    exists|k: int|
        0 <= k < traces.len() && is_qualifying(
            hex_chars((#[trigger] traces[k]).hash@),
            values,
            tokens,
            issued,
        ) && record == call_trace_record(traces[k])
}

/// Every call-trace record is that of a transaction whose hash qualifies.
pub proof fn lemma_trace_records_qualify(
    traces: Seq<TransactionTrace>,
    values: Seq<ValueTransferView>,
    tokens: Seq<TokenTransferView>,
    issued: Seq<TokenTransferView>,
)
    ensures
        forall|r: int|
            0 <= r < trace_records(traces, values, tokens, issued).len()
                ==> records_a_qualifying(
                #[trigger] trace_records(traces, values, tokens, issued)[r],
                traces,
                values,
                tokens,
                issued,
            ),
    decreases traces.len(),
{
    if traces.len() > 0 {
        let rest = traces.drop_last();
        lemma_trace_records_qualify(rest, values, tokens, issued);
        let before = trace_records(rest, values, tokens, issued);
        let all = trace_records(traces, values, tokens, issued);
        assert forall|r: int| 0 <= r < all.len() implies records_a_qualifying(
            #[trigger] all[r],
            traces,
            values,
            tokens,
            issued,
        ) by {
            if r < before.len() {
                assert(all[r] == before[r]);
                assert(records_a_qualifying(before[r], rest, values, tokens, issued));
                let k = choose|k: int|
                    0 <= k < rest.len() && is_qualifying(
                        hex_chars((#[trigger] rest[k]).hash@),
                        values,
                        tokens,
                        issued,
                    ) && before[r] == call_trace_record(rest[k]);
                assert(traces[k] == rest[k]);
            } else {
                assert(all[r] == call_trace_record(traces[traces.len() - 1]));
            }
        }
    }
}

/// Every transaction whose hash qualifies has its call-trace record.
pub proof fn lemma_qualifying_has_trace_record(
    traces: Seq<TransactionTrace>,
    values: Seq<ValueTransferView>,
    tokens: Seq<TokenTransferView>,
    issued: Seq<TokenTransferView>,
    k: int,
)
    requires
        0 <= k < traces.len(),
        is_qualifying(hex_chars(traces[k].hash@), values, tokens, issued),
    ensures
        trace_records(traces, values, tokens, issued).contains(call_trace_record(traces[k])),
    decreases traces.len(),
{
    let rest = traces.drop_last();
    let before = trace_records(rest, values, tokens, issued);
    let all = trace_records(traces, values, tokens, issued);
    if k < traces.len() - 1 {
        assert(traces[k] == rest[k]);
        lemma_qualifying_has_trace_record(rest, values, tokens, issued, k);
        let r = choose|r: int| 0 <= r < before.len() && before[r] == call_trace_record(rest[k]);
        assert(all[r] == before[r]);
    } else {
        assert(all[all.len() - 1] == call_trace_record(traces[k]));
    }
}

} // verus!
