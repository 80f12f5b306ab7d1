//! Value transfers: block rewards and withdrawals, transaction-fee rewards,
//! gas bought and refunded, and value sent with calls.

use crate::amount::{be_distance, be_less, be_value};
use crate::amount::{amount_value, magnitude, magnitude_bytes, SignedTotal};
use crate::block::{reason_has_name, reason_is_defined};
use crate::block::{BalanceChange, Block, Call, TransactionTrace};
use crate::encoding::{hex_chars, hex_encode};
use crate::records::{ValueTransfer, ValueTransferView};
use crate::records::{
    REASON_GAS_BUY, REASON_GAS_REFUND, REASON_REWARD_MINE_BLOCK, REASON_REWARD_MINE_UNCLE,
    REASON_REWARD_TRANSACTION_FEE, REASON_TRANSFER, REASON_WITHDRAWAL,
};
use crate::registry::AddressRegistry;
use vstd::prelude::*;

verus! {

/// The three running totals that net balance changes into one record.
#[derive(Debug, Clone, Copy, PartialEq)]
pub enum Tally {
    /// Mining rewards and fee rewards among a block's own balance changes.
    BlockReward,
    /// Fee rewards among the balance changes of the transactions' root calls.
    TransactionFee,
    /// Gas bought and refunded among the balance changes of one root call.
    Gas,
}

/// Whether the balance change enters the tally: its address is a treasury
/// address and its reason is one of the tally's.
pub open spec fn tallied(reg: AddressRegistry, tally: Tally, change: BalanceChange) -> bool {
    reg.is_treasury(change.address@) && match tally {
        Tally::BlockReward => change.reason == REASON_REWARD_MINE_BLOCK || change.reason
            == REASON_REWARD_MINE_UNCLE || change.reason == REASON_REWARD_TRANSACTION_FEE,
        Tally::TransactionFee => change.reason == REASON_REWARD_TRANSACTION_FEE,
        Tally::Gas => change.reason == REASON_GAS_BUY || change.reason == REASON_GAS_REFUND,
    }
}

/// The sum of the movements of the tallied balance changes.
pub open spec fn total_delta(reg: AddressRegistry, tally: Tally, changes: Seq<BalanceChange>) -> int
    decreases changes.len(),
{
    if changes.len() == 0 {
        0
    } else {
        total_delta(reg, tally, changes.drop_last()) + if tallied(reg, tally, changes.last()) {
            changes.last().delta()
        } else {
            0
        }
    }
}

/// The address of the first tallied balance change; empty where there is none.
pub open spec fn first_tallied_address(
    reg: AddressRegistry,
    tally: Tally,
    changes: Seq<BalanceChange>,
) -> Seq<u8>
    decreases changes.len(),
{
    if changes.len() == 0 {
        Seq::empty()
    } else {
        let before = first_tallied_address(reg, tally, changes.drop_last());
        if before.len() > 0 {
            before
        } else if tallied(reg, tally, changes.last()) {
            changes.last().address@
        } else {
            Seq::empty()
        }
    }
}

/// The sum of the fee rewards over the root calls of the transactions.
pub open spec fn fee_total(reg: AddressRegistry, traces: Seq<TransactionTrace>) -> int
    decreases traces.len(),
{
    if traces.len() == 0 {
        0
    } else {
        fee_total(reg, traces.drop_last()) + total_delta(
            reg,
            Tally::TransactionFee,
            traces.last().calls@[0].balance_changes@,
        )
    }
}

/// The address of the first fee reward over the root calls of the
/// transactions; empty where there is none.
pub open spec fn fee_address(reg: AddressRegistry, traces: Seq<TransactionTrace>) -> Seq<u8>
    decreases traces.len(),
{
    if traces.len() == 0 {
        Seq::empty()
    } else {
        let before = fee_address(reg, traces.drop_last());
        if before.len() > 0 {
            before
        } else {
            first_tallied_address(
                reg,
                Tally::TransactionFee,
                traces.last().calls@[0].balance_changes@,
            )
        }
    }
}

/// The low thirty-two bits of an ordinal.
pub open spec fn low_u32(ordinal: u64) -> u32 {
    (ordinal % 0x1_0000_0000) as u32
}

/// A block-level record: no sender, no input, indices zero, the block's hash.
pub open spec fn block_level_record(
    block_hash: Seq<u8>,
    to: Seq<u8>,
    amount: nat,
    reason: i32,
) -> ValueTransferView {
    ValueTransferView {
        hash: hex_chars(block_hash),
        tx_index: 0,
        call_index: 0,
        from: Seq::empty(),
        to: hex_chars(to),
        value: hex_chars(magnitude_bytes(amount)),
        input: Seq::empty(),
        reason,
    }
}

/// A record of a transaction whose direction follows the sign of the
/// movement: a rise names the receiver, anything else the sender.
pub open spec fn directed_record(
    trace: TransactionTrace,
    call_index: u32,
    address: Seq<u8>,
    delta: int,
    reason: i32,
) -> ValueTransferView {
    ValueTransferView {
        hash: hex_chars(trace.hash@),
        tx_index: trace.index,
        call_index,
        from: if delta > 0 {
            Seq::empty()
        } else {
            hex_chars(address)
        },
        to: if delta > 0 {
            hex_chars(address)
        } else {
            Seq::empty()
        },
        value: hex_chars(magnitude_bytes(magnitude(delta))),
        input: Seq::empty(),
        reason,
    }
}

/// Whether a treasury balance change is a withdrawal.
pub open spec fn is_withdrawal(reg: AddressRegistry, change: BalanceChange) -> bool {
    change.reason == REASON_WITHDRAWAL && reg.is_treasury(change.address@)
}

/// One record for every withdrawal to a treasury address, in order.
pub open spec fn withdrawal_records(
    reg: AddressRegistry,
    block_hash: Seq<u8>,
    changes: Seq<BalanceChange>,
) -> Seq<ValueTransferView>
    decreases changes.len(),
{
    if changes.len() == 0 {
        Seq::empty()
    } else {
        let before = withdrawal_records(reg, block_hash, changes.drop_last());
        let change = changes.last();
        if is_withdrawal(reg, change) {
            before.push(
                block_level_record(
                    block_hash,
                    change.address@,
                    magnitude(change.delta()),
                    REASON_WITHDRAWAL,
                ),
            )
        } else {
            before
        }
    }
}

/// The single record of a reward total: present when the total is above zero.
pub open spec fn reward_record(block_hash: Seq<u8>, total: int, to: Seq<u8>) -> Seq<
    ValueTransferView,
> {
    if total > 0 {
        seq![block_level_record(block_hash, to, total as nat, REASON_REWARD_TRANSACTION_FEE)]
    } else {
        Seq::empty()
    }
}

/// The block-level records of a block: its withdrawals, then the netted
/// rewards of the block's own balance changes, then the netted fee rewards
/// of its transactions.
pub open spec fn block_reward_records(reg: AddressRegistry, blk: Block) -> Seq<ValueTransferView> {
    withdrawal_records(reg, blk.hash@, blk.balance_changes@) + reward_record(
        blk.hash@,
        total_delta(reg, Tally::BlockReward, blk.balance_changes@),
        first_tallied_address(reg, Tally::BlockReward, blk.balance_changes@),
    ) + reward_record(
        blk.hash@,
        fee_total(reg, blk.transaction_traces@),
        fee_address(reg, blk.transaction_traces@),
    )
}

/// Whether a balance change of a root call is reported by itself: its reason
/// is defined and is neither a transfer, a fee reward nor gas.
pub open spec fn reported_alone(reg: AddressRegistry, change: BalanceChange) -> bool {
    reg.is_treasury(change.address@) && reason_is_defined(change.reason) && change.reason
        != REASON_TRANSFER && change.reason != REASON_REWARD_TRANSACTION_FEE && change.reason
        != REASON_GAS_BUY && change.reason != REASON_GAS_REFUND
}

/// One record for every balance change that is reported by itself, in order.
pub open spec fn lone_records(
    reg: AddressRegistry,
    trace: TransactionTrace,
    changes: Seq<BalanceChange>,
) -> Seq<ValueTransferView>
    decreases changes.len(),
{
    if changes.len() == 0 {
        Seq::empty()
    } else {
        let before = lone_records(reg, trace, changes.drop_last());
        let change = changes.last();
        if reported_alone(reg, change) {
            before.push(
                directed_record(
                    trace,
                    low_u32(change.ordinal),
                    change.address@,
                    change.delta(),
                    change.reason,
                ),
            )
        } else {
            before
        }
    }
}

/// The single record of the netted gas of a transaction: present unless the
/// net is zero; a refund where it is above zero, a purchase where below.
pub open spec fn gas_record(reg: AddressRegistry, trace: TransactionTrace, changes: Seq<
    BalanceChange,
>) -> Seq<ValueTransferView> {
    let total = total_delta(reg, Tally::Gas, changes);
    if total == 0 {
        Seq::empty()
    } else {
        seq![
            directed_record(
                trace,
                low_u32(trace.end_ordinal),
                first_tallied_address(reg, Tally::Gas, changes),
                total,
                if total > 0 {
                    REASON_GAS_REFUND
                } else {
                    REASON_GAS_BUY
                },
            ),
        ]
    }
}

/// The records of a root call's balance changes: those reported by
/// themselves, then the netted gas.
pub open spec fn gas_records(reg: AddressRegistry, trace: TransactionTrace, root_call: Call) -> Seq<
    ValueTransferView,
> {
    lone_records(reg, trace, root_call.balance_changes@) + gas_record(
        reg,
        trace,
        root_call.balance_changes@,
    )
}

/// The record of the value sent with a call; none where the call carries no
/// value or an empty one.
pub open spec fn call_value_record(trace: TransactionTrace, call: Call) -> Option<
    ValueTransferView,
> {
    match call.value {
        Some(bytes) => if bytes@.len() == 0 {
            None
        } else {
            Some(
                ValueTransferView {
                    hash: hex_chars(trace.hash@),
                    tx_index: trace.index,
                    call_index: call.index,
                    from: hex_chars(call.caller@),
                    to: hex_chars(call.address@),
                    value: hex_chars(bytes@),
                    input: hex_chars(call.input@),
                    reason: REASON_TRANSFER,
                },
            )
        },
        None => None,
    }
}

/// Whether the balance change enters the tally.
fn is_tallied(reg: &AddressRegistry, tally: &Tally, change: &BalanceChange) -> (counted: bool)
    ensures
        counted == tallied(*reg, *tally, *change),
{
    let reason_counts = match tally {
        Tally::BlockReward => change.reason == REASON_REWARD_MINE_BLOCK || change.reason
            == REASON_REWARD_MINE_UNCLE || change.reason == REASON_REWARD_TRANSACTION_FEE,
        Tally::TransactionFee => change.reason == REASON_REWARD_TRANSACTION_FEE,
        Tally::Gas => change.reason == REASON_GAS_BUY || change.reason == REASON_GAS_REFUND,
    };
    reason_counts && reg.contains_treasury(&change.address)
}

/// Nets the tallied balance changes into `total`, and keeps in `address`
/// the address of the first of them unless an address is kept already.
pub fn tally_changes(
    reg: &AddressRegistry,
    tally: &Tally,
    changes: &Vec<BalanceChange>,
    total: &mut SignedTotal,
    address: &mut Vec<u8>,
)
    ensures
        final(total).value() == old(total).value() + total_delta(*reg, *tally, changes@),
        final(address)@ == if old(address)@.len() > 0 {
            old(address)@
        } else {
            first_tallied_address(*reg, *tally, changes@)
        },
{
    let mut i: usize = 0;
    while i < changes.len()
        invariant
            i <= changes@.len(),
            total.value() == old(total).value() + total_delta(
                *reg,
                *tally,
                changes@.take(i as int),
            ),
            address@ == if old(address)@.len() > 0 {
                old(address)@
            } else {
                first_tallied_address(*reg, *tally, changes@.take(i as int))
            },
        decreases changes@.len() - i,
    {
        let change = &changes[i];
        assert(changes@.take(i + 1).drop_last() =~= changes@.take(i as int));
        if is_tallied(reg, tally, change) {
            if address.len() == 0 {
                *address = copy_bytes(&change.address);
            }
            total.add_change(&change.new_value, &change.old_value);
        }
        i += 1;
    }
    assert(changes@.take(i as int) =~= changes@);
}

/// A copy of the bytes.
fn copy_bytes(bytes: &Vec<u8>) -> (copy: Vec<u8>)
    ensures
        copy@ == bytes@,
{
    let mut copy: Vec<u8> = Vec::new();
    let mut i: usize = 0;
    while i < bytes.len()
        invariant
            i <= bytes@.len(),
            copy@ == bytes@.take(i as int),
        decreases bytes@.len() - i,
    {
        copy.push(bytes[i]);
        i += 1;
        assert(copy@ =~= bytes@.take(i as int));
    }
    assert(bytes@.take(i as int) =~= bytes@);
    copy
}

/// A block-level record to `to` of the amount `amount` denotes.
fn block_level_transfer(block_hash: &Vec<u8>, to: &Vec<u8>, amount: &Vec<u8>, reason: i32) -> (record:
    ValueTransfer)
    ensures
        record@ == (ValueTransferView {
            hash: hex_chars(block_hash@),
            tx_index: 0,
            call_index: 0,
            from: Seq::empty(),
            to: hex_chars(to@),
            value: hex_chars(amount@),
            input: Seq::empty(),
            reason,
        }),
{
    ValueTransfer {
        call_index: 0,
        from: String::new(),
        to: hex_encode(to.as_slice()),
        value: hex_encode(amount.as_slice()),
        hash: hex_encode(block_hash.as_slice()),
        tx_index: 0,
        input: String::new(),
        reason,
    }
}

/// A record of a transaction with the direction that `rise` tells.
fn directed_transfer(
    trace: &TransactionTrace,
    call_index: u32,
    address: &Vec<u8>,
    rise: bool,
    amount: &Vec<u8>,
    reason: i32,
) -> (record: ValueTransfer)
    ensures
        record@ == (ValueTransferView {
            hash: hex_chars(trace.hash@),
            tx_index: trace.index,
            call_index,
            from: if rise {
                Seq::empty()
            } else {
                hex_chars(address@)
            },
            to: if rise {
                hex_chars(address@)
            } else {
                Seq::empty()
            },
            value: hex_chars(amount@),
            input: Seq::empty(),
            reason,
        }),
{
    let mut to_addr = String::new();
    let mut from_addr = String::new();
    if rise {
        to_addr = hex_encode(address.as_slice());
    } else {
        from_addr = hex_encode(address.as_slice());
    }
    ValueTransfer {
        call_index,
        from: from_addr,
        to: to_addr,
        value: hex_encode(amount.as_slice()),
        hash: hex_encode(trace.hash.as_slice()),
        tx_index: trace.index,
        input: String::new(),
        reason,
    }
}

/// The bytes of an optional amount; none where it is absent.
fn amount_bytes(amount: &Option<Vec<u8>>) -> (bytes: Vec<u8>)
    ensures
        be_value(bytes@) == amount_value(*amount),
{
    match amount {
        Some(bytes) => copy_bytes(bytes),
        None => Vec::new(),
    }
}

/// The block-level records of a block: one for every withdrawal to a
/// treasury address, then one for the netted rewards of the block's own
/// balance changes and one for the netted fee rewards of its transactions,
/// each where its total is above zero. `None` where there is no record.
pub fn new_value_transfer_block_rewards_from_block(reg: &AddressRegistry, blk: &Block) -> (result:
    Option<Vec<ValueTransfer>>)
    requires
        blk.has_root_calls(),
    ensures
        match result {
            Some(transfers) => transfers.len() > 0 && transfers.deep_view()
                == block_reward_records(*reg, *blk),
            None => block_reward_records(*reg, *blk).len() == 0,
        },
        forall|i: int|
            0 <= i < block_reward_records(*reg, *blk).len() ==> (#[trigger] block_reward_records(
                *reg,
                *blk,
            )[i]).from.len() == 0,
{
    let mut transfers: Vec<ValueTransfer> = Vec::new();
    let mut reward_value = SignedTotal::zero();
    let mut reward_address: Vec<u8> = Vec::new();

    let mut i: usize = 0;
    while i < blk.balance_changes.len()
        invariant
            i <= blk.balance_changes@.len(),
            transfers.deep_view() == withdrawal_records(
                *reg,
                blk.hash@,
                blk.balance_changes@.take(i as int),
            ),
        decreases blk.balance_changes@.len() - i,
    {
        let balance_change = &blk.balance_changes[i];
        assert(blk.balance_changes@.take(i + 1).drop_last() =~= blk.balance_changes@.take(
            i as int,
        ));
        if balance_change.reason == REASON_WITHDRAWAL && reg.contains_treasury(
            &balance_change.address,
        ) {
            let old_value = amount_bytes(&balance_change.old_value);
            let new_value = amount_bytes(&balance_change.new_value);
            let value = be_distance(old_value.as_slice(), new_value.as_slice());
            let ghost before = transfers.deep_view();
            let record = block_level_transfer(
                &blk.hash,
                &balance_change.address,
                &value,
                REASON_WITHDRAWAL,
            );
            transfers.push(record);
            assert(transfers.deep_view() =~= before.push(record@));
        }
        i += 1;
    }
    assert(blk.balance_changes@.take(i as int) =~= blk.balance_changes@);
    tally_changes(
        reg,
        &Tally::BlockReward,
        &blk.balance_changes,
        &mut reward_value,
        &mut reward_address,
    );
    if reward_value.is_positive() {
        let value = reward_value.magnitude_bytes();
        let ghost before = transfers.deep_view();
        let record = block_level_transfer(
            &blk.hash,
            &reward_address,
            &value,
            REASON_REWARD_TRANSACTION_FEE,
        );
        transfers.push(record);
        assert(transfers.deep_view() =~= before.push(record@));
    }
    let ghost after_block = transfers.deep_view();

    let mut fee_value = SignedTotal::zero();
    let mut fee_addr: Vec<u8> = Vec::new();
    let mut t: usize = 0;
    while t < blk.transaction_traces.len()
        invariant
            t <= blk.transaction_traces@.len(),
            blk.has_root_calls(),
            fee_value.value() == fee_total(*reg, blk.transaction_traces@.take(t as int)),
            fee_addr@ == fee_address(*reg, blk.transaction_traces@.take(t as int)),
        decreases blk.transaction_traces@.len() - t,
    {
        let trace = &blk.transaction_traces[t];
        assert(blk.transaction_traces@.take(t + 1).drop_last() =~= blk.transaction_traces@.take(
            t as int,
        ));
        let root_call = &trace.calls[0];
        tally_changes(
            reg,
            &Tally::TransactionFee,
            &root_call.balance_changes,
            &mut fee_value,
            &mut fee_addr,
        );
        t += 1;
    }
    assert(blk.transaction_traces@.take(t as int) =~= blk.transaction_traces@);
    if fee_value.is_positive() {
        let value = fee_value.magnitude_bytes();
        let ghost before = transfers.deep_view();
        let record = block_level_transfer(
            &blk.hash,
            &fee_addr,
            &value,
            REASON_REWARD_TRANSACTION_FEE,
        );
        transfers.push(record);
        assert(transfers.deep_view() =~= before.push(record@));
    }
    assert(transfers.deep_view() =~= block_reward_records(*reg, *blk));
    proof {
        lemma_block_records_have_no_sender(*reg, *blk);
    }
    if transfers.len() > 0 {
        return Some(transfers);
    }
    None
}

/// Every withdrawal record has an empty sender and the Withdrawal reason.
pub proof fn lemma_withdrawal_records(
    reg: AddressRegistry,
    block_hash: Seq<u8>,
    changes: Seq<BalanceChange>,
)
    ensures
        forall|i: int|
            0 <= i < withdrawal_records(reg, block_hash, changes).len() ==> {
                let record = #[trigger] withdrawal_records(reg, block_hash, changes)[i];
                &&& record.from.len() == 0
                &&& record.reason == REASON_WITHDRAWAL
                &&& exists|k: int|
                    0 <= k < changes.len() && is_withdrawal(reg, changes[k]) && record.to
                        == hex_chars(#[trigger] changes[k].address@)
            },
    decreases changes.len(),
{
    if changes.len() > 0 {
        lemma_withdrawal_records(reg, block_hash, changes.drop_last());
        let before = withdrawal_records(reg, block_hash, changes.drop_last());
        assert forall|i: int| 0 <= i < withdrawal_records(reg, block_hash, changes).len() implies {
            let record = #[trigger] withdrawal_records(reg, block_hash, changes)[i];
            &&& record.from.len() == 0
            &&& record.reason == REASON_WITHDRAWAL
            &&& exists|k: int|
                0 <= k < changes.len() && is_withdrawal(reg, changes[k]) && record.to == hex_chars(
                    #[trigger] changes[k].address@,
                )
        } by {
            let record = withdrawal_records(reg, block_hash, changes)[i];
            if i < before.len() {
                assert(record == before[i]);
                let k = choose|k: int|
                    0 <= k < changes.drop_last().len() && is_withdrawal(
                        reg,
                        changes.drop_last()[k],
                    ) && record.to == hex_chars(#[trigger] changes.drop_last()[k].address@);
                assert(changes[k] == changes.drop_last()[k]);
            } else {
                let k = changes.len() - 1;
                assert(is_withdrawal(reg, changes[k]) && record.to == hex_chars(
                    changes[k].address@,
                ));
            }
        }
    }
}

/// Every block-level record has an empty sender.
pub proof fn lemma_block_records_have_no_sender(reg: AddressRegistry, blk: Block)
    ensures
        forall|i: int|
            0 <= i < block_reward_records(reg, blk).len() ==> (#[trigger] block_reward_records(
                reg,
                blk,
            )[i]).from.len() == 0,
{
    lemma_withdrawal_records(reg, blk.hash@, blk.balance_changes@);
}

/// The records of a root call's balance changes at treasury addresses.
/// Gas bought and refunded is netted into one record, a refund where the net
/// is above zero and a purchase where it is below, none where it is zero.
/// A change with another defined reason, transfers and fee rewards apart,
/// gives a record of its own. Those come first, in order; the gas record is
/// last.
pub fn new_gas_transfer_from_call(
    reg: &AddressRegistry,
    trace: &TransactionTrace,
    root_call: &Call,
) -> (result: Option<Vec<ValueTransfer>>)
    ensures
        result matches Some(transfers) && transfers.deep_view() == gas_records(
            *reg,
            *trace,
            *root_call,
        ),
{
    let mut transfers: Vec<ValueTransfer> = Vec::new();
    let mut gas_value = SignedTotal::zero();
    let mut gas_address: Vec<u8> = Vec::new();
    let changes = &root_call.balance_changes;

    let mut i: usize = 0;
    while i < changes.len()
        invariant
            i <= changes@.len(),
            transfers.deep_view() == lone_records(*reg, *trace, changes@.take(i as int)),
        decreases changes@.len() - i,
    {
        let balance_change = &changes[i];
        assert(changes@.take(i + 1).drop_last() =~= changes@.take(i as int));
        if balance_change.reason != REASON_TRANSFER && balance_change.reason
            != REASON_REWARD_TRANSACTION_FEE && balance_change.reason != REASON_GAS_BUY
            && balance_change.reason != REASON_GAS_REFUND && reason_has_name(balance_change.reason)
            && reg.contains_treasury(&balance_change.address) {
            let old_value = amount_bytes(&balance_change.old_value);
            let new_value = amount_bytes(&balance_change.new_value);
            let rise = be_less(old_value.as_slice(), new_value.as_slice());
            let val_bytes = be_distance(new_value.as_slice(), old_value.as_slice());
            let ghost before = transfers.deep_view();
            let record = directed_transfer(
                trace,
                (balance_change.ordinal % 0x1_0000_0000) as u32,
                &balance_change.address,
                rise,
                &val_bytes,
                balance_change.reason,
            );
            transfers.push(record);
            assert(transfers.deep_view() =~= before.push(record@));
        }
        i += 1;
    }
    assert(changes@.take(i as int) =~= changes@);
    tally_changes(reg, &Tally::Gas, changes, &mut gas_value, &mut gas_address);

    let rise = gas_value.is_positive();
    if rise || gas_value.is_negative() {
        let reason = if rise {
            REASON_GAS_REFUND
        } else {
            REASON_GAS_BUY
        };
        let value = gas_value.magnitude_bytes();
        let ghost before = transfers.deep_view();
        let record = directed_transfer(
            trace,
            (trace.end_ordinal % 0x1_0000_0000) as u32,
            &gas_address,
            rise,
            &value,
            reason,
        );
        transfers.push(record);
        assert(transfers.deep_view() =~= before.push(record@));
    }
    assert(transfers.deep_view() =~= gas_records(*reg, *trace, *root_call));
    Some(transfers)
}

/// The record of the value sent with a call, from the caller to the called
/// address; `None` where the call carries no value or an empty one.
pub fn new_value_transfer_from_call(trace: &TransactionTrace, call: &Call) -> (result: Option<
    ValueTransfer,
>)
    ensures
        match result {
            Some(record) => call_value_record(*trace, *call) == Some(record@),
            None => call_value_record(*trace, *call) is None,
        },
{
    let v = match &call.value {
        Some(bytes) => hex_encode(bytes.as_slice()),
        None => {
            return None;
        },
    };
    if v.as_str().unicode_len() == 0 {
        return None;
    }
    Some(
        ValueTransfer {
            call_index: call.index,
            from: hex_encode(call.caller.as_slice()),
            to: hex_encode(call.address.as_slice()),
            value: v,
            hash: hex_encode(trace.hash.as_slice()),
            tx_index: trace.index,
            input: hex_encode(call.input.as_slice()),
            reason: REASON_TRANSFER,
        },
    )
}

} // verus!
