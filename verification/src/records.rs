//! The records that extraction produces, and their mathematical views.

use vstd::prelude::*;

verus! {

/// Reason code of a reward for mining an uncle block.
pub const REASON_REWARD_MINE_UNCLE: i32 = 1;

/// Reason code of a reward for mining a block.
pub const REASON_REWARD_MINE_BLOCK: i32 = 2;

/// Reason code of a transfer of value between accounts.
pub const REASON_TRANSFER: i32 = 5;

/// Reason code of gas bought for a transaction.
pub const REASON_GAS_BUY: i32 = 7;

/// Reason code of a reward of transaction fees.
pub const REASON_REWARD_TRANSACTION_FEE: i32 = 8;

/// Reason code of gas refunded after a transaction.
pub const REASON_GAS_REFUND: i32 = 9;

/// Reason code of a withdrawal credited to an account.
pub const REASON_WITHDRAWAL: i32 = 16;

/// A movement of native value. Block-level rewards and fee aggregates leave
/// one of `from` and `to` empty; call-level transfers fill both.
#[derive(Debug, Clone, PartialEq)]
pub struct ValueTransfer {
    /// Hexadecimal hash of the transaction, or of the block for block-level records.
    pub hash: String,
    pub tx_index: u32,
    pub call_index: u32,
    pub from: String,
    pub to: String,
    /// Hexadecimal magnitude.
    pub value: String,
    pub input: String,
    pub reason: i32,
}

/// What a `ValueTransfer` holds, as plain values.
pub struct ValueTransferView {
    pub hash: Seq<char>,
    pub tx_index: u32,
    pub call_index: u32,
    pub from: Seq<char>,
    pub to: Seq<char>,
    pub value: Seq<char>,
    pub input: Seq<char>,
    pub reason: i32,
}

impl View for ValueTransfer {
    type V = ValueTransferView;

    open spec fn view(&self) -> ValueTransferView {
        ValueTransferView {
            hash: self.hash@,
            tx_index: self.tx_index,
            call_index: self.call_index,
            from: self.from@,
            to: self.to@,
            value: self.value@,
            input: self.input@,
            reason: self.reason,
        }
    }
}

impl DeepView for ValueTransfer {
    type V = ValueTransferView;

    open spec fn deep_view(&self) -> ValueTransferView {
        self@
    }
}

/// A movement of tokens, in one schema for every token standard.
#[derive(Debug, Clone, PartialEq)]
pub struct TokenTransfer {
    pub tx_hash: String,
    pub call_index: u32,
    /// Position of the log within the block.
    pub log_index: u64,
    pub from: String,
    pub to: String,
    /// Hexadecimal magnitude; `"01"` for a single non-fungible token.
    pub value: String,
    pub token_address: String,
    /// Decimal token id; empty for a fungible token.
    pub token_id: String,
}

/// What a `TokenTransfer` holds, as plain values.
pub struct TokenTransferView {
    pub tx_hash: Seq<char>,
    pub call_index: u32,
    pub log_index: u64,
    pub from: Seq<char>,
    pub to: Seq<char>,
    pub value: Seq<char>,
    pub token_address: Seq<char>,
    pub token_id: Seq<char>,
}

impl View for TokenTransfer {
    type V = TokenTransferView;

    open spec fn view(&self) -> TokenTransferView {
        TokenTransferView {
            tx_hash: self.tx_hash@,
            call_index: self.call_index,
            log_index: self.log_index,
            from: self.from@,
            to: self.to@,
            value: self.value@,
            token_address: self.token_address@,
            token_id: self.token_id@,
        }
    }
}

impl DeepView for TokenTransfer {
    type V = TokenTransferView;

    open spec fn deep_view(&self) -> TokenTransferView {
        self@
    }
}

/// The call tree of one transaction as text.
#[derive(Debug, Clone, PartialEq)]
pub struct CallTraceRecord {
    pub hash: String,
    pub index: u32,
    /// The calls as a JSON array between single quotes.
    pub traces: String,
}

/// What a `CallTraceRecord` holds, as plain values.
pub struct CallTraceRecordView {
    pub hash: Seq<char>,
    pub index: u32,
    pub traces: Seq<char>,
}

impl View for CallTraceRecord {
    type V = CallTraceRecordView;

    open spec fn view(&self) -> CallTraceRecordView {
        CallTraceRecordView { hash: self.hash@, index: self.index, traces: self.traces@ }
    }
}

impl DeepView for CallTraceRecord {
    type V = CallTraceRecordView;

    open spec fn deep_view(&self) -> CallTraceRecordView {
        self@
    }
}

/// One call of a transaction's call tree, with byte fields as hexadecimal text.
#[derive(Debug, Clone, PartialEq)]
pub struct CallTrace {
    pub index: u32,
    pub parent_index: u32,
    pub depth: u32,
    pub call_type: i32,
    pub caller: String,
    pub address: String,
    pub value: String,
    pub gas_limit: u64,
    pub gas_consumed: u64,
    pub return_data: String,
    pub input: String,
    pub executed_code: bool,
    pub suicide: bool,
    pub status_failed: bool,
    pub status_reverted: bool,
    pub failure_reason: String,
    pub state_reverted: bool,
}

/// What a `CallTrace` holds, as plain values.
pub struct CallTraceView {
    pub index: u32,
    pub parent_index: u32,
    pub depth: u32,
    pub call_type: i32,
    pub caller: Seq<char>,
    pub address: Seq<char>,
    pub value: Seq<char>,
    pub gas_limit: u64,
    pub gas_consumed: u64,
    pub return_data: Seq<char>,
    pub input: Seq<char>,
    pub executed_code: bool,
    pub suicide: bool,
    pub status_failed: bool,
    pub status_reverted: bool,
    pub failure_reason: Seq<char>,
    pub state_reverted: bool,
}

impl View for CallTrace {
    type V = CallTraceView;

    open spec fn view(&self) -> CallTraceView {
        CallTraceView {
            index: self.index,
            parent_index: self.parent_index,
            depth: self.depth,
            call_type: self.call_type,
            caller: self.caller@,
            address: self.address@,
            value: self.value@,
            gas_limit: self.gas_limit,
            gas_consumed: self.gas_consumed,
            return_data: self.return_data@,
            input: self.input@,
            executed_code: self.executed_code,
            suicide: self.suicide,
            status_failed: self.status_failed,
            status_reverted: self.status_reverted,
            failure_reason: self.failure_reason@,
            state_reverted: self.state_reverted,
        }
    }
}

impl DeepView for CallTrace {
    type V = CallTraceView;

    open spec fn deep_view(&self) -> CallTraceView {
        self@
    }
}

/// Everything extracted from one block.
#[derive(Debug, Clone, PartialEq)]
pub struct Transfers {
    pub block_number: u64,
    /// Unix seconds; zero where the block carries no timestamp.
    pub block_timestamp: i64,
    pub value_transfers: Vec<ValueTransfer>,
    pub token_transfers: Vec<TokenTransfer>,
    pub call_traces: Vec<CallTraceRecord>,
    pub issued_token_transfers: Vec<TokenTransfer>,
}

/// What a `Transfers` holds, as plain values.
pub struct TransfersView {
    pub block_number: u64,
    pub block_timestamp: i64,
    pub value_transfers: Seq<ValueTransferView>,
    pub token_transfers: Seq<TokenTransferView>,
    pub call_traces: Seq<CallTraceRecordView>,
    pub issued_token_transfers: Seq<TokenTransferView>,
}

impl View for Transfers {
    type V = TransfersView;

    open spec fn view(&self) -> TransfersView {
        TransfersView {
            block_number: self.block_number,
            block_timestamp: self.block_timestamp,
            value_transfers: self.value_transfers.deep_view(),
            token_transfers: self.token_transfers.deep_view(),
            call_traces: self.call_traces.deep_view(),
            issued_token_transfers: self.issued_token_transfers.deep_view(),
        }
    }
}

} // verus!
