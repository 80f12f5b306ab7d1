//! The decoded block that extraction reads.

use substreams_ethereum::pb::eth::v2::balance_change::Reason;
use vstd::prelude::*;

verus! {

/// The call type of a delegate call.
pub const CALL_TYPE_DELEGATE: i32 = 3;

/// The reason codes that the block format defines: zero through eighteen.
pub open spec fn reason_is_defined(reason: i32) -> bool {
    0 <= reason <= 18
}

/// Asks `Reason::is_valid` of substreams-ethereum's block format whether the
/// code names a reason; its enumeration holds every code from 0 to 18.
#[verifier::external_body]
pub(crate) fn reason_has_name(reason: i32) -> (defined: bool)
    ensures
        defined == reason_is_defined(reason),
{
    Reason::is_valid(reason)
}

/// A recorded change of an account's native balance.
#[derive(Debug, Clone, PartialEq)]
pub struct BalanceChange {
    pub address: Vec<u8>,
    /// Balance before, as unsigned big-endian bytes.
    pub old_value: Option<Vec<u8>>,
    /// Balance after, as unsigned big-endian bytes.
    pub new_value: Option<Vec<u8>>,
    pub reason: i32,
    pub ordinal: u64,
}

/// A log entry emitted during a call.
#[derive(Debug, Clone, PartialEq)]
pub struct Log {
    /// The emitting contract.
    pub address: Vec<u8>,
    pub topics: Vec<Vec<u8>>,
    pub data: Vec<u8>,
    /// Position within the transaction.
    pub index: u32,
    /// Position within the block.
    pub block_index: u32,
}

/// One node of a transaction's call tree.
#[derive(Debug, Clone, PartialEq)]
pub struct Call {
    pub index: u32,
    pub parent_index: u32,
    pub depth: u32,
    pub call_type: i32,
    pub caller: Vec<u8>,
    pub address: Vec<u8>,
    /// Value sent with the call, as unsigned big-endian bytes.
    pub value: Option<Vec<u8>>,
    pub gas_limit: u64,
    pub gas_consumed: u64,
    pub return_data: Vec<u8>,
    pub input: Vec<u8>,
    pub executed_code: bool,
    pub suicide: bool,
    pub status_failed: bool,
    pub status_reverted: bool,
    pub failure_reason: String,
    pub state_reverted: bool,
    pub balance_changes: Vec<BalanceChange>,
    pub logs: Vec<Log>,
}

/// One transaction with its calls, the root call first.
#[derive(Debug, Clone, PartialEq)]
pub struct TransactionTrace {
    pub hash: Vec<u8>,
    pub index: u32,
    pub end_ordinal: u64,
    pub calls: Vec<Call>,
}

/// What extraction reads of a block header.
#[derive(Debug, Clone, PartialEq)]
pub struct BlockHeader {
    /// Unix seconds.
    pub timestamp: Option<i64>,
}

/// One decoded block.
#[derive(Debug, Clone, PartialEq)]
pub struct Block {
    pub hash: Vec<u8>,
    pub number: u64,
    pub header: Option<BlockHeader>,
    /// Balance changes at block level: rewards and withdrawals.
    pub balance_changes: Vec<BalanceChange>,
    pub transaction_traces: Vec<TransactionTrace>,
}

impl BalanceChange {
    /// The signed movement of the balance: new less old, absent values
    /// counting as zero.
    pub open spec fn delta(&self) -> int {
        crate::amount::amount_value(self.new_value) - crate::amount::amount_value(self.old_value)
    }
}

impl Call {
    /// A call counts for extraction unless it is a delegate call or its
    /// state changes were reverted.
    pub open spec fn is_eligible(&self) -> bool {
        self.call_type != CALL_TYPE_DELEGATE && !self.state_reverted
    }

    /// Whether the call counts for extraction.
    pub fn eligible(&self) -> (eligible: bool)
        ensures
            eligible == self.is_eligible(),
    {
        self.call_type != CALL_TYPE_DELEGATE && !self.state_reverted
    }
}

impl Block {
    /// Every transaction has a root call.
    pub open spec fn has_root_calls(&self) -> bool {
        forall|i: int|
            0 <= i < self.transaction_traces@.len() ==> (
            #[trigger] self.transaction_traces@[i]).calls@.len() > 0
    }

    /// The block's timestamp in Unix seconds, zero where the header or its
    /// timestamp is absent.
    pub open spec fn timestamp_seconds(&self) -> i64 {
        match self.header {
            Some(header) => match header.timestamp {
                Some(seconds) => seconds,
                None => 0,
            },
            None => 0,
        }
    }

    /// The block's timestamp in Unix seconds, zero where the header or its
    /// timestamp is absent.
    pub fn timestamp(&self) -> (seconds: i64)
        ensures
            seconds == self.timestamp_seconds(),
    {
        match &self.header {
            Some(header) => match header.timestamp {
                Some(seconds) => seconds,
                None => 0,
            },
            None => 0,
        }
    }
}

} // verus!
