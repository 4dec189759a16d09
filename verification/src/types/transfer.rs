//! The transfer event: a transaction that one known exchange sent.

use crate::text::{owned_or_empty, str_eq, text_or_empty};
use crate::types::block::{BlockJson, SpecBlock, SpecTransaction};
use crate::types::finding::finding_view;
use crate::types::scan::{
    first_from, lemma_first_found, lemma_first_from_meaning, lemma_none_found, position_view,
};
use vstd::prelude::*;

verus! {

/// The mathematical value of a [`TransferFromFixedFloatJson`].
pub struct SpecTransferFromFixedFloatJson {
    pub recipient: Seq<char>,
    pub value: u64,
    pub block_timestamp: u64,
    pub block: u64,
    pub transaction_hash: Seq<char>,
}

/// What is reported of a transfer out of the exchange.
#[derive(Debug, PartialEq, Eq)]
pub struct TransferFromFixedFloatJson {
    pub recipient: String,
    pub value: u64,
    pub block_timestamp: u64,
    pub block: u64,
    pub transaction_hash: String,
}

impl View for TransferFromFixedFloatJson {
    type V = SpecTransferFromFixedFloatJson;

    open spec fn view(&self) -> SpecTransferFromFixedFloatJson {
        SpecTransferFromFixedFloatJson {
            recipient: self.recipient@,
            value: self.value,
            block_timestamp: self.block_timestamp,
            block: self.block,
            transaction_hash: self.transaction_hash@,
        }
    }
}

/// Whether a transaction is a transfer out of the exchange: the exchange
/// sent it, and it names a recipient.
pub open spec fn is_exchange_transfer(tx: SpecTransaction) -> bool {
    tx.from == Some(TransferFromFixedFloatEvent::FIXED_FLOAT_ADDRESS@) && tx.to.address() is Some
}

/// What is reported of the exchange's transfer `tx` of `block`. A transfer
/// that states no value counts as one of zero.
pub open spec fn transfer_report(
    block: SpecBlock,
    tx: SpecTransaction,
) -> SpecTransferFromFixedFloatJson
    recommends
        is_exchange_transfer(tx),
        block.well_formed(),
{
    SpecTransferFromFixedFloatJson {
        recipient: tx.to.address()->0,
        value: match tx.value {
            Some(v) => v,
            None => 0,
        },
        block_timestamp: block.timestamp_value()->0,
        block: block.number_value()->0,
        transaction_hash: text_or_empty(tx.hash),
    }
}

/// The test that the search for a transfer applies to each position.
pub open spec fn exchange_transfer_at(block: SpecBlock) -> spec_fn(int) -> bool {
    |i: int| is_exchange_transfer(block.transactions[i])
}

/// The position of the block's first transfer out of the exchange.
pub open spec fn first_exchange_transfer(block: SpecBlock) -> Option<int> {
    first_from(0, block.transactions.len() as int, exchange_transfer_at(block))
}

/// What the transfer classifier finds in a block: the report of the
/// exchange's first transfer under the classifier's kind, or nothing.
pub open spec fn transfer_event(block: SpecBlock) -> Option<(u32, SpecTransferFromFixedFloatJson)> {
    match first_exchange_transfer(block) {
        Some(i) => Some(
            (TransferFromFixedFloatEvent::ID, transfer_report(block, block.transactions[i])),
        ),
        None => None,
    }
}

/// The classifier of transfers out of one known exchange.
pub struct TransferFromFixedFloatEvent;

impl TransferFromFixedFloatEvent {
    /// The kind of this event.
    pub const ID: u32 = 2;

    /// The exchange's address, as transactions spell it.
    pub const FIXED_FLOAT_ADDRESS: &'static str = "0x4e5b2e1dc63f6b91cb6cd759936495434c7e972f";

    /// The position of the exchange's first transfer in the block.
    pub fn position(&self, block: &BlockJson) -> (at: Option<usize>)
        ensures
            position_view(at) == first_exchange_transfer(block@),
    {
        let txs = block.transactions();
        let n = txs.len();
        let mut i: usize = 0;
        while i < n
            invariant
                i <= n,
                n == txs@.len(),
                n == block@.transactions.len(),
                forall|j: int| 0 <= j < n ==> (#[trigger] txs@[j])@ == block@.transactions[j],
                forall|j: int| 0 <= j < i ==> !#[trigger] exchange_transfer_at(block@)(j),
            decreases n - i,
        {
            let tx = &txs[i];
            if let Some(from_address) = tx.from() {
                if str_eq(from_address, Self::FIXED_FLOAT_ADDRESS) && tx.to().is_some() {
                    proof {
                        lemma_first_found(0, n as int, exchange_transfer_at(block@), i as int);
                    }
                    return Some(i);
                }
            }
            i += 1;
        }
        proof {
            lemma_none_found(0, n as int, exchange_transfer_at(block@));
        }
        None
    }

    /// Finds the exchange's first transfer in the block.
    ///
    /// A block that holds such a transfer must have its number and
    /// timestamp.
    pub fn event(&self, block: &BlockJson) -> (found: Option<(u32, TransferFromFixedFloatJson)>)
        requires
            first_exchange_transfer(block@) is Some ==> block@.well_formed(),
        ensures
            finding_view(found) == transfer_event(block@),
    {
        match self.position(block) {
            Some(i) => {
                proof {
                    lemma_first_from_meaning(
                        0,
                        block@.transactions.len() as int,
                        exchange_transfer_at(block@),
                    );
                }
                let txs = block.transactions();
                let tx = &txs[i];
                let json = TransferFromFixedFloatJson {
                    recipient: owned_or_empty(tx.to()),
                    block: block.number(),
                    value: match tx.value() {
                        Some(v) => v,
                        None => 0,
                    },
                    block_timestamp: block.timestamp(),
                    transaction_hash: owned_or_empty(tx.hash()),
                };
                Some((Self::ID, json))
            },
            None => None,
        }
    }
}

} // verus!
