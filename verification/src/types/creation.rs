//! The creation event: a watched account deploys a contract.
//!
//! The address of a created contract stands in the transaction's receipt,
//! which has to be fetched from the chain. The classifier fetches nothing
//! itself. It works in steps: a step either finishes the classification or
//! names the receipt it needs, and the next step takes what the lookup
//! gave. Whoever drives the steps looks each receipt up once.

use crate::text::owned_or_empty;
use crate::types::block::{
    BlockJson, SpecBlock, SpecReceipt, SpecRecipient, SpecTransaction, TransactionReceiptJson,
};
use crate::types::scan::{first_from, lemma_first_found, lemma_none_found, position_view};
use vstd::hash_set::StringHashSet;
use vstd::prelude::*;

verus! {

/// The mathematical value of a [`SuspiciousContractCreatedJson`].
pub struct SpecSuspiciousContractCreatedJson {
    pub creator: Seq<char>,
    pub contract_code: Seq<char>,
    pub contract_address: Seq<char>,
    pub block_timestamp: u64,
    pub block: u64,
    pub transaction_hash: Seq<char>,
}

/// What is reported of a contract that a suspicious account created.
#[derive(Debug, PartialEq, Eq)]
pub struct SuspiciousContractCreatedJson {
    pub creator: String,
    pub contract_code: String,
    pub contract_address: String,
    pub block_timestamp: u64,
    pub block: u64,
    pub transaction_hash: String,
}

impl View for SuspiciousContractCreatedJson {
    type V = SpecSuspiciousContractCreatedJson;

    open spec fn view(&self) -> SpecSuspiciousContractCreatedJson {
        SpecSuspiciousContractCreatedJson {
            creator: self.creator@,
            contract_code: self.contract_code@,
            contract_address: self.contract_address@,
            block_timestamp: self.block_timestamp,
            block: self.block,
            transaction_hash: self.transaction_hash@,
        }
    }
}

/// The mathematical value of a [`Step`].
pub enum SpecStep<T> {
    Finished(Option<(u32, T)>),
    NeedsReceipt { index: int, hash: Seq<char> },
}

/// Where a classification stands that may need receipts from the chain.
///
/// The classifier decides and the caller fetches: on `NeedsReceipt` the
/// caller looks the receipt up, once, and hands the outcome to `resume`.
#[derive(Debug, PartialEq, Eq)]
pub enum Step<T> {
    /// The classification is over, with this finding or with none.
    Finished(Option<(u32, T)>),
    /// The receipt of the transaction at `index`, whose hash is `hash`, is
    /// needed to go on.
    NeedsReceipt { index: usize, hash: String },
}

impl<T: View> View for Step<T> {
    type V = SpecStep<T::V>;

    open spec fn view(&self) -> SpecStep<T::V> {
        match self {
            Step::Finished(Some((id, json))) => SpecStep::Finished(Some((*id, json@))),
            Step::Finished(None) => SpecStep::Finished(None),
            Step::NeedsReceipt { index, hash } => SpecStep::NeedsReceipt {
                index: *index as int,
                hash: hash@,
            },
        }
    }
}

/// Whether a transaction is a candidate for a suspicious creation: a
/// watched account sent it, it creates a contract, and it has a hash to
/// look its receipt up by.
pub open spec fn is_suspicious_creation(
    tx: SpecTransaction,
    suspicious_addresses: Set<Seq<char>>,
) -> bool {
    &&& tx.from matches Some(from) && suspicious_addresses.contains(from)
    &&& tx.to == SpecRecipient::Null
    &&& tx.hash is Some
}

/// The code that is reported where a creating transaction has no input.
pub open spec fn no_contract_code() -> Seq<char> {
    "x0"@
}

/// The contract that the outcome of a lookup names: the address in the
/// receipt, where the lookup gave a receipt and the receipt holds one.
pub open spec fn deployed_contract(receipt: Option<SpecReceipt>) -> Option<Seq<char>> {
    match receipt {
        Some(r) => r.contract_address,
        None => None,
    }
}

/// What is reported of the creation `tx` of `block`, whose receipt is
/// `receipt`.
pub open spec fn creation_report(
    block: SpecBlock,
    tx: SpecTransaction,
    receipt: SpecReceipt,
) -> SpecSuspiciousContractCreatedJson
    recommends
        tx.from is Some,
        tx.hash is Some,
        receipt.contract_address is Some,
        block.well_formed(),
{
    SpecSuspiciousContractCreatedJson {
        creator: tx.from->0,
        contract_code: match tx.input {
            Some(code) => code,
            None => no_contract_code(),
        },
        contract_address: receipt.contract_address->0,
        block_timestamp: block.timestamp_value()->0,
        block: block.number_value()->0,
        transaction_hash: tx.hash->0,
    }
}

/// The test that the search for a candidate applies to each position.
pub open spec fn suspicious_creation_at(
    block: SpecBlock,
    suspicious_addresses: Set<Seq<char>>,
) -> spec_fn(int) -> bool {
    |i: int| is_suspicious_creation(block.transactions[i], suspicious_addresses)
}

/// The position of the block's first candidate for a suspicious creation.
pub open spec fn first_suspicious_creation(
    block: SpecBlock,
    suspicious_addresses: Set<Seq<char>>,
) -> Option<int> {
    first_from(
        0,
        block.transactions.len() as int,
        suspicious_creation_at(block, suspicious_addresses),
    )
}

/// The step of the creation classifier that scans from `start`: it asks
/// for the receipt of the first candidate from there, or finishes with no
/// finding where there is none.
pub open spec fn creation_scan(
    block: SpecBlock,
    suspicious_addresses: Set<Seq<char>>,
    start: int,
) -> SpecStep<SpecSuspiciousContractCreatedJson> {
    match first_from(
        start,
        block.transactions.len() as int,
        suspicious_creation_at(block, suspicious_addresses),
    ) {
        Some(i) => SpecStep::NeedsReceipt { index: i, hash: block.transactions[i].hash->0 },
        None => SpecStep::Finished(None),
    }
}

/// The step that follows the lookup for the candidate at `index`: a
/// receipt that names the created contract finishes the classification
/// with its report; a failed lookup, and a receipt that names no contract,
/// give no finding for the candidate and send the scan on behind it.
pub open spec fn creation_resumed(
    block: SpecBlock,
    suspicious_addresses: Set<Seq<char>>,
    index: int,
    receipt: Option<SpecReceipt>,
) -> SpecStep<SpecSuspiciousContractCreatedJson> {
    if deployed_contract(receipt) is Some {
        SpecStep::Finished(
            Some(
                (
                    SuspiciousContractCreatedEvent::ID,
                    creation_report(block, block.transactions[index], receipt->0),
                ),
            ),
        )
    } else {
        creation_scan(block, suspicious_addresses, index + 1)
    }
}

/// What the creation classifier ends with on a block when the caller
/// follows its steps from `start` and the lookup for the transaction at
/// position `i` gives `receipts(i)`.
pub open spec fn creation_outcome(
    block: SpecBlock,
    suspicious_addresses: Set<Seq<char>>,
    receipts: spec_fn(int) -> Option<SpecReceipt>,
    start: int,
) -> Option<(u32, SpecSuspiciousContractCreatedJson)>
    decreases block.transactions.len() - start,
{
    match creation_scan(block, suspicious_addresses, start) {
        SpecStep::Finished(found) => found,
        SpecStep::NeedsReceipt { index, hash } => {
            if start <= index < block.transactions.len() {
                match creation_resumed(block, suspicious_addresses, index, receipts(index)) {
                    SpecStep::Finished(found) => found,
                    SpecStep::NeedsReceipt { .. } => creation_outcome(
                        block,
                        suspicious_addresses,
                        receipts,
                        index + 1,
                    ),
                }
            } else {
                None
            }
        },
    }
}

/// The test that decides the creation classifier's finding: the
/// transaction is a candidate and the lookup of its receipt gives the
/// created contract.
pub open spec fn confirmed_creation_at(
    block: SpecBlock,
    suspicious_addresses: Set<Seq<char>>,
    receipts: spec_fn(int) -> Option<SpecReceipt>,
) -> spec_fn(int) -> bool {
    |i: int|
        is_suspicious_creation(block.transactions[i], suspicious_addresses) && deployed_contract(
            receipts(i),
        ) is Some
}

/// What the creation classifier finds in a block, given what the lookups
/// give: the report of the first candidate whose lookup gives the created
/// contract, under the classifier's kind, or nothing.
pub open spec fn creation_event(
    block: SpecBlock,
    suspicious_addresses: Set<Seq<char>>,
    receipts: spec_fn(int) -> Option<SpecReceipt>,
) -> Option<(u32, SpecSuspiciousContractCreatedJson)> {
    match first_from(
        0,
        block.transactions.len() as int,
        confirmed_creation_at(block, suspicious_addresses, receipts),
    ) {
        Some(i) => Some(
            (
                SuspiciousContractCreatedEvent::ID,
                creation_report(block, block.transactions[i], receipts(i)->0),
            ),
        ),
        None => None,
    }
}

/// The value of an optional receipt.
pub open spec fn opt_receipt(receipt: Option<&TransactionReceiptJson>) -> Option<SpecReceipt> {
    match receipt {
        Some(r) => Some(r@),
        None => None,
    }
}

/// The classifier of contracts created by watched accounts.
///
/// The address of a created contract stands in the transaction's receipt
/// only, which has to be fetched. The classifier does not fetch: it says
/// which receipt it needs and goes on from the outcome (see [`Step`]).
pub struct SuspiciousContractCreatedEvent;

impl SuspiciousContractCreatedEvent {
    /// The kind of this event.
    pub const ID: u32 = 3;

    /// Scans from `start` for the next candidate.
    fn scan(
        block: &BlockJson,
        suspicious_addresses: &StringHashSet,
        start: usize,
    ) -> (step: Step<SuspiciousContractCreatedJson>)
        requires
            start <= block@.transactions.len(),
        ensures
            step@ == creation_scan(block@, suspicious_addresses@, start as int),
    {
        let txs = block.transactions();
        let n = txs.len();
        let ghost test = suspicious_creation_at(block@, suspicious_addresses@);
        let mut i: usize = start;
        while i < n
            invariant
                start <= i <= n,
                n == txs@.len(),
                n == block@.transactions.len(),
                test == suspicious_creation_at(block@, suspicious_addresses@),
                forall|j: int| 0 <= j < n ==> (#[trigger] txs@[j])@ == block@.transactions[j],
                forall|j: int| start <= j < i ==> !#[trigger] test(j),
            decreases n - i,
        {
            let tx = &txs[i];
            if let Some(from_address) = tx.from() {
                if suspicious_addresses.contains(from_address) && tx.is_contract_creation() {
                    if let Some(hash) = tx.hash() {
                        proof {
                            lemma_first_found(start as int, n as int, test, i as int);
                        }
                        return Step::NeedsReceipt { index: i, hash: hash.to_owned() };
                    }
                }
            }
            i += 1;
        }
        proof {
            lemma_none_found(start as int, n as int, test);
        }
        Step::Finished(None)
    }

    /// The position of the block's first candidate.
    pub fn position(&self, block: &BlockJson, suspicious_addresses: &StringHashSet) -> (at: Option<
        usize,
    >)
        ensures
            position_view(at) == first_suspicious_creation(block@, suspicious_addresses@),
    {
        match Self::scan(block, suspicious_addresses, 0) {
            Step::NeedsReceipt { index, hash } => Some(index),
            Step::Finished(_) => None,
        }
    }

    /// Begins the classification of a block: asks for the receipt of the
    /// first candidate, or finishes at once where the block has none.
    pub fn event(&self, block: &BlockJson, suspicious_addresses: &StringHashSet) -> (step: Step<
        SuspiciousContractCreatedJson,
    >)
        ensures
            step@ == creation_scan(block@, suspicious_addresses@, 0),
    {
        Self::scan(block, suspicious_addresses, 0)
    }

    /// Goes on after the lookup that the last step asked for, for the
    /// candidate at `index`. `receipt` is what the lookup gave, `None`
    /// where it failed. A receipt that names no contract counts as a
    /// failed lookup.
    ///
    /// A block for which a receipt with the created contract is handed in
    /// must have its number and timestamp.
    pub fn resume(
        &self,
        block: &BlockJson,
        suspicious_addresses: &StringHashSet,
        index: usize,
        receipt: Option<&TransactionReceiptJson>,
    ) -> (step: Step<SuspiciousContractCreatedJson>)
        requires
            index < block@.transactions.len(),
            is_suspicious_creation(block@.transactions[index as int], suspicious_addresses@),
            deployed_contract(opt_receipt(receipt)) is Some ==> block@.well_formed(),
        ensures
            step@ == creation_resumed(
                block@,
                suspicious_addresses@,
                index as int,
                opt_receipt(receipt),
            ),
    {
        let txs = block.transactions();
        assert(index < txs.len());
        let deployed = match receipt {
            Some(receipt) => receipt.contract_address(),
            None => None,
        };
        match deployed {
            Some(contract_address) => {
                let tx = &txs[index];
                let json = SuspiciousContractCreatedJson {
                    creator: owned_or_empty(tx.from()),
                    contract_code: match tx.input() {
                        Some(code) => code.to_owned(),
                        None => "x0".to_owned(),
                    },
                    contract_address: contract_address.to_owned(),
                    block_timestamp: block.timestamp(),
                    block: block.number(),
                    transaction_hash: owned_or_empty(tx.hash()),
                };
                Step::Finished(Some((Self::ID, json)))
            },
            None => Self::scan(block, suspicious_addresses, index + 1),
        }
    }
}

} // verus!
