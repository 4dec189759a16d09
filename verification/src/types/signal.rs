//! The signals: indicators raised where a block's transactions touch a
//! watched contract.

use crate::types::block::{BlockJson, SpecBlock, SpecTransaction};
use crate::text::{owned_or_empty, text_or_empty};
use crate::types::finding::{finding_view, Payload, SpecPayload};
use crate::types::scan::{
    first_from, lemma_first_found, lemma_first_from_meaning, lemma_none_found, position_view,
};
use vstd::hash_set::StringHashSet;
use vstd::prelude::*;

verus! {

/// The mathematical value of an
/// [`AnonymouslyFundedSmartContractTriggeredJson`].
pub struct SpecAnonymouslyFundedSmartContractTriggeredJson {
    pub contract_address: Seq<char>,
    pub transaction_hash: Seq<char>,
    pub block: u64,
}

/// What is reported of a call to a watched contract.
#[derive(Debug, PartialEq, Eq)]
pub struct AnonymouslyFundedSmartContractTriggeredJson {
    pub contract_address: String,
    pub transaction_hash: String,
    pub block: u64,
}

impl View for AnonymouslyFundedSmartContractTriggeredJson {
    type V = SpecAnonymouslyFundedSmartContractTriggeredJson;

    open spec fn view(&self) -> SpecAnonymouslyFundedSmartContractTriggeredJson {
        SpecAnonymouslyFundedSmartContractTriggeredJson {
            contract_address: self.contract_address@,
            transaction_hash: self.transaction_hash@,
            block: self.block,
        }
    }
}

/// Whether a transaction triggers a watched contract: its recipient is one.
pub open spec fn is_trigger(tx: SpecTransaction, suspicious_contracts: Set<Seq<char>>) -> bool {
    tx.to.address() matches Some(to) && suspicious_contracts.contains(to)
}

/// What is reported of the trigger `tx` of `block`.
pub open spec fn trigger_report(
    block: SpecBlock,
    tx: SpecTransaction,
) -> SpecAnonymouslyFundedSmartContractTriggeredJson
    recommends
        tx.to.address() is Some,
        block.number_value() is Some,
{
    SpecAnonymouslyFundedSmartContractTriggeredJson {
        contract_address: tx.to.address()->0,
        transaction_hash: text_or_empty(tx.hash),
        block: block.number_value()->0,
    }
}

/// The test that the search for a trigger applies to each position.
pub open spec fn trigger_at(block: SpecBlock, suspicious_contracts: Set<Seq<char>>) -> spec_fn(
    int,
) -> bool {
    |i: int| is_trigger(block.transactions[i], suspicious_contracts)
}

/// The position of the block's first trigger of a watched contract.
pub open spec fn first_trigger(block: SpecBlock, suspicious_contracts: Set<Seq<char>>) -> Option<
    int,
> {
    first_from(0, block.transactions.len() as int, trigger_at(block, suspicious_contracts))
}

/// What the signal finds in a block: the report of the first trigger under
/// the signal's kind, or nothing.
pub open spec fn trigger_signal(block: SpecBlock, suspicious_contracts: Set<Seq<char>>) -> Option<
    (u32, SpecAnonymouslyFundedSmartContractTriggeredJson),
> {
    match first_trigger(block, suspicious_contracts) {
        Some(i) => Some(
            (
                AnonymouslyFundedSmartContractTriggeredSignal::ID,
                trigger_report(block, block.transactions[i]),
            ),
        ),
        None => None,
    }
}

/// The signal raised when a contract is called that an anonymously funded
/// account created.
pub struct AnonymouslyFundedSmartContractTriggeredSignal;

impl AnonymouslyFundedSmartContractTriggeredSignal {
    /// The kind of this signal.
    pub const ID: u32 = 0;

    /// The position of the block's first call to a watched contract.
    pub fn position(&self, block: &BlockJson, suspicious_contracts: &StringHashSet) -> (at: Option<
        usize,
    >)
        ensures
            position_view(at) == first_trigger(block@, suspicious_contracts@),
    {
        let txs = block.transactions();
        let n = txs.len();
        let ghost test = trigger_at(block@, suspicious_contracts@);
        let mut i: usize = 0;
        while i < n
            invariant
                i <= n,
                n == txs@.len(),
                n == block@.transactions.len(),
                test == trigger_at(block@, suspicious_contracts@),
                forall|j: int| 0 <= j < n ==> (#[trigger] txs@[j])@ == block@.transactions[j],
                forall|j: int| 0 <= j < i ==> !#[trigger] test(j),
            decreases n - i,
        {
            if let Some(to) = txs[i].to() {
                if suspicious_contracts.contains(to) {
                    proof {
                        lemma_first_found(0, n as int, test, i as int);
                    }
                    return Some(i);
                }
            }
            i += 1;
        }
        proof {
            lemma_none_found(0, n as int, test);
        }
        None
    }

    /// Finds the block's first call to a watched contract.
    ///
    /// A block that holds such a call must have its number.
    pub fn signal(&self, block: &BlockJson, suspicious_contracts: &StringHashSet) -> (found: Option<
        (u32, AnonymouslyFundedSmartContractTriggeredJson),
    >)
        requires
            first_trigger(block@, suspicious_contracts@) is Some ==> block@.number_value() is Some,
        ensures
            finding_view(found) == trigger_signal(block@, suspicious_contracts@),
    {
        match self.position(block, suspicious_contracts) {
            Some(i) => {
                proof {
                    lemma_first_from_meaning(
                        0,
                        block@.transactions.len() as int,
                        trigger_at(block@, suspicious_contracts@),
                    );
                }
                let txs = block.transactions();
                let tx = &txs[i];
                let json = AnonymouslyFundedSmartContractTriggeredJson {
                    contract_address: owned_or_empty(tx.to()),
                    transaction_hash: owned_or_empty(tx.hash()),
                    block: block.number(),
                };
                Some((Self::ID, json))
            },
            None => None,
        }
    }
}

/// The finding of a signal, with its report as a [`SpecPayload`].
pub open spec fn trigger_finding(
    found: Option<(u32, SpecAnonymouslyFundedSmartContractTriggeredJson)>,
) -> Option<(u32, SpecPayload)> {
    match found {
        Some((id, json)) => Some((id, SpecPayload::AnonymouslyFundedSmartContractTriggered(json))),
        None => None,
    }
}

/// The signals that a block is held against.
pub enum Signal {
    AnonymouslyFundedSmartContractTriggered(AnonymouslyFundedSmartContractTriggeredSignal),
}

impl Signal {
    /// What this signal finds in a block, given the watched contracts.
    pub open spec fn evaluate(self, block: SpecBlock, suspicious_contracts: Set<Seq<char>>) -> Option<
        (u32, SpecPayload),
    > {
        match self {
            Signal::AnonymouslyFundedSmartContractTriggered(_) => trigger_finding(
                trigger_signal(block, suspicious_contracts),
            ),
        }
    }

    /// The position of the first transaction that raises this signal.
    pub open spec fn first_position(
        self,
        block: SpecBlock,
        suspicious_contracts: Set<Seq<char>>,
    ) -> Option<int> {
        match self {
            Signal::AnonymouslyFundedSmartContractTriggered(_) => first_trigger(
                block,
                suspicious_contracts,
            ),
        }
    }

    /// The position of the first transaction that raises this signal, if
    /// any does.
    pub fn position(&self, block: &BlockJson, suspicious_contracts: &StringHashSet) -> (at: Option<
        usize,
    >)
        ensures
            position_view(at) == self.first_position(block@, suspicious_contracts@),
    {
        match self {
            Signal::AnonymouslyFundedSmartContractTriggered(inner) => inner.position(
                block,
                suspicious_contracts,
            ),
        }
    }

    /// Holds the block against this signal.
    ///
    /// A block in which the signal finds something must have its number.
    pub fn signal(&self, block: &BlockJson, suspicious_contracts: &StringHashSet) -> (found: Option<
        (u32, Payload),
    >)
        requires
            self.first_position(block@, suspicious_contracts@) is Some ==> block@.number_value()
                is Some,
        ensures
            finding_view(found) == self.evaluate(block@, suspicious_contracts@),
            found matches Some((id, payload)) ==> id == payload@.kind_id(),
    {
        match self {
            Signal::AnonymouslyFundedSmartContractTriggered(inner) => {
                match inner.signal(block, suspicious_contracts) {
                    Some((id, json)) => Some(
                        (id, Payload::AnonymouslyFundedSmartContractTriggered(json)),
                    ),
                    None => None,
                }
            },
        }
    }
}

} // verus!
