//! The events: what a block's transactions are classified as.
//!
//! Each classifier scans the block in chain order and reports the first
//! transaction that qualifies, and no other.

use crate::types::block::{BlockJson, SpecBlock, TransactionReceiptJson};
use crate::types::creation::{
    creation_resumed, creation_scan, deployed_contract, first_suspicious_creation,
    is_suspicious_creation,
    opt_receipt, SpecStep, SpecSuspiciousContractCreatedJson, Step,
    SuspiciousContractCreatedEvent, SuspiciousContractCreatedJson,
};
use crate::types::finding::{Payload, SpecPayload};
use crate::types::scan::position_view;
use crate::types::transfer::{
    first_exchange_transfer, transfer_event, SpecTransferFromFixedFloatJson,
    TransferFromFixedFloatEvent,
};
use crate::types::withdrawal::{
    first_withdrawal, withdrawal_event, SpecTornadoCashWithdrawEventJson,
    TornadoCashWithdrawEvent,
};
use vstd::hash_set::StringHashSet;
use vstd::prelude::*;

verus! {

/// The finding of the withdrawal classifier, with its report as a
/// [`SpecPayload`].
pub open spec fn withdrawal_finding(
    found: Option<(u32, SpecTornadoCashWithdrawEventJson)>,
) -> Option<(u32, SpecPayload)> {
    match found {
        Some((id, json)) => Some((id, SpecPayload::TornadoCashWithdraw(json))),
        None => None,
    }
}

/// The finding of the transfer classifier, with its report as a
/// [`SpecPayload`].
pub open spec fn transfer_finding(found: Option<(u32, SpecTransferFromFixedFloatJson)>) -> Option<
    (u32, SpecPayload),
> {
    match found {
        Some((id, json)) => Some((id, SpecPayload::TransferFromFixedFloat(json))),
        None => None,
    }
}

/// A step of the creation classifier, with its report as a
/// [`SpecPayload`].
pub open spec fn creation_step(step: SpecStep<SpecSuspiciousContractCreatedJson>) -> SpecStep<
    SpecPayload,
> {
    match step {
        SpecStep::Finished(Some((id, json))) => SpecStep::Finished(
            Some((id, SpecPayload::SuspiciousContractCreated(json))),
        ),
        SpecStep::Finished(None) => SpecStep::Finished(None),
        SpecStep::NeedsReceipt { index, hash } => SpecStep::NeedsReceipt { index, hash },
    }
}

/// A step of the creation classifier, with its report as a [`Payload`].
fn lift_creation_step(step: Step<SuspiciousContractCreatedJson>) -> (lifted: Step<Payload>)
    ensures
        lifted@ == creation_step(step@),
{
    match step {
        Step::Finished(Some((id, json))) => Step::Finished(
            Some((id, Payload::SuspiciousContractCreated(json))),
        ),
        Step::Finished(None) => Step::Finished(None),
        Step::NeedsReceipt { index, hash } => Step::NeedsReceipt { index, hash },
    }
}

/// The events that a block is classified by.
pub enum Event {
    TornadoCashWithdraw(TornadoCashWithdrawEvent),
    TransferFromFixedFloat(TransferFromFixedFloatEvent),
    SuspiciousContractCreated(SuspiciousContractCreatedEvent),
}

impl Event {
    /// The first step of this classifier on a block, given the watched
    /// accounts: the two classifiers that read the block alone finish at
    /// once; the creation classifier may ask for a receipt.
    pub open spec fn classify(
        self,
        block: SpecBlock,
        suspicious_addresses: Set<Seq<char>>,
    ) -> SpecStep<SpecPayload> {
        match self {
            Event::TornadoCashWithdraw(_) => SpecStep::Finished(
                withdrawal_finding(withdrawal_event(block)),
            ),
            Event::TransferFromFixedFloat(_) => SpecStep::Finished(
                transfer_finding(transfer_event(block)),
            ),
            Event::SuspiciousContractCreated(_) => creation_step(
                creation_scan(block, suspicious_addresses, 0),
            ),
        }
    }

    /// The position of the first transaction that this classifier takes up:
    /// the one it reports, or the first whose receipt it asks for.
    pub open spec fn first_position(
        self,
        block: SpecBlock,
        suspicious_addresses: Set<Seq<char>>,
    ) -> Option<int> {
        match self {
            Event::TornadoCashWithdraw(_) => first_withdrawal(block),
            Event::TransferFromFixedFloat(_) => first_exchange_transfer(block),
            Event::SuspiciousContractCreated(_) => first_suspicious_creation(
                block,
                suspicious_addresses,
            ),
        }
    }

    /// Whether this classifier reports from the block alone, without
    /// asking for a receipt.
    pub open spec fn reports_at_once(self) -> bool {
        !(self is SuspiciousContractCreated)
    }

    /// The position of the first transaction that this classifier takes
    /// up, if it takes up any.
    pub fn position(&self, block: &BlockJson, suspicious_addresses: &StringHashSet) -> (at: Option<
        usize,
    >)
        ensures
            position_view(at) == self.first_position(block@, suspicious_addresses@),
    {
        match self {
            Event::TornadoCashWithdraw(inner) => inner.position(block),
            Event::TransferFromFixedFloat(inner) => inner.position(block),
            Event::SuspiciousContractCreated(inner) => inner.position(block, suspicious_addresses),
        }
    }

    /// Begins the classification of a block by this classifier.
    ///
    /// A block in which a classifier finds what it reports at once must
    /// have its number and timestamp.
    pub fn event(&self, block: &BlockJson, suspicious_addresses: &StringHashSet) -> (step: Step<
        Payload,
    >)
        requires
            self.reports_at_once() && self.first_position(block@, suspicious_addresses@) is Some
                ==> block@.well_formed(),
        ensures
            step@ == self.classify(block@, suspicious_addresses@),
            step matches Step::Finished(Some((id, payload))) ==> id == payload@.kind_id(),
    {
        match self {
            Event::TornadoCashWithdraw(inner) => match inner.event(block) {
                Some((id, json)) => Step::Finished(Some((id, Payload::TornadoCashWithdraw(json)))),
                None => Step::Finished(None),
            },
            Event::TransferFromFixedFloat(inner) => match inner.event(block) {
                Some((id, json)) => Step::Finished(
                    Some((id, Payload::TransferFromFixedFloat(json))),
                ),
                None => Step::Finished(None),
            },
            Event::SuspiciousContractCreated(inner) => lift_creation_step(
                inner.event(block, suspicious_addresses),
            ),
        }
    }

    /// Goes on after the lookup that the last step asked for, for the
    /// candidate at `index`. `receipt` is what the lookup gave, `None`
    /// where it failed; a receipt that names no contract counts as a
    /// failed lookup. Only the creation classifier ever asks.
    ///
    /// A block for which a receipt with the created contract is handed in
    /// must have its number and timestamp.
    pub fn resume(
        &self,
        block: &BlockJson,
        suspicious_addresses: &StringHashSet,
        index: usize,
        receipt: Option<&TransactionReceiptJson>,
    ) -> (step: Step<Payload>)
        requires
            self is SuspiciousContractCreated,
            index < block@.transactions.len(),
            is_suspicious_creation(block@.transactions[index as int], suspicious_addresses@),
            deployed_contract(opt_receipt(receipt)) is Some ==> block@.well_formed(),
        ensures
            step@ == creation_step(
                creation_resumed(block@, suspicious_addresses@, index as int, opt_receipt(receipt)),
            ),
            step matches Step::Finished(Some((id, payload))) ==> id == payload@.kind_id(),
    {
        match self {
            Event::SuspiciousContractCreated(inner) => lift_creation_step(
                inner.resume(block, suspicious_addresses, index, receipt),
            ),
            _ => Step::Finished(None),
        }
    }
}

} // verus!
