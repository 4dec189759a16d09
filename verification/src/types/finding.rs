//! Findings: what the classifiers hand out.
//!
//! A finding is a kind and a report. Each kind has one number and one shape
//! of report, and neither ever changes: a new kind gets a new number.

use crate::types::creation::{
    SpecSuspiciousContractCreatedJson, SuspiciousContractCreatedEvent,
    SuspiciousContractCreatedJson,
};
use crate::types::transfer::{
    SpecTransferFromFixedFloatJson, TransferFromFixedFloatEvent, TransferFromFixedFloatJson,
};
use crate::types::withdrawal::{
    SpecTornadoCashWithdrawEventJson, TornadoCashWithdrawEvent, TornadoCashWithdrawEventJson,
};
use crate::types::signal::{
    AnonymouslyFundedSmartContractTriggeredJson, AnonymouslyFundedSmartContractTriggeredSignal,
    SpecAnonymouslyFundedSmartContractTriggeredJson,
};
use vstd::prelude::*;

verus! {

/// The mathematical value of what a classifier found: the kind, and the
/// value of the report.
pub open spec fn finding_view<T: View>(found: Option<(u32, T)>) -> Option<(u32, T::V)> {
    match found {
        Some((id, report)) => Some((id, report@)),
        None => None,
    }
}

/// The mathematical value of a [`Payload`].
pub enum SpecPayload {
    AnonymouslyFundedSmartContractTriggered(SpecAnonymouslyFundedSmartContractTriggeredJson),
    TornadoCashWithdraw(SpecTornadoCashWithdrawEventJson),
    TransferFromFixedFloat(SpecTransferFromFixedFloatJson),
    SuspiciousContractCreated(SpecSuspiciousContractCreatedJson),
}

impl SpecPayload {
    /// The number of the report's kind.
    pub open spec fn kind_id(self) -> u32 {
        match self {
            SpecPayload::AnonymouslyFundedSmartContractTriggered(_) =>
                AnonymouslyFundedSmartContractTriggeredSignal::ID,
            SpecPayload::TornadoCashWithdraw(_) => TornadoCashWithdrawEvent::ID,
            SpecPayload::TransferFromFixedFloat(_) => TransferFromFixedFloatEvent::ID,
            SpecPayload::SuspiciousContractCreated(_) => SuspiciousContractCreatedEvent::ID,
        }
    }
}

/// The report of a finding, of whichever kind.
#[derive(Debug, PartialEq, Eq)]
pub enum Payload {
    AnonymouslyFundedSmartContractTriggered(AnonymouslyFundedSmartContractTriggeredJson),
    TornadoCashWithdraw(TornadoCashWithdrawEventJson),
    TransferFromFixedFloat(TransferFromFixedFloatJson),
    SuspiciousContractCreated(SuspiciousContractCreatedJson),
}

impl View for Payload {
    type V = SpecPayload;

    open spec fn view(&self) -> SpecPayload {
        match self {
            Payload::AnonymouslyFundedSmartContractTriggered(json) =>
                SpecPayload::AnonymouslyFundedSmartContractTriggered(json@),
            Payload::TornadoCashWithdraw(json) => SpecPayload::TornadoCashWithdraw(json@),
            Payload::TransferFromFixedFloat(json) => SpecPayload::TransferFromFixedFloat(json@),
            Payload::SuspiciousContractCreated(json) => SpecPayload::SuspiciousContractCreated(
                json@,
            ),
        }
    }
}

impl Payload {
    /// The number of the report's kind: 0 for the triggered contract, 1 for
    /// the withdrawal, 2 for the exchange's transfer, 3 for the created
    /// contract.
    pub fn kind_id(&self) -> (id: u32)
        ensures
            id == self@.kind_id(),
            id <= 3,
    {
        match self {
            Payload::AnonymouslyFundedSmartContractTriggered(_) =>
                AnonymouslyFundedSmartContractTriggeredSignal::ID,
            Payload::TornadoCashWithdraw(_) => TornadoCashWithdrawEvent::ID,
            Payload::TransferFromFixedFloat(_) => TransferFromFixedFloatEvent::ID,
            Payload::SuspiciousContractCreated(_) => SuspiciousContractCreatedEvent::ID,
        }
    }

    /// The finding that this report makes: the report under its kind.
    pub fn encode(self) -> (finding: (u32, Payload))
        ensures
            finding.0 == self@.kind_id(),
            finding.1 == self,
    {
        (self.kind_id(), self)
    }
}

/// Reports of two kinds never share a number, and reports of one kind
/// always do.
pub proof fn lemma_kind_ids_tell_kinds_apart(a: SpecPayload, b: SpecPayload)
    ensures
        a.kind_id() == b.kind_id() <==> ({
            ||| a is AnonymouslyFundedSmartContractTriggered
                && b is AnonymouslyFundedSmartContractTriggered
            ||| a is TornadoCashWithdraw && b is TornadoCashWithdraw
            ||| a is TransferFromFixedFloat && b is TransferFromFixedFloat
            ||| a is SuspiciousContractCreated && b is SuspiciousContractCreated
        }),
{
}

} // verus!
