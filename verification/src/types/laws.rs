//! What holds of every block: the laws of the classifiers.
//!
//! The laws speak of the spec functions that the classifiers' contracts
//! use, so that what is proved here is proved of what the classifiers
//! return.

use crate::address::checksum_text;
use crate::types::block::{SpecBlock, SpecReceipt};
use crate::types::creation::{
    confirmed_creation_at, creation_event, creation_outcome, creation_report, creation_resumed,
    creation_scan, deployed_contract, is_suspicious_creation, suspicious_creation_at, SpecStep,
    SpecSuspiciousContractCreatedJson, SuspiciousContractCreatedEvent,
};
use crate::types::event::Event;
use crate::types::finding::SpecPayload;
use crate::types::scan::{
    first_from, lemma_first_found, lemma_first_from_meaning, lemma_none_found,
    lemma_skip_unqualified, lemma_some_qualifies,
};
use crate::types::signal::{
    is_trigger, trigger_at, trigger_report, trigger_signal,
    AnonymouslyFundedSmartContractTriggeredSignal, Signal,
};
use crate::types::transfer::{
    exchange_transfer_at, is_exchange_transfer, transfer_event, transfer_report,
    TransferFromFixedFloatEvent,
};
use crate::types::withdrawal::{
    is_withdrawal, withdraw_of_input, withdrawal_at, withdrawal_event, withdrawal_report,
    TornadoCashWithdrawEvent,
};
use vstd::prelude::*;

verus! {

/// A block without a withdrawal gives the withdrawal classifier nothing to
/// find.
pub proof fn lemma_no_withdrawal_no_event(block: SpecBlock)
    requires
        forall|i: int|
            0 <= i < block.transactions.len() ==> !is_withdrawal(#[trigger] block.transactions[i]),
    ensures
        withdrawal_event(block) is None,
{
    lemma_none_found(0, block.transactions.len() as int, withdrawal_at(block));
}

/// A block without a transfer out of the exchange gives the transfer
/// classifier nothing to find.
pub proof fn lemma_no_transfer_no_event(block: SpecBlock)
    requires
        forall|i: int|
            0 <= i < block.transactions.len() ==> !is_exchange_transfer(
                #[trigger] block.transactions[i],
            ),
    ensures
        transfer_event(block) is None,
{
    lemma_none_found(0, block.transactions.len() as int, exchange_transfer_at(block));
}

/// A block without a candidate gives the creation classifier nothing to
/// find: it finishes at its first step and asks for no receipt, so that
/// whatever the lookups would give, the outcome is no finding.
pub proof fn lemma_no_candidate_no_event(
    block: SpecBlock,
    suspicious_addresses: Set<Seq<char>>,
    receipts: spec_fn(int) -> Option<SpecReceipt>,
)
    requires
        forall|i: int|
            0 <= i < block.transactions.len() ==> !is_suspicious_creation(
                #[trigger] block.transactions[i],
                suspicious_addresses,
            ),
    ensures
        creation_scan(block, suspicious_addresses, 0) == SpecStep::<
            SpecSuspiciousContractCreatedJson,
        >::Finished(None),
        creation_outcome(block, suspicious_addresses, receipts, 0) is None,
        creation_event(block, suspicious_addresses, receipts) is None,
{
    let n = block.transactions.len() as int;
    lemma_none_found(0, n, suspicious_creation_at(block, suspicious_addresses));
    lemma_none_found(0, n, confirmed_creation_at(block, suspicious_addresses, receipts));
}

/// A block without a call to a watched contract raises no signal.
pub proof fn lemma_no_trigger_no_signal(block: SpecBlock, suspicious_contracts: Set<Seq<char>>)
    requires
        forall|i: int|
            0 <= i < block.transactions.len() ==> !is_trigger(
                #[trigger] block.transactions[i],
                suspicious_contracts,
            ),
    ensures
        trigger_signal(block, suspicious_contracts) is None,
{
    lemma_none_found(0, block.transactions.len() as int, trigger_at(block, suspicious_contracts));
}

/// A block that holds a withdrawal yields a finding of the withdrawal
/// kind. Where the withdrawal at `i` is the block's first and pays out of
/// the pool of 0.1 ETH, the finding names that pool.
pub proof fn lemma_withdrawal_is_found(block: SpecBlock, i: int)
    requires
        0 <= i < block.transactions.len(),
        is_withdrawal(block.transactions[i]),
    ensures
        withdrawal_event(block) matches Some((id, json)) && id == 1,
        ({
            let call = withdraw_of_input(block.transactions[i].input->0)->0;
            &&& (forall|j: int| 0 <= j < i ==> !is_withdrawal(#[trigger] block.transactions[j]))
            &&& checksum_text(call.tornado) == TornadoCashWithdrawEvent::TCETH01@
        }) ==> (withdrawal_event(block) matches Some((_, json)) && json.tornado_address_name
            == "ETH/0.1"@),
{
    let n = block.transactions.len() as int;
    let test = withdrawal_at(block);
    lemma_some_qualifies(0, n, test, i);
    if forall|j: int| 0 <= j < i ==> !is_withdrawal(#[trigger] block.transactions[j]) {
        lemma_first_found(0, n, test, i);
    }
}

/// A block that holds a transfer out of the exchange yields a finding of
/// the transfer kind. Where the transfer at `i` is the block's first, the
/// finding's recipient is the one that this transfer names.
pub proof fn lemma_transfer_is_found(block: SpecBlock, i: int)
    requires
        0 <= i < block.transactions.len(),
        block.transactions[i].from == Some(TransferFromFixedFloatEvent::FIXED_FLOAT_ADDRESS@),
        block.transactions[i].to.address() is Some,
    ensures
        transfer_event(block) matches Some((id, json)) && id == 2,
        (forall|j: int| 0 <= j < i ==> !is_exchange_transfer(#[trigger] block.transactions[j]))
            ==> (transfer_event(block) matches Some((_, json)) && json.recipient
            == block.transactions[i].to.address()->0),
{
    let n = block.transactions.len() as int;
    let test = exchange_transfer_at(block);
    lemma_some_qualifies(0, n, test, i);
    if forall|j: int| 0 <= j < i ==> !is_exchange_transfer(#[trigger] block.transactions[j]) {
        lemma_first_found(0, n, test, i);
    }
}

/// Following the creation classifier's steps ends in the report of the
/// first candidate whose lookup gives the created contract, and in
/// nothing where no candidate's lookup does. A lookup that fails and a
/// receipt that names no contract count alike.
pub proof fn lemma_creation_steps_find_first_confirmed(
    block: SpecBlock,
    suspicious_addresses: Set<Seq<char>>,
    receipts: spec_fn(int) -> Option<SpecReceipt>,
)
    ensures
        creation_outcome(block, suspicious_addresses, receipts, 0) == creation_event(
            block,
            suspicious_addresses,
            receipts,
        ),
{
    lemma_creation_outcome_from(block, suspicious_addresses, receipts, 0);
}

/// The outcome of the steps from `start` is decided by the first confirmed
/// candidate from `start`.
proof fn lemma_creation_outcome_from(
    block: SpecBlock,
    suspicious_addresses: Set<Seq<char>>,
    receipts: spec_fn(int) -> Option<SpecReceipt>,
    start: int,
)
    requires
        0 <= start,
    ensures
        creation_outcome(block, suspicious_addresses, receipts, start) == (match first_from(
            start,
            block.transactions.len() as int,
            confirmed_creation_at(block, suspicious_addresses, receipts),
        ) {
            Some(i) => Some(
                (
                    SuspiciousContractCreatedEvent::ID,
                    creation_report(block, block.transactions[i], receipts(i)->0),
                ),
            ),
            None => None,
        }),
    decreases block.transactions.len() - start,
{
    let n = block.transactions.len() as int;
    let candidate = suspicious_creation_at(block, suspicious_addresses);
    let confirmed = confirmed_creation_at(block, suspicious_addresses, receipts);
    lemma_first_from_meaning(start, n, candidate);
    match first_from(start, n, candidate) {
        None => {
            assert forall|j: int| start <= j < n implies !#[trigger] confirmed(j) by {
                assert(!candidate(j));
            }
            lemma_none_found(start, n, confirmed);
        },
        Some(i) => {
            assert forall|j: int| start <= j < i implies !#[trigger] confirmed(j) by {
                assert(!candidate(j));
            }
            if deployed_contract(receipts(i)) is Some {
                lemma_first_found(start, n, confirmed, i);
            } else {
                lemma_creation_outcome_from(block, suspicious_addresses, receipts, i + 1);
                lemma_skip_unqualified(start, i + 1, n, confirmed);
            }
        },
    }
}

/// A lookup that gives no contract gives no finding for its candidate: the
/// step that takes it is the scan behind the candidate, whether the lookup
/// failed or its receipt names no contract. The classification goes on.
pub proof fn lemma_lookup_without_contract_is_passed_over(
    block: SpecBlock,
    suspicious_addresses: Set<Seq<char>>,
    index: int,
    receipt: Option<SpecReceipt>,
)
    requires
        receipt matches Some(r) ==> r.contract_address is None,
    ensures
        creation_resumed(block, suspicious_addresses, index, receipt) == creation_scan(
            block,
            suspicious_addresses,
            index + 1,
        ),
        !(creation_resumed(block, suspicious_addresses, index, receipt) matches SpecStep::Finished(
            Some(_),
        )),
{
}

/// A watched account's creation whose lookup gives the created contract
/// yields a finding of the creation kind, and where no earlier candidate's
/// lookup does, the finding names the contract that this receipt names.
/// Where no candidate's lookup gives a contract, because it fails or the
/// receipt names none, there is no finding.
pub proof fn lemma_creation_is_found(
    block: SpecBlock,
    suspicious_addresses: Set<Seq<char>>,
    receipts: spec_fn(int) -> Option<SpecReceipt>,
    i: int,
)
    requires
        0 <= i < block.transactions.len(),
        is_suspicious_creation(block.transactions[i], suspicious_addresses),
    ensures
        deployed_contract(receipts(i)) is Some ==> (creation_outcome(
            block,
            suspicious_addresses,
            receipts,
            0,
        ) matches Some((id, json)) && id == 3),
        deployed_contract(receipts(i)) is Some && (forall|j: int|
            0 <= j < i ==> !(is_suspicious_creation(
                #[trigger] block.transactions[j],
                suspicious_addresses,
            ) && deployed_contract(receipts(j)) is Some)) ==> (creation_outcome(
            block,
            suspicious_addresses,
            receipts,
            0,
        ) matches Some((_, json)) && Some(json.contract_address) == deployed_contract(
            receipts(i),
        )),
        (forall|j: int|
            0 <= j < block.transactions.len() && is_suspicious_creation(
                #[trigger] block.transactions[j],
                suspicious_addresses,
            ) ==> deployed_contract(receipts(j)) is None) ==> creation_outcome(
            block,
            suspicious_addresses,
            receipts,
            0,
        ) is None,
{
    let n = block.transactions.len() as int;
    let confirmed = confirmed_creation_at(block, suspicious_addresses, receipts);
    lemma_creation_steps_find_first_confirmed(block, suspicious_addresses, receipts);
    if deployed_contract(receipts(i)) is Some {
        lemma_some_qualifies(0, n, confirmed, i);
        if forall|j: int|
            0 <= j < i ==> !(is_suspicious_creation(
                #[trigger] block.transactions[j],
                suspicious_addresses,
            ) && deployed_contract(receipts(j)) is Some) {
            lemma_first_found(0, n, confirmed, i);
        }
    }
    if forall|j: int|
        0 <= j < block.transactions.len() && is_suspicious_creation(
            #[trigger] block.transactions[j],
            suspicious_addresses,
        ) ==> deployed_contract(receipts(j)) is None {
        lemma_none_found(0, n, confirmed);
    }
}

/// A block that holds a call to a watched contract raises the signal.
/// Where the call at `i` is the block's first, the finding names that
/// contract and that transaction's hash.
pub proof fn lemma_trigger_is_found(block: SpecBlock, suspicious_contracts: Set<Seq<char>>, i: int)
    requires
        0 <= i < block.transactions.len(),
        block.transactions[i].to.address() matches Some(to) && suspicious_contracts.contains(to),
    ensures
        trigger_signal(block, suspicious_contracts) matches Some((id, json)) && id == 0,
        (forall|j: int|
            0 <= j < i ==> !is_trigger(#[trigger] block.transactions[j], suspicious_contracts))
            ==> (trigger_signal(block, suspicious_contracts) matches Some((_, json)) && {
            &&& json.contract_address == block.transactions[i].to.address()->0
            &&& block.transactions[i].hash matches Some(hash) ==> json.transaction_hash == hash
        }),
{
    let n = block.transactions.len() as int;
    let test = trigger_at(block, suspicious_contracts);
    lemma_some_qualifies(0, n, test, i);
    if forall|j: int|
        0 <= j < i ==> !is_trigger(#[trigger] block.transactions[j], suspicious_contracts) {
        lemma_first_found(0, n, test, i);
    }
}

/// Of the withdrawals in a block the first is the one reported: a later
/// one changes nothing.
pub proof fn lemma_earlier_withdrawal_is_reported(block: SpecBlock, i: int, j: int)
    requires
        0 <= i < j < block.transactions.len(),
        is_withdrawal(block.transactions[i]),
        is_withdrawal(block.transactions[j]),
        forall|k: int| 0 <= k < i ==> !is_withdrawal(#[trigger] block.transactions[k]),
    ensures
        withdrawal_event(block) == Some(
            (TornadoCashWithdrawEvent::ID, withdrawal_report(block, block.transactions[i])),
        ),
{
    let n = block.transactions.len() as int;
    lemma_first_found(0, n, withdrawal_at(block), i);
}

/// Of the exchange's transfers in a block the first is the one reported: a
/// later one changes nothing.
pub proof fn lemma_earlier_transfer_is_reported(block: SpecBlock, i: int, j: int)
    requires
        0 <= i < j < block.transactions.len(),
        is_exchange_transfer(block.transactions[i]),
        is_exchange_transfer(block.transactions[j]),
        forall|k: int| 0 <= k < i ==> !is_exchange_transfer(#[trigger] block.transactions[k]),
    ensures
        transfer_event(block) == Some(
            (TransferFromFixedFloatEvent::ID, transfer_report(block, block.transactions[i])),
        ),
{
    let n = block.transactions.len() as int;
    lemma_first_found(0, n, exchange_transfer_at(block), i);
}

/// Of the creations in a block whose lookups give the created contract
/// the first is the one reported: a later one changes nothing.
pub proof fn lemma_earlier_creation_is_reported(
    block: SpecBlock,
    suspicious_addresses: Set<Seq<char>>,
    receipts: spec_fn(int) -> Option<SpecReceipt>,
    i: int,
    j: int,
)
    requires
        0 <= i < j < block.transactions.len(),
        is_suspicious_creation(block.transactions[i], suspicious_addresses),
        is_suspicious_creation(block.transactions[j], suspicious_addresses),
        deployed_contract(receipts(i)) is Some,
        deployed_contract(receipts(j)) is Some,
        forall|k: int|
            0 <= k < i ==> !(is_suspicious_creation(
                #[trigger] block.transactions[k],
                suspicious_addresses,
            ) && deployed_contract(receipts(k)) is Some),
    ensures
        creation_outcome(block, suspicious_addresses, receipts, 0) == Some(
            (
                SuspiciousContractCreatedEvent::ID,
                creation_report(block, block.transactions[i], receipts(i)->0),
            ),
        ),
{
    let n = block.transactions.len() as int;
    let confirmed = confirmed_creation_at(block, suspicious_addresses, receipts);
    lemma_creation_steps_find_first_confirmed(block, suspicious_addresses, receipts);
    lemma_first_found(0, n, confirmed, i);
}

/// Of the calls to watched contracts in a block the first is the one
/// reported: a later one changes nothing.
pub proof fn lemma_earlier_trigger_is_reported(
    block: SpecBlock,
    suspicious_contracts: Set<Seq<char>>,
    i: int,
    j: int,
)
    requires
        0 <= i < j < block.transactions.len(),
        is_trigger(block.transactions[i], suspicious_contracts),
        is_trigger(block.transactions[j], suspicious_contracts),
        forall|k: int|
            0 <= k < i ==> !is_trigger(#[trigger] block.transactions[k], suspicious_contracts),
    ensures
        trigger_signal(block, suspicious_contracts) == Some(
            (
                AnonymouslyFundedSmartContractTriggeredSignal::ID,
                trigger_report(block, block.transactions[i]),
            ),
        ),
{
    let n = block.transactions.len() as int;
    lemma_first_found(0, n, trigger_at(block, suspicious_contracts), i);
}

/// A classifier holds no state: what it does on a block is decided by the
/// block's value and the watchlist's, so two runs on equal values begin
/// alike.
pub proof fn lemma_event_is_repeatable(
    event: Event,
    block: SpecBlock,
    suspicious_addresses: Set<Seq<char>>,
    block_again: SpecBlock,
    suspicious_addresses_again: Set<Seq<char>>,
    first: SpecStep<SpecPayload>,
    second: SpecStep<SpecPayload>,
)
    requires
        block == block_again,
        suspicious_addresses == suspicious_addresses_again,
        first == event.classify(block, suspicious_addresses),
        second == event.classify(block_again, suspicious_addresses_again),
    ensures
        first == second,
{
}

/// Two runs of the creation classifier on equal values, with lookups that
/// give the same, go on alike and end alike.
pub proof fn lemma_creation_is_repeatable(
    block: SpecBlock,
    suspicious_addresses: Set<Seq<char>>,
    receipts: spec_fn(int) -> Option<SpecReceipt>,
    block_again: SpecBlock,
    suspicious_addresses_again: Set<Seq<char>>,
    receipts_again: spec_fn(int) -> Option<SpecReceipt>,
    index: int,
)
    requires
        block == block_again,
        suspicious_addresses == suspicious_addresses_again,
        forall|i: int| #[trigger] receipts(i) == receipts_again(i),
    ensures
        creation_resumed(block, suspicious_addresses, index, receipts(index)) == creation_resumed(
            block_again,
            suspicious_addresses_again,
            index,
            receipts_again(index),
        ),
        creation_outcome(block, suspicious_addresses, receipts, 0) == creation_outcome(
            block_again,
            suspicious_addresses_again,
            receipts_again,
            0,
        ),
{
    lemma_creation_steps_find_first_confirmed(block, suspicious_addresses, receipts);
    lemma_creation_steps_find_first_confirmed(block, suspicious_addresses, receipts_again);
    let n = block.transactions.len() as int;
    let one = confirmed_creation_at(block, suspicious_addresses, receipts);
    let other = confirmed_creation_at(block, suspicious_addresses, receipts_again);
    lemma_first_from_meaning(0, n, one);
    match first_from(0, n, one) {
        Some(i) => {
            assert forall|k: int| 0 <= k < i implies !#[trigger] other(k) by {
                assert(!one(k));
            }
            lemma_first_found(0, n, other, i);
        },
        None => {
            assert forall|k: int| 0 <= k < n implies !#[trigger] other(k) by {
                assert(!one(k));
            }
            lemma_none_found(0, n, other);
        },
    }
}

/// A signal holds no state: what it finds in a block is decided by the
/// block's value and the watchlist's, so two runs on equal values find the
/// same.
pub proof fn lemma_signal_is_repeatable(
    signal: Signal,
    block: SpecBlock,
    suspicious_contracts: Set<Seq<char>>,
    block_again: SpecBlock,
    suspicious_contracts_again: Set<Seq<char>>,
    first: Option<(u32, SpecPayload)>,
    second: Option<(u32, SpecPayload)>,
)
    requires
        block == block_again,
        suspicious_contracts == suspicious_contracts_again,
        first == signal.evaluate(block, suspicious_contracts),
        second == signal.evaluate(block_again, suspicious_contracts_again),
    ensures
        first == second,
{
}

} // verus!
