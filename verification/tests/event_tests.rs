use alloy_primitives::{hex, Address, Bytes, FixedBytes, U256};
use alloy_sol_types::{sol_data, SolType};
use insolvent_detect_signal::types::{
    BlockJson, Event, Payload, Recipient, Step, SuspiciousContractCreatedEvent,
    SuspiciousContractCreatedJson, TornadoCashWithdrawEvent, TornadoCashWithdrawEventJson,
    TransactionJson, TransactionReceiptJson, TransferFromFixedFloatEvent,
    TransferFromFixedFloatJson,
};
use insolvent_detect_signal::StringHashSet;

type Arguments = (
    sol_data::Address,
    sol_data::Bytes,
    sol_data::FixedBytes<32>,
    sol_data::FixedBytes<32>,
    sol_data::Address,
    sol_data::Address,
    sol_data::Uint<256>,
    sol_data::Uint<256>,
);

const TCETH01: &str = "0x12D66f87A04A9E220743712cE6d9bB1B5616B8Fc";
const TCETH1: &str = "0x47CE0C6eD5B0Ce3d3A51fdb1C52DC66a7c3c2936";
const OTHER_POOL: &str = "0x910Cbd523D972eb0a6f4cAe4618aD62622b39DbF";
const RECIPIENT: &str = "0xd8dA6BF26964aF9D7eEd9e03E53415D37aA96045";
const RELAYER: &str = "0x00000000219ab540356cBB839Cbe05303d7705Fa";
const FIXED_FLOAT: &str = "0x4e5b2e1dc63f6b91cb6cd759936495434c7e972f";
const WATCHED: &str = "0x864e656c57a5a119f332c47326a35422294db5c9";
const DEPLOYED: &str = "0x03e7b13bcd9b8383f403696c1494845560607eca";

fn address(text: &str) -> Address {
    Address::from_slice(&hex::decode(text).unwrap())
}

/// The input of a withdrawal from `pool`, as a transaction carries it.
fn withdraw_input(pool: &str) -> String {
    let mut data = vec![0xb4, 0x38, 0x68, 0x9f];
    data.extend(Arguments::abi_encode_sequence(&(
        address(pool),
        Bytes::copy_from_slice(&[7u8; 256]),
        FixedBytes::<32>::from_slice(&[1u8; 32]),
        FixedBytes::<32>::from_slice(&[2u8; 32]),
        address(RECIPIENT),
        address(RELAYER),
        U256::from(5u64),
        U256::ZERO,
    )));
    hex::encode_prefixed(data)
}

fn tx(hash: &str, from: &str, to: Recipient, input: Option<&str>) -> TransactionJson {
    TransactionJson::new(
        Some(hash.to_string()),
        Some(from.to_string()),
        to,
        input.map(|s| s.to_string()),
        Some(1000),
        None,
    )
}

fn to(address: &str) -> Recipient {
    Recipient::Address(address.to_string())
}

fn plain(hash: &str) -> TransactionJson {
    tx(hash, "0x00000000000000000000000000000000000000aa", to(RECIPIENT), Some("0x"))
}

fn block(transactions: Vec<TransactionJson>) -> BlockJson {
    BlockJson::new(Some("0x116d4e3".to_string()), Some("0x6502e51b".to_string()), transactions)
}

fn watchlist(entries: &[&str]) -> StringHashSet {
    let mut set = StringHashSet::new();
    for entry in entries {
        set.insert(entry.to_string());
    }
    set
}

/// Runs a classifier to its end as a driver does, with `lookup` in place
/// of the chain. Returns the finding and the hashes looked up, in order.
fn drive(
    event: &Event,
    block: &BlockJson,
    suspicious_addresses: &StringHashSet,
    lookup: &dyn Fn(&str) -> Option<TransactionReceiptJson>,
) -> (Option<(u32, Payload)>, Vec<String>) {
    let mut asked = Vec::new();
    let mut step = event.event(block, suspicious_addresses);
    loop {
        match step {
            Step::Finished(found) => return (found, asked),
            Step::NeedsReceipt { index, hash } => {
                assert_eq!(block.transactions()[index].hash(), Some(hash.as_str()));
                asked.push(hash.clone());
                let receipt = lookup(&hash);
                step = event.resume(block, suspicious_addresses, index, receipt.as_ref());
            }
        }
    }
}

fn deployed_at(address: &'static str) -> impl Fn(&str) -> Option<TransactionReceiptJson> {
    move |_hash| Some(TransactionReceiptJson::new(Some(address.to_string())))
}

fn lookup_fails(_hash: &str) -> Option<TransactionReceiptJson> {
    None
}

#[test]
fn tornado_cash_block_response_test() {
    let mut event_id = u32::MAX;

    let json_block = block(vec![
        plain("0x01"),
        tx("0x02", RELAYER, to("0x722122dF12D4e14e13Ac3b6895a86e84145b6967"), Some(&withdraw_input(TCETH1))),
        plain("0x03"),
    ]);
    let tornado_cash_withdraw = Event::TornadoCashWithdraw(TornadoCashWithdrawEvent);
    if let Step::Finished(Some(event)) =
        tornado_cash_withdraw.event(&json_block, &StringHashSet::new())
    {
        event_id = event.0;
    }
    assert_eq!(event_id, 1);
}

#[test]
fn fixed_float_deposit_response_test() {
    let mut event_id = u32::MAX;

    let json_block = block(vec![plain("0x01"), tx("0x02", FIXED_FLOAT, to(RECIPIENT), Some("0x"))]);
    let transfer_from_fixed_float = Event::TransferFromFixedFloat(TransferFromFixedFloatEvent);
    if let Step::Finished(Some(event)) =
        transfer_from_fixed_float.event(&json_block, &StringHashSet::new())
    {
        event_id = event.0;
    }
    assert_eq!(event_id, 2);
}

#[test]
fn suspcious_contract_created_response_test() {
    let mut event_id = u32::MAX;

    let mut suspicious_addresses = StringHashSet::new();
    suspicious_addresses.insert("0x864e656c57a5a119f332c47326a35422294db5c9".to_string());

    let json_block = block(vec![
        plain("0x01"),
        tx("0x02", WATCHED, Recipient::Null, Some("0x60806040")),
    ]);
    let suspicious_contract_created =
        Event::SuspiciousContractCreated(SuspiciousContractCreatedEvent);
    let (found, _) = drive(
        &suspicious_contract_created,
        &json_block,
        &suspicious_addresses,
        &deployed_at(DEPLOYED),
    );
    if let Some(event) = found {
        event_id = event.0;
    }
    assert_eq!(event_id, 3);
}

#[test]
fn nothing_qualifies_nothing_is_found() {
    let quiet = block(vec![plain("0x01"), plain("0x02")]);
    let empty = block(Vec::new());
    let watched = watchlist(&[WATCHED]);
    for b in [&quiet, &empty] {
        assert_eq!(TornadoCashWithdrawEvent.event(b), None);
        assert_eq!(TransferFromFixedFloatEvent.event(b), None);
        assert_eq!(SuspiciousContractCreatedEvent.event(b, &watched), Step::Finished(None));
        for event in [
            Event::TornadoCashWithdraw(TornadoCashWithdrawEvent),
            Event::TransferFromFixedFloat(TransferFromFixedFloatEvent),
            Event::SuspiciousContractCreated(SuspiciousContractCreatedEvent),
        ] {
            let (found, asked) = drive(&event, b, &watched, &deployed_at(DEPLOYED));
            assert_eq!(found, None);
            assert!(asked.is_empty());
        }
    }
}

#[test]
fn a_block_without_number_is_fine_where_nothing_is_found() {
    let b = BlockJson::new(None, None, vec![plain("0x01")]);
    assert_eq!(TornadoCashWithdrawEvent.event(&b), None);
    assert_eq!(TransferFromFixedFloatEvent.event(&b), None);
    assert_eq!(
        SuspiciousContractCreatedEvent.event(&b, &watchlist(&[WATCHED])),
        Step::Finished(None)
    );
}

#[test]
fn withdrawal_from_the_small_pool_is_named() {
    let b = block(vec![plain("0x01"), tx("0x02", RELAYER, to(RELAYER), Some(&withdraw_input(TCETH01)))]);
    let found = TornadoCashWithdrawEvent.event(&b);
    assert_eq!(
        found,
        Some((
            1,
            TornadoCashWithdrawEventJson {
                tornado_address: TCETH01.to_string(),
                recipient: RECIPIENT.to_string(),
                relayer: RELAYER.to_string(),
                tornado_address_name: "ETH/0.1".to_string(),
                block_timestamp: 1694688539,
                block: 18273507,
                transaction_hash: "0x02".to_string(),
            }
        ))
    );
}

#[test]
fn pools_are_named_by_their_address() {
    assert_eq!(TornadoCashWithdrawEvent::pool_name(TCETH01), "ETH/0.1");
    assert_eq!(TornadoCashWithdrawEvent::pool_name(TCETH1), "ETH/1");
    assert_eq!(TornadoCashWithdrawEvent::pool_name(OTHER_POOL), "Unknown");
    assert_eq!(TornadoCashWithdrawEvent::pool_name(""), "Unknown");
    // The names go by the checksummed spelling.
    assert_eq!(TornadoCashWithdrawEvent::pool_name(&TCETH01.to_lowercase()), "Unknown");

    for (pool, name) in [(TCETH01, "ETH/0.1"), (TCETH1, "ETH/1"), (OTHER_POOL, "Unknown")] {
        let b = block(vec![tx("0x09", RELAYER, to(RELAYER), Some(&withdraw_input(pool)))]);
        let (_, json) = TornadoCashWithdrawEvent.event(&b).unwrap();
        assert_eq!(json.tornado_address, pool);
        assert_eq!(json.tornado_address_name, name);
    }
}

#[test]
fn report_of_a_withdrawal_holds_what_it_is_given() {
    let json = TornadoCashWithdrawEvent::report(
        TCETH1.to_string(),
        RECIPIENT.to_string(),
        RELAYER.to_string(),
        18273507,
        1694688539,
        "0xabc".to_string(),
    );
    assert_eq!(
        json,
        TornadoCashWithdrawEventJson {
            tornado_address: TCETH1.to_string(),
            recipient: RECIPIENT.to_string(),
            relayer: RELAYER.to_string(),
            tornado_address_name: "ETH/1".to_string(),
            block_timestamp: 1694688539,
            block: 18273507,
            transaction_hash: "0xabc".to_string(),
        }
    );
}

#[test]
fn input_is_decoded_into_checksummed_addresses() {
    let input = withdraw_input(TCETH01);
    assert_eq!(
        TornadoCashWithdrawEvent::decode_transaction(&input),
        Some((TCETH01.to_string(), RECIPIENT.to_string(), RELAYER.to_string()))
    );
    // Without the prefix, and in capitals, the text stands for the same bytes.
    assert_eq!(
        TornadoCashWithdrawEvent::decode_transaction(&input[2..].to_uppercase()),
        Some((TCETH01.to_string(), RECIPIENT.to_string(), RELAYER.to_string()))
    );
    let capital_prefix = format!("0X{}", &input[2..]);
    assert!(TornadoCashWithdrawEvent::decode_transaction(&capital_prefix).is_some());
}

#[test]
fn input_that_is_no_withdrawal_decodes_to_nothing() {
    let input = withdraw_input(TCETH01);
    for bad in [
        "",
        "0x",
        "0xb438689f",
        "0xa9059cbb000000000000000000000000d8da6bf26964af9d7eed9e03e53415d37aa96045",
        "b438689",
        "0xzz",
        "not hex at all",
        "0x0xb438689f",
    ] {
        assert_eq!(TornadoCashWithdrawEvent::decode_transaction(bad), None, "{}", bad);
    }
    // one digit short: an odd number of digits
    assert_eq!(TornadoCashWithdrawEvent::decode_transaction(&input[..input.len() - 1]), None);
    // the arguments cut off inside the head
    assert_eq!(TornadoCashWithdrawEvent::decode_transaction(&input[..2 + 8 + 500]), None);
    // another selector
    let other = format!("0xb438689e{}", &input[10..]);
    assert_eq!(TornadoCashWithdrawEvent::decode_transaction(&other), None);
}

#[test]
fn withdrawal_with_unreadable_input_is_passed_over() {
    let b = block(vec![
        tx("0x01", RELAYER, to(RELAYER), Some("0xnothex")),
        tx("0x02", RELAYER, to(RELAYER), None),
        tx("0x03", RELAYER, to(RELAYER), Some(&withdraw_input(TCETH1))),
    ]);
    let (id, json) = TornadoCashWithdrawEvent.event(&b).unwrap();
    assert_eq!(id, 1);
    assert_eq!(json.transaction_hash, "0x03");
}

#[test]
fn withdrawal_without_a_hash_is_reported_with_an_empty_one() {
    let b = block(vec![TransactionJson::new(
        None,
        None,
        Recipient::Absent,
        Some(withdraw_input(OTHER_POOL)),
        None,
        None,
    )]);
    let (_, json) = TornadoCashWithdrawEvent.event(&b).unwrap();
    assert_eq!(json.transaction_hash, "");
    assert_eq!(json.tornado_address_name, "Unknown");
}

#[test]
fn transfer_from_the_exchange_names_its_recipient() {
    let b = block(vec![plain("0x01"), tx("0x02", FIXED_FLOAT, to(DEPLOYED), Some("0x"))]);
    assert_eq!(
        TransferFromFixedFloatEvent.event(&b),
        Some((
            2,
            TransferFromFixedFloatJson {
                recipient: DEPLOYED.to_string(),
                value: 1000,
                block_timestamp: 1694688539,
                block: 18273507,
                transaction_hash: "0x02".to_string(),
            }
        ))
    );
}

#[test]
fn transfer_without_value_or_hash_is_reported_with_defaults() {
    let b = block(vec![TransactionJson::new(
        None,
        Some(FIXED_FLOAT.to_string()),
        to(RECIPIENT),
        None,
        None,
        None,
    )]);
    let (_, json) = TransferFromFixedFloatEvent.event(&b).unwrap();
    assert_eq!(json.value, 0);
    assert_eq!(json.transaction_hash, "");
    assert_eq!(json.recipient, RECIPIENT);
}

#[test]
fn transfer_needs_the_exact_sender_and_a_recipient() {
    let upper = FIXED_FLOAT.to_uppercase();
    let b = block(vec![
        // the exchange creating a contract: no recipient
        tx("0x01", FIXED_FLOAT, Recipient::Null, Some("0x")),
        tx("0x02", FIXED_FLOAT, Recipient::Absent, Some("0x")),
        // another spelling of the address
        tx("0x03", &upper, to(RECIPIENT), Some("0x")),
        // the exchange receiving
        tx("0x04", RECIPIENT, to(FIXED_FLOAT), Some("0x")),
        TransactionJson::new(Some("0x05".to_string()), None, to(RECIPIENT), None, None, None),
    ]);
    assert_eq!(TransferFromFixedFloatEvent.event(&b), None);
}

#[test]
fn creation_by_a_watched_account_is_reported_with_its_receipt() {
    let b = block(vec![plain("0x01"), tx("0x02", WATCHED, Recipient::Null, Some("0x60806040"))]);
    let event = Event::SuspiciousContractCreated(SuspiciousContractCreatedEvent);
    let (found, asked) = drive(&event, &b, &watchlist(&[WATCHED]), &deployed_at(DEPLOYED));
    assert_eq!(asked, vec!["0x02".to_string()]);
    assert_eq!(
        found,
        Some((
            3,
            Payload::SuspiciousContractCreated(SuspiciousContractCreatedJson {
                creator: WATCHED.to_string(),
                contract_code: "0x60806040".to_string(),
                contract_address: DEPLOYED.to_string(),
                block_timestamp: 1694688539,
                block: 18273507,
                transaction_hash: "0x02".to_string(),
            })
        ))
    );
}

#[test]
fn creation_is_not_reported_when_the_lookup_fails() {
    let b = block(vec![plain("0x01"), tx("0x02", WATCHED, Recipient::Null, Some("0x60806040"))]);
    let event = Event::SuspiciousContractCreated(SuspiciousContractCreatedEvent);
    let (found, asked) = drive(&event, &b, &watchlist(&[WATCHED]), &lookup_fails);
    assert_eq!(found, None);
    // one lookup for the candidate, and no second try
    assert_eq!(asked, vec!["0x02".to_string()]);
}

#[test]
fn creation_is_not_reported_when_the_receipt_names_no_contract() {
    let b = block(vec![plain("0x01"), tx("0x02", WATCHED, Recipient::Null, Some("0x60806040"))]);
    let event = Event::SuspiciousContractCreated(SuspiciousContractCreatedEvent);
    let lookup = |_hash: &str| Some(TransactionReceiptJson::new(None));
    let (found, asked) = drive(&event, &b, &watchlist(&[WATCHED]), &lookup);
    assert_eq!(found, None);
    assert_eq!(asked, vec!["0x02".to_string()]);
    // The step itself: it returns, and finishes without a finding.
    let watched = watchlist(&[WATCHED]);
    let receipt = TransactionReceiptJson::new(None);
    assert_eq!(
        SuspiciousContractCreatedEvent.resume(&b, &watched, 1, Some(&receipt)),
        Step::Finished(None)
    );
    // Nor does such a receipt ask anything of the block.
    let bare = BlockJson::new(None, None, vec![tx("0x02", WATCHED, Recipient::Null, None)]);
    assert_eq!(
        SuspiciousContractCreatedEvent.resume(&bare, &watched, 0, Some(&receipt)),
        Step::Finished(None)
    );
}

#[test]
fn creation_goes_on_behind_a_receipt_that_names_no_contract() {
    let b = block(vec![
        tx("0x01", WATCHED, Recipient::Null, Some("0x6001")),
        tx("0x02", WATCHED, Recipient::Null, Some("0x6002")),
    ]);
    let event = Event::SuspiciousContractCreated(SuspiciousContractCreatedEvent);
    let lookup = |hash: &str| {
        if hash == "0x01" {
            Some(TransactionReceiptJson::new(None))
        } else {
            Some(TransactionReceiptJson::new(Some(DEPLOYED.to_string())))
        }
    };
    let (found, asked) = drive(&event, &b, &watchlist(&[WATCHED]), &lookup);
    assert_eq!(asked, vec!["0x01".to_string(), "0x02".to_string()]);
    match found {
        Some((3, Payload::SuspiciousContractCreated(json))) => {
            assert_eq!(json.transaction_hash, "0x02");
            assert_eq!(json.contract_address, DEPLOYED);
        }
        other => panic!("{:?}", other),
    }
}

#[test]
fn creation_goes_on_to_the_next_candidate_after_a_failed_lookup() {
    let b = block(vec![
        tx("0x01", WATCHED, Recipient::Null, Some("0x6001")),
        plain("0x02"),
        tx("0x03", WATCHED, Recipient::Null, Some("0x6003")),
        tx("0x04", WATCHED, Recipient::Null, Some("0x6004")),
    ]);
    let event = Event::SuspiciousContractCreated(SuspiciousContractCreatedEvent);
    let lookup = |hash: &str| {
        if hash == "0x01" {
            None
        } else {
            Some(TransactionReceiptJson::new(Some(format!("0xdeployed-by-{}", hash))))
        }
    };
    let (found, asked) = drive(&event, &b, &watchlist(&[WATCHED]), &lookup);
    assert_eq!(asked, vec!["0x01".to_string(), "0x03".to_string()]);
    match found {
        Some((3, Payload::SuspiciousContractCreated(json))) => {
            assert_eq!(json.transaction_hash, "0x03");
            assert_eq!(json.contract_code, "0x6003");
            assert_eq!(json.contract_address, "0xdeployed-by-0x03");
        }
        other => panic!("{:?}", other),
    }
}

#[test]
fn creation_without_input_is_reported_with_the_placeholder_code() {
    let b = block(vec![tx("0x02", WATCHED, Recipient::Null, None)]);
    let classifier = SuspiciousContractCreatedEvent;
    let watched = watchlist(&[WATCHED]);
    let step = classifier.event(&b, &watched);
    assert_eq!(step, Step::NeedsReceipt { index: 0, hash: "0x02".to_string() });
    let receipt = TransactionReceiptJson::new(Some(DEPLOYED.to_string()));
    match classifier.resume(&b, &watched, 0, Some(&receipt)) {
        Step::Finished(Some((3, json))) => assert_eq!(json.contract_code, "x0"),
        other => panic!("{:?}", other),
    }
}

#[test]
fn creation_needs_a_watched_sender_a_null_recipient_and_a_hash() {
    let watched = watchlist(&[WATCHED]);
    let b = block(vec![
        // not watched
        tx("0x01", RELAYER, Recipient::Null, Some("0x60")),
        // watched, but a call
        tx("0x02", WATCHED, to(RECIPIENT), Some("0x60")),
        // watched, but the recipient is missing rather than null
        tx("0x03", WATCHED, Recipient::Absent, Some("0x60")),
        // watched and creating, but without a hash to look up
        TransactionJson::new(None, Some(WATCHED.to_string()), Recipient::Null, None, None, None),
        // no sender
        TransactionJson::new(Some("0x05".to_string()), None, Recipient::Null, None, None, None),
    ]);
    assert_eq!(SuspiciousContractCreatedEvent.event(&b, &watched), Step::Finished(None));
    // The watchlist goes by the exact spelling.
    let spelled = block(vec![tx("0x06", &WATCHED.to_uppercase(), Recipient::Null, None)]);
    assert_eq!(SuspiciousContractCreatedEvent.event(&spelled, &watched), Step::Finished(None));
    // With an empty watchlist nothing is a candidate.
    let c = block(vec![tx("0x07", WATCHED, Recipient::Null, None)]);
    assert_eq!(
        SuspiciousContractCreatedEvent.event(&c, &StringHashSet::new()),
        Step::Finished(None)
    );
}

#[test]
fn same_block_same_finding() {
    let watched = watchlist(&[WATCHED]);
    let b = block(vec![
        tx("0x01", FIXED_FLOAT, to(RECIPIENT), Some(&withdraw_input(TCETH01))),
        tx("0x02", WATCHED, Recipient::Null, Some("0x6080")),
    ]);
    assert_eq!(TornadoCashWithdrawEvent.event(&b), TornadoCashWithdrawEvent.event(&b));
    assert!(TornadoCashWithdrawEvent.event(&b).is_some());
    assert_eq!(TransferFromFixedFloatEvent.event(&b), TransferFromFixedFloatEvent.event(&b));
    assert!(TransferFromFixedFloatEvent.event(&b).is_some());
    for event in [
        Event::TornadoCashWithdraw(TornadoCashWithdrawEvent),
        Event::TransferFromFixedFloat(TransferFromFixedFloatEvent),
        Event::SuspiciousContractCreated(SuspiciousContractCreatedEvent),
    ] {
        let first = drive(&event, &b, &watched, &deployed_at(DEPLOYED));
        let second = drive(&event, &b, &watched, &deployed_at(DEPLOYED));
        assert!(first.0.is_some());
        assert_eq!(first, second);
    }
}

#[test]
fn of_two_that_qualify_the_earlier_is_found() {
    let watched = watchlist(&[WATCHED]);

    let withdrawals = block(vec![
        plain("0x01"),
        tx("0x02", RELAYER, to(RELAYER), Some(&withdraw_input(TCETH1))),
        tx("0x03", RELAYER, to(RELAYER), Some(&withdraw_input(TCETH01))),
    ]);
    let (_, json) = TornadoCashWithdrawEvent.event(&withdrawals).unwrap();
    assert_eq!(json.transaction_hash, "0x02");
    assert_eq!(json.tornado_address_name, "ETH/1");

    let transfers = block(vec![
        tx("0x01", FIXED_FLOAT, to(RECIPIENT), None),
        tx("0x02", FIXED_FLOAT, to(RELAYER), None),
    ]);
    let (_, json) = TransferFromFixedFloatEvent.event(&transfers).unwrap();
    assert_eq!(json.transaction_hash, "0x01");
    assert_eq!(json.recipient, RECIPIENT);

    let creations = block(vec![
        tx("0x01", WATCHED, Recipient::Null, Some("0x6001")),
        tx("0x02", WATCHED, Recipient::Null, Some("0x6002")),
    ]);
    let event = Event::SuspiciousContractCreated(SuspiciousContractCreatedEvent);
    let (found, asked) = drive(&event, &creations, &watched, &deployed_at(DEPLOYED));
    assert_eq!(asked, vec!["0x01".to_string()]);
    match found {
        Some((3, Payload::SuspiciousContractCreated(json))) => {
            assert_eq!(json.transaction_hash, "0x01")
        }
        other => panic!("{:?}", other),
    }
}

#[test]
fn each_classifier_finds_its_own_in_one_block() {
    let watched = watchlist(&[WATCHED]);
    let b = block(vec![
        tx("0x01", WATCHED, Recipient::Null, Some("0x6001")),
        tx("0x02", FIXED_FLOAT, to(RECIPIENT), Some("0x")),
        tx("0x03", RELAYER, to(RELAYER), Some(&withdraw_input(TCETH01))),
    ]);
    let ids: Vec<u32> = [
        Event::TornadoCashWithdraw(TornadoCashWithdrawEvent),
        Event::TransferFromFixedFloat(TransferFromFixedFloatEvent),
        Event::SuspiciousContractCreated(SuspiciousContractCreatedEvent),
    ]
    .iter()
    .map(|event| drive(event, &b, &watched, &deployed_at(DEPLOYED)).0.unwrap().0)
    .collect();
    assert_eq!(ids, vec![1, 2, 3]);
}

#[test]
fn kinds_have_their_numbers() {
    assert_eq!(TornadoCashWithdrawEvent::ID, 1);
    assert_eq!(TransferFromFixedFloatEvent::ID, 2);
    assert_eq!(SuspiciousContractCreatedEvent::ID, 3);
    assert_eq!(TransferFromFixedFloatEvent::FIXED_FLOAT_ADDRESS, FIXED_FLOAT);
    assert_eq!(TornadoCashWithdrawEvent::TCETH01, TCETH01);
    assert_eq!(TornadoCashWithdrawEvent::TCETH1, TCETH1);
}
