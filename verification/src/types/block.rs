//! A read-only, typed view of one block, of its transactions and of a
//! transaction's receipt.
//!
//! The values hold what the chain's JSON documents say, field by field, as
//! plain strings and integers. Nothing here decides anything: the accessors
//! say which fields are there.

use crate::hex::{convert_u64_from_hex, hex_u64, parse_u64_from_hex};
use crate::text::{as_opt_str, copy_opt_string, opt_str_text, opt_text};
use vstd::prelude::*;

verus! {

/// What a transaction says of its recipient.
#[derive(Debug, PartialEq, Eq)]
pub enum Recipient {
    /// The transaction has no `to` field, or one that is neither a string
    /// nor null.
    Absent,
    /// The `to` field is there and is null: the transaction creates a
    /// contract.
    Null,
    /// The `to` field is this address.
    Address(String),
}

/// The mathematical value of a [`Recipient`].
pub enum SpecRecipient {
    Absent,
    Null,
    Address(Seq<char>),
}

impl View for Recipient {
    type V = SpecRecipient;

    open spec fn view(&self) -> SpecRecipient {
        match self {
            Recipient::Absent => SpecRecipient::Absent,
            Recipient::Null => SpecRecipient::Null,
            Recipient::Address(a) => SpecRecipient::Address(a@),
        }
    }
}

impl SpecRecipient {
    /// The recipient's address, where the field holds one.
    pub open spec fn address(self) -> Option<Seq<char>> {
        match self {
            SpecRecipient::Address(a) => Some(a),
            _ => None,
        }
    }
}

impl Clone for Recipient {
    fn clone(&self) -> (r: Self)
        ensures
            r@ == self@,
    {
        match self {
            Recipient::Absent => Recipient::Absent,
            Recipient::Null => Recipient::Null,
            Recipient::Address(a) => Recipient::Address(a.clone()),
        }
    }
}

/// The mathematical value of a [`TransactionJson`]: each field as it was
/// found.
pub struct SpecTransaction {
    pub hash: Option<Seq<char>>,
    pub from: Option<Seq<char>>,
    pub to: SpecRecipient,
    pub input: Option<Seq<char>>,
    pub value: Option<u64>,
    pub timestamp: Option<i64>,
}

/// One transaction of a block.
#[derive(Debug)]
pub struct TransactionJson {
    hash: Option<String>,
    from: Option<String>,
    to: Recipient,
    input: Option<String>,
    value: Option<u64>,
    timestamp: Option<i64>,
}

impl View for TransactionJson {
    type V = SpecTransaction;

    closed spec fn view(&self) -> SpecTransaction {
        SpecTransaction {
            hash: opt_text(self.hash),
            from: opt_text(self.from),
            to: self.to@,
            input: opt_text(self.input),
            value: self.value,
            timestamp: self.timestamp,
        }
    }
}

impl Clone for TransactionJson {
    fn clone(&self) -> (r: Self)
        ensures
            r@ == self@,
    {
        TransactionJson {
            hash: copy_opt_string(&self.hash),
            from: copy_opt_string(&self.from),
            to: self.to.clone(),
            input: copy_opt_string(&self.input),
            value: self.value,
            timestamp: self.timestamp,
        }
    }
}

impl TransactionJson {
    /// A transaction with the given fields; `None` and
    /// [`Recipient::Absent`] stand for a field that is missing or of
    /// another type.
    pub fn new(
        hash: Option<String>,
        from: Option<String>,
        to: Recipient,
        input: Option<String>,
        value: Option<u64>,
        timestamp: Option<i64>,
    ) -> (tx: Self)
        ensures
            tx@ == (SpecTransaction {
                hash: opt_text(hash),
                from: opt_text(from),
                to: to@,
                input: opt_text(input),
                value,
                timestamp,
            }),
    {
        TransactionJson { hash, from, to, input, value, timestamp }
    }

    /// The transaction's hash.
    pub fn hash(&self) -> (r: Option<&str>)
        ensures
            opt_str_text(r) == self@.hash,
    {
        as_opt_str(&self.hash)
    }

    /// The call data, as hexadecimal text.
    pub fn input(&self) -> (r: Option<&str>)
        ensures
            opt_str_text(r) == self@.input,
    {
        as_opt_str(&self.input)
    }

    /// The sender's address.
    pub fn from(&self) -> (r: Option<&str>)
        ensures
            opt_str_text(r) == self@.from,
    {
        as_opt_str(&self.from)
    }

    /// The recipient's address, where the transaction names one.
    pub fn to(&self) -> (r: Option<&str>)
        ensures
            opt_str_text(r) == self@.to.address(),
    {
        match &self.to {
            Recipient::Address(a) => Some(a.as_str()),
            _ => None,
        }
    }

    /// The amount transferred.
    pub fn value(&self) -> (r: Option<u64>)
        ensures
            r == self@.value,
    {
        self.value
    }

    /// The transaction's own timestamp, where it carries one.
    pub fn timestamp(&self) -> (r: Option<i64>)
        ensures
            r == self@.timestamp,
    {
        self.timestamp
    }

    /// Whether the transaction creates a contract: its recipient is there
    /// and is null. A transaction without the field does not count.
    pub fn is_contract_creation(&self) -> (r: bool)
        ensures
            r == (self@.to == SpecRecipient::Null),
    {
        match &self.to {
            Recipient::Null => true,
            _ => false,
        }
    }
}

/// The unsigned 64-bit number that a block's hexadecimal field stands
/// for, where the field is there and is such a number: see [`hex_u64`].
pub open spec fn hex_field_value(field: Option<Seq<char>>) -> Option<u64> {
    match field {
        Some(text) => hex_u64(text),
        None => None,
    }
}

/// The mathematical value of a [`BlockJson`].
pub struct SpecBlock {
    pub number: Option<Seq<char>>,
    pub timestamp: Option<Seq<char>>,
    pub transactions: Seq<SpecTransaction>,
}

impl SpecBlock {
    /// The block's height, where the field is there and readable.
    pub open spec fn number_value(self) -> Option<u64> {
        hex_field_value(self.number)
    }

    /// The block's timestamp, where the field is there and readable.
    pub open spec fn timestamp_value(self) -> Option<u64> {
        hex_field_value(self.timestamp)
    }

    /// A block as a conforming source hands it out: with a readable number
    /// and a readable timestamp.
    pub open spec fn well_formed(self) -> bool {
        self.number_value() is Some && self.timestamp_value() is Some
    }
}

/// The values of a run of transactions, in order.
pub open spec fn transaction_values(txs: Seq<TransactionJson>) -> Seq<SpecTransaction> {
    txs.map_values(|tx: TransactionJson| tx@)
}

/// One block: its number and timestamp as the hexadecimal text found in the
/// document, and its transactions in chain order.
#[derive(Debug)]
pub struct BlockJson {
    number: Option<String>,
    timestamp: Option<String>,
    transactions: Vec<TransactionJson>,
}

impl View for BlockJson {
    type V = SpecBlock;

    closed spec fn view(&self) -> SpecBlock {
        SpecBlock {
            number: opt_text(self.number),
            timestamp: opt_text(self.timestamp),
            transactions: transaction_values(self.transactions@),
        }
    }
}

/// Reads a block's hexadecimal field.
fn read_hex_field(field: &Option<String>) -> (r: Option<u64>)
    ensures
        r == hex_field_value(opt_text(*field)),
{
    match field {
        Some(text) => parse_u64_from_hex(text.as_str()),
        None => None,
    }
}

impl BlockJson {
    /// A block with the given fields. `number` and `timestamp` are the
    /// document's strings, `None` where the field is missing or no string;
    /// `transactions` is empty where the document has no list of them.
    pub fn new(
        number: Option<String>,
        timestamp: Option<String>,
        transactions: Vec<TransactionJson>,
    ) -> (block: Self)
        ensures
            block@ == (SpecBlock {
                number: opt_text(number),
                timestamp: opt_text(timestamp),
                transactions: transaction_values(transactions@),
            }),
    {
        BlockJson { number, timestamp, transactions }
    }

    /// Whether the block's number is there and readable.
    pub fn has_number(&self) -> (r: bool)
        ensures
            r == self@.number_value() is Some,
    {
        read_hex_field(&self.number).is_some()
    }

    /// Whether the block's timestamp is there and readable.
    pub fn has_timestamp(&self) -> (r: bool)
        ensures
            r == self@.timestamp_value() is Some,
    {
        read_hex_field(&self.timestamp).is_some()
    }

    /// The block's timestamp. Every block of a conforming source has one.
    pub fn timestamp(&self) -> (r: u64)
        requires
            self@.timestamp_value() is Some,
        ensures
            Some(r) == self@.timestamp_value(),
    {
        match &self.timestamp {
            Some(ts) => convert_u64_from_hex(ts.as_str()),
            None => 0,
        }
    }

    /// The block's height. Every block of a conforming source has one.
    pub fn number(&self) -> (r: u64)
        requires
            self@.number_value() is Some,
        ensures
            Some(r) == self@.number_value(),
    {
        match &self.number {
            Some(number) => convert_u64_from_hex(number.as_str()),
            None => 0,
        }
    }

    /// The block's transactions, in chain order, borrowed.
    pub fn transactions(&self) -> (txs: &Vec<TransactionJson>)
        ensures
            transaction_values(txs@) == self@.transactions,
    {
        &self.transactions
    }

    /// The block's transactions, in chain order, each copied out.
    pub fn get_transactions(&self) -> (res: Vec<TransactionJson>)
        ensures
            transaction_values(res@) == self@.transactions,
    {
        let mut res: Vec<TransactionJson> = Vec::new();
        let n = self.transactions.len();
        let mut i: usize = 0;
        while i < n
            invariant
                i <= n,
                n == self.transactions@.len(),
                res@.len() == i,
                forall|j: int| 0 <= j < i ==> (#[trigger] res@[j])@ == self.transactions@[j]@,
            decreases n - i,
        {
            res.push(self.transactions[i].clone());
            i += 1;
        }
        res
    }
}

/// The mathematical value of a [`TransactionReceiptJson`].
pub struct SpecReceipt {
    pub contract_address: Option<Seq<char>>,
}

/// The receipt of one transaction.
#[derive(Debug)]
pub struct TransactionReceiptJson {
    contract_address: Option<String>,
}

impl View for TransactionReceiptJson {
    type V = SpecReceipt;

    closed spec fn view(&self) -> SpecReceipt {
        SpecReceipt { contract_address: opt_text(self.contract_address) }
    }
}

impl TransactionReceiptJson {
    /// A receipt that names the contract the transaction deployed, if it
    /// deployed one.
    pub fn new(contract_address: Option<String>) -> (receipt: Self)
        ensures
            receipt@ == (SpecReceipt { contract_address: opt_text(contract_address) }),
    {
        TransactionReceiptJson { contract_address }
    }

    /// The address of the contract that the transaction deployed.
    pub fn contract_address(&self) -> (r: Option<&str>)
        ensures
            opt_str_text(r) == self@.contract_address,
    {
        as_opt_str(&self.contract_address)
    }
}

} // verus!
